//! Remote control of the demo runner: which demo a number or key selects,
//! how a key name is read, and what the runner does for each control command
//! given what the current demo supports.
use crate::demo_core::{list_filter_name, ListFilter};
use crate::input::{overlay_mode_name, OverlayMode};
use crate::text_util::{concat_str, decimal, decimal_string, str_eq};
use crate::todomvc_common::TodoMvcRetainedState;
use vstd::prelude::*;
use vstd::string::StrSliceExecFns;

verus! {

/// The demos of the runner, numbered from 0 in this order.
#[derive(Clone, Copy, Debug, PartialEq, Eq, Structural)]
pub enum DemoId {
    Empty,
    Objects,
    Spheres,
    Towers,
    Text2D,
    Clay,
    TextShadow,
    TodoMvc,
    TodoMvc3D,
    RetainedUi,
    RetainedUiPhysical,
    TextPhysical,
    MixedUiWorld,
}

pub open spec fn demo_number(id: DemoId) -> u8 {
    match id {
        DemoId::Empty => 0,
        DemoId::Objects => 1,
        DemoId::Spheres => 2,
        DemoId::Towers => 3,
        DemoId::Text2D => 4,
        DemoId::Clay => 5,
        DemoId::TextShadow => 6,
        DemoId::TodoMvc => 7,
        DemoId::TodoMvc3D => 8,
        DemoId::RetainedUi => 9,
        DemoId::RetainedUiPhysical => 10,
        DemoId::TextPhysical => 11,
        DemoId::MixedUiWorld => 12,
    }
}

impl DemoId {
    /// The demo numbered `n`, if any.
    pub fn from_u8(n: u8) -> (r: Option<DemoId>)
        ensures
            r is None <==> n > 12,
            r matches Some(d) ==> demo_number(d) == n,
    {
        match n {
            0 => Some(DemoId::Empty),
            1 => Some(DemoId::Objects),
            2 => Some(DemoId::Spheres),
            3 => Some(DemoId::Towers),
            4 => Some(DemoId::Text2D),
            5 => Some(DemoId::Clay),
            6 => Some(DemoId::TextShadow),
            7 => Some(DemoId::TodoMvc),
            8 => Some(DemoId::TodoMvc3D),
            9 => Some(DemoId::RetainedUi),
            10 => Some(DemoId::RetainedUiPhysical),
            11 => Some(DemoId::TextPhysical),
            12 => Some(DemoId::MixedUiWorld),
            _ => None,
        }
    }

    pub fn number(self) -> (r: u8)
        ensures
            r == demo_number(self),
    {
        match self {
            DemoId::Empty => 0,
            DemoId::Objects => 1,
            DemoId::Spheres => 2,
            DemoId::Towers => 3,
            DemoId::Text2D => 4,
            DemoId::Clay => 5,
            DemoId::TextShadow => 6,
            DemoId::TodoMvc => 7,
            DemoId::TodoMvc3D => 8,
            DemoId::RetainedUi => 9,
            DemoId::RetainedUiPhysical => 10,
            DemoId::TextPhysical => 11,
            DemoId::MixedUiWorld => 12,
        }
    }
}

/// A demo's number names it again.
pub proof fn lemma_demo_number_round_trip(id: DemoId, n: u8)
    ensures
        demo_number(id) <= 12,
        demo_number(id) == n ==> (n == 0 ==> id == DemoId::Empty) && (n == 12 ==> id == DemoId::MixedUiWorld),
{
}

/// A physical key, as the demos tell keys apart.
#[derive(Clone, Copy, Debug, PartialEq, Eq, Structural)]
pub enum KeyCode {
    /// The digit key `0` to `9`.
    Digit(u8),
    Minus,
    Equal,
    /// The letter key, `0` for A to `25` for Z.
    Letter(u8),
    ArrowUp,
    ArrowDown,
    ArrowLeft,
    ArrowRight,
    Escape,
    Tab,
    Home,
    Space,
    ControlLeft,
    ControlRight,
    /// Any other key.
    Other,
}

/// The key named `s`: a digit, `-`, `=`, a letter in either case, or an
/// arrow written `up`, `Up` or `UP` (and so on).
pub open spec fn parse_keycode(s: Seq<char>) -> Option<KeyCode> {
    if s.len() == 1 {
        let c = s[0] as u32;
        if '0' as u32 <= c <= '9' as u32 {
            Some(KeyCode::Digit((c - '0' as u32) as u8))
        } else if c == '-' as u32 {
            Some(KeyCode::Minus)
        } else if c == '=' as u32 {
            Some(KeyCode::Equal)
        } else if 'a' as u32 <= c <= 'z' as u32 {
            Some(KeyCode::Letter((c - 'a' as u32) as u8))
        } else if 'A' as u32 <= c <= 'Z' as u32 {
            Some(KeyCode::Letter((c - 'A' as u32) as u8))
        } else {
            None
        }
    } else if s == "up"@ || s == "Up"@ || s == "UP"@ {
        Some(KeyCode::ArrowUp)
    } else if s == "down"@ || s == "Down"@ || s == "DOWN"@ {
        Some(KeyCode::ArrowDown)
    } else if s == "left"@ || s == "Left"@ || s == "LEFT"@ {
        Some(KeyCode::ArrowLeft)
    } else if s == "right"@ || s == "Right"@ || s == "RIGHT"@ {
        Some(KeyCode::ArrowRight)
    } else {
        None
    }
}

fn any_of(key: &str, a: &str, b: &str, c: &str) -> (r: bool)
    ensures
        r == (key@ == a@ || key@ == b@ || key@ == c@),
{
    str_eq(key, a) || str_eq(key, b) || str_eq(key, c)
}

/// The key a control client names.
pub fn parse_control_keycode(key: &str) -> (r: Option<KeyCode>)
    ensures
        r == parse_keycode(key@),
{
    if key.unicode_len() == 1 {
        let c = key.get_char(0) as u32;
        if '0' as u32 <= c && c <= '9' as u32 {
            Some(KeyCode::Digit((c - '0' as u32) as u8))
        } else if c == '-' as u32 {
            Some(KeyCode::Minus)
        } else if c == '=' as u32 {
            Some(KeyCode::Equal)
        } else if 'a' as u32 <= c && c <= 'z' as u32 {
            Some(KeyCode::Letter((c - 'a' as u32) as u8))
        } else if 'A' as u32 <= c && c <= 'Z' as u32 {
            Some(KeyCode::Letter((c - 'A' as u32) as u8))
        } else {
            None
        }
    } else if any_of(key, "up", "Up", "UP") {
        Some(KeyCode::ArrowUp)
    } else if any_of(key, "down", "Down", "DOWN") {
        Some(KeyCode::ArrowDown)
    } else if any_of(key, "left", "Left", "LEFT") {
        Some(KeyCode::ArrowLeft)
    } else if any_of(key, "right", "Right", "RIGHT") {
        Some(KeyCode::ArrowRight)
    } else {
        None
    }
}

/// The demo a key switches to: the digits to demos 0 to 9, `-` and `=` to
/// demos 10 and 11, and V to the mixed UI and world demo.
pub open spec fn demo_for_key_spec(key: KeyCode) -> Option<DemoId> {
    match key {
        KeyCode::Digit(n) => if n == 0 {
            Some(DemoId::Empty)
        } else if n == 1 {
            Some(DemoId::Objects)
        } else if n == 2 {
            Some(DemoId::Spheres)
        } else if n == 3 {
            Some(DemoId::Towers)
        } else if n == 4 {
            Some(DemoId::Text2D)
        } else if n == 5 {
            Some(DemoId::Clay)
        } else if n == 6 {
            Some(DemoId::TextShadow)
        } else if n == 7 {
            Some(DemoId::TodoMvc)
        } else if n == 8 {
            Some(DemoId::TodoMvc3D)
        } else if n == 9 {
            Some(DemoId::RetainedUi)
        } else {
            None
        },
        KeyCode::Minus => Some(DemoId::RetainedUiPhysical),
        KeyCode::Equal => Some(DemoId::TextPhysical),
        KeyCode::Letter(l) => if l == 21 {
            Some(DemoId::MixedUiWorld)
        } else {
            None
        },
        _ => None,
    }
}

/// The demo a pressed key switches to, if it is a demo key.
pub fn demo_for_key(key: KeyCode) -> (r: Option<DemoId>)
    ensures
        r == demo_for_key_spec(key),
{
    match key {
        KeyCode::Digit(n) => if n <= 9 {
            DemoId::from_u8(n)
        } else {
            None
        },
        KeyCode::Minus => Some(DemoId::RetainedUiPhysical),
        KeyCode::Equal => Some(DemoId::TextPhysical),
        KeyCode::Letter(l) => if l == 21 {
            Some(DemoId::MixedUiWorld)
        } else {
            None
        },
        _ => None,
    }
}

/// A digit key selects the demo of its number.
pub proof fn lemma_digit_selects_its_demo(n: u8)
    requires
        n <= 9,
    ensures
        demo_for_key_spec(KeyCode::Digit(n)) matches Some(d) && demo_number(d) == n,
{
}

/// What a simulated key press does.
#[derive(Clone, Copy, Debug, PartialEq, Eq, Structural)]
pub enum PressKeyPlan {
    ToggleKeybindings,
    ToggleOverlayApp,
    ToggleOverlayFull,
    ResetRoll,
    ResetCamera,
    /// Hand the key to the current demo.
    DemoKey(KeyCode),
    /// The key is not known.
    Ignore,
}

pub open spec fn press_key_plan_spec(key: Seq<char>) -> PressKeyPlan {
    if key == "k"@ || key == "K"@ {
        PressKeyPlan::ToggleKeybindings
    } else if key == "f"@ || key == "F"@ {
        PressKeyPlan::ToggleOverlayApp
    } else if key == "g"@ || key == "G"@ {
        PressKeyPlan::ToggleOverlayFull
    } else if key == "r"@ || key == "R"@ {
        PressKeyPlan::ResetRoll
    } else if key == "t"@ || key == "T"@ {
        PressKeyPlan::ResetCamera
    } else {
        match parse_keycode(key) {
            Some(code) => PressKeyPlan::DemoKey(code),
            None => PressKeyPlan::Ignore,
        }
    }
}

/// The runner's keys K, F, G, R and T act on the runner; other keys go to the
/// demo when they can be read.
pub fn press_key_plan(key: &str) -> (r: PressKeyPlan)
    ensures
        r == press_key_plan_spec(key@),
{
    if str_eq(key, "k") || str_eq(key, "K") {
        PressKeyPlan::ToggleKeybindings
    } else if str_eq(key, "f") || str_eq(key, "F") {
        PressKeyPlan::ToggleOverlayApp
    } else if str_eq(key, "g") || str_eq(key, "G") {
        PressKeyPlan::ToggleOverlayFull
    } else if str_eq(key, "r") || str_eq(key, "R") {
        PressKeyPlan::ResetRoll
    } else if str_eq(key, "t") || str_eq(key, "T") {
        PressKeyPlan::ResetCamera
    } else {
        match parse_control_keycode(key) {
            Some(code) => PressKeyPlan::DemoKey(code),
            None => PressKeyPlan::Ignore,
        }
    }
}

pub open spec fn overlay_named(name: Seq<char>) -> Option<OverlayMode> {
    if name == "off"@ {
        Some(OverlayMode::Off)
    } else if name == "app"@ {
        Some(OverlayMode::App)
    } else if name == "full"@ {
        Some(OverlayMode::Full)
    } else {
        None
    }
}

/// The overlay mode named `name`; other names leave the overlay as it is.
pub fn overlay_mode_for_name(name: &str) -> (r: Option<OverlayMode>)
    ensures
        r == overlay_named(name@),
{
    if str_eq(name, "off") {
        Some(OverlayMode::Off)
    } else if str_eq(name, "app") {
        Some(OverlayMode::App)
    } else if str_eq(name, "full") {
        Some(OverlayMode::Full)
    } else {
        None
    }
}

/// A name asks for the overlay mode whose name it is, and for no other:
/// "off", "app" and "full" name the three modes.
pub proof fn lemma_overlay_names_round_trip(mode: OverlayMode, name: Seq<char>)
    ensures
        overlay_named(overlay_mode_name(mode)) == Some(mode),
        overlay_named(name) == Some(mode) ==> name == overlay_mode_name(mode),
{
    reveal_strlit("off");
    reveal_strlit("app");
    reveal_strlit("full");
    assert("app"@[0] != "off"@[0]);
    assert("full"@.len() != "off"@.len());
    assert("full"@.len() != "app"@.len());
}

pub open spec fn ascii_lower(c: char) -> char {
    if 'A' <= c <= 'Z' {
        ((c as u32) + 32) as char
    } else {
        c
    }
}

pub open spec fn ascii_lowercase(s: Seq<char>) -> Seq<char> {
    s.map_values(|c: char| ascii_lower(c))
}

/// Whether `s` in ASCII lower case is `lower`.
fn lowercase_equals(s: &str, lower: &str) -> (r: bool)
    ensures
        r == (ascii_lowercase(s@) == lower@),
{
    let n = s.unicode_len();
    if n != lower.unicode_len() {
        assert(ascii_lowercase(s@).len() != lower@.len());
        return false;
    }
    let mut i: usize = 0;
    while i < n
        invariant
            n == s@.len(),
            n == lower@.len(),
            0 <= i <= n,
            forall|j: int| 0 <= j < i ==> ascii_lower(s@[j]) == lower@[j],
        decreases n - i,
    {
        let c = s.get_char(i);
        let l = lower.get_char(i);
        let same = if 'A' <= c && c <= 'Z' {
            (c as u32) + 32 == l as u32
        } else {
            c == l
        };
        if !same {
            assert(ascii_lowercase(s@)[i as int] != lower@[i as int]);
            return false;
        }
        i += 1;
    }
    assert(ascii_lowercase(s@) =~= lower@);
    true
}

/// The list filter named `name` in any ASCII letter case.
pub fn parse_list_filter(name: &str) -> (r: Option<ListFilter>)
    ensures
        r matches Some(f) ==> list_filter_name(f) == ascii_lowercase(name@),
        r is None ==> ascii_lowercase(name@) != "all"@ && ascii_lowercase(name@) != "active"@
            && ascii_lowercase(name@) != "completed"@,
{
    if lowercase_equals(name, "all") {
        Some(ListFilter::All)
    } else if lowercase_equals(name, "active") {
        Some(ListFilter::Active)
    } else if lowercase_equals(name, "completed") {
        Some(ListFilter::Completed)
    } else {
        None
    }
}

/// Applies a list-item command to the TodoMVC page: toggle, then set the
/// completion, then the label, each only when asked. Returns whether any
/// step changed the item.
pub fn apply_list_item_command(
    target: &mut TodoMvcRetainedState,
    index: usize,
    completed: Option<bool>,
    label: Option<&str>,
    toggle: bool,
) -> (changed: bool)
    requires
        old(target).spec_retained().wf(),
    ensures
        final(target).spec_retained().wf(),
        index >= 4 ==> !changed && *final(target) == *old(target),
        index < 4 ==> {
            let item = old(target).spec_retained().spec_items()[index as int];
            let after_toggle = if toggle {
                !item.completed
            } else {
                item.completed
            };
            let final_item = final(target).spec_retained().spec_items()[index as int];
            &&& changed == (toggle || (completed matches Some(c) && c != after_toggle) || (label matches Some(l)
                && l@ != item.label_text@))
            &&& final_item.completed == match completed {
                Some(c) => c,
                None => after_toggle,
            }
            &&& final_item.label_text@ == match label {
                Some(l) => l@,
                None => item.label_text@,
            }
        },
{
    let ghost s0 = *target;
    let mut changed = false;
    if toggle {
        changed = target.toggle_item(index) || changed;
    }
    let ghost s1 = *target;
    if let Some(c) = completed {
        let step = target.set_item_completed(index, c);
        changed = step || changed;
    }
    let ghost s2 = *target;
    if let Some(l) = label {
        let step = target.set_item_label(index, l);
        changed = step || changed;
    }
    proof {
        if index < 4 {
            assert(s1.spec_retained().spec_items()[index as int].label_text
                == s0.spec_retained().spec_items()[index as int].label_text);
            assert(s2.spec_retained().spec_items()[index as int].label_text
                == s1.spec_retained().spec_items()[index as int].label_text);
            assert(target.spec_retained().spec_items()[index as int].completed
                == s2.spec_retained().spec_items()[index as int].completed);
        }
    }
    changed
}

/// Why a control command was refused.
#[derive(Clone, Copy, Debug, PartialEq, Eq, Structural)]
pub enum ControlErrorCode {
    InvalidDemoId,
    InvalidCommand,
    InvalidTheme,
}

/// What the current demo offers to control commands.
pub struct DemoCapabilities {
    pub list_commands: bool,
    pub named_scroll: bool,
    pub theme_options: Vec<String>,
    pub shader_name: Option<String>,
    pub hot_reload: bool,
}

/// The control commands that the runner decides on.
pub enum ControlCommand {
    SwitchDemo { id: u8 },
    Screenshot { center_crop: Option<(u32, u32)> },
    GetStatus,
    ToggleOverlay { mode: String },
    PressKey { key: String },
    ReloadShaders,
    SetTheme { theme: String, dark_mode: Option<bool> },
    SetListItem { index: u32, completed: Option<bool>, label: Option<String>, toggle: bool },
    SetListFilter { filter: String },
    Ping,
}

/// What the runner does for a control command.
pub enum ControlPlan {
    SwitchDemo(DemoId),
    Screenshot(Option<(u32, u32)>),
    Status,
    /// Set the overlay mode, or leave it when `None`; then report success.
    SetOverlay(Option<OverlayMode>),
    PressKey(PressKeyPlan),
    ReloadShader(String),
    /// Report success with this message and do nothing else.
    Message(String),
    SetTheme(String, Option<bool>),
    SetListItem { index: usize, completed: Option<bool>, label: Option<String>, toggle: bool },
    SetListFilter(ListFilter),
    Pong,
    Refuse(ControlErrorCode, String),
}

pub open spec fn opt_str(o: Option<String>) -> Option<Seq<char>> {
    match o {
        Some(s) => Some(s@),
        None => None,
    }
}

/// The runner's decision for `command` given the current demo's
/// capabilities.
pub open spec fn control_plan_matches(command: ControlCommand, caps: DemoCapabilities, plan: ControlPlan) -> bool {
    match command {
        ControlCommand::SwitchDemo { id } => if id <= 12 {
            plan matches ControlPlan::SwitchDemo(d) && demo_number(d) == id
        } else {
            plan matches ControlPlan::Refuse(code, m) && code == ControlErrorCode::InvalidDemoId && m@ == "Invalid demo ID: "@
                + decimal(id as nat)
        },
        ControlCommand::Screenshot { center_crop } => plan matches ControlPlan::Screenshot(c) && c == center_crop,
        ControlCommand::GetStatus => plan is Status,
        ControlCommand::ToggleOverlay { mode } => plan matches ControlPlan::SetOverlay(m) && m == overlay_named(mode@),
        ControlCommand::PressKey { key } => plan matches ControlPlan::PressKey(p) && p == press_key_plan_spec(key@),
        ControlCommand::ReloadShaders => if !caps.hot_reload {
            plan matches ControlPlan::Message(m) && m@ == "Shader reload requires hot-reload feature"@
        } else {
            match caps.shader_name {
                Some(name) => plan matches ControlPlan::ReloadShader(s) && s@ == name@,
                None => plan matches ControlPlan::Message(m) && m@ == "Current demo does not use a named shader"@,
            }
        },
        ControlCommand::SetTheme { theme, dark_mode } => if caps.theme_options@.len() == 0 {
            plan matches ControlPlan::Refuse(code, m) && code == ControlErrorCode::InvalidCommand && m@
                == "Current demo does not support named themes"@
        } else {
            plan matches ControlPlan::SetTheme(t, d) && t@ == theme@ && d == dark_mode
        },
        ControlCommand::SetListItem { index, completed, label, toggle } => if !caps.list_commands {
            plan matches ControlPlan::Refuse(code, m) && code == ControlErrorCode::InvalidCommand && m@
                == "Current demo does not support list item commands"@
        } else {
            plan matches ControlPlan::SetListItem { index: i, completed: c, label: l, toggle: t } && i == index && c
                == completed && opt_str(l) == opt_str(label) && t == toggle
        },
        ControlCommand::SetListFilter { filter } => if !caps.list_commands {
            plan matches ControlPlan::Refuse(code, m) && code == ControlErrorCode::InvalidCommand && m@
                == "Current demo does not support list filter commands"@
        } else if ascii_lowercase(filter@) == "all"@ || ascii_lowercase(filter@) == "active"@ || ascii_lowercase(
            filter@,
        ) == "completed"@ {
            plan matches ControlPlan::SetListFilter(f) && list_filter_name(f) == ascii_lowercase(filter@)
        } else {
            plan matches ControlPlan::Refuse(code, m) && code == ControlErrorCode::InvalidCommand && m@
                == "Invalid list filter: "@ + filter@ + ". Valid: all, active, completed"@
        },
        ControlCommand::Ping => plan is Pong,
    }
}

/// Decides what the runner does for a control command: which demo to switch
/// to, what to change, or why the command is refused.
pub fn plan_control_command(command: ControlCommand, caps: &DemoCapabilities) -> (r: ControlPlan)
    ensures
        control_plan_matches(command, *caps, r),
{
    match command {
        ControlCommand::SwitchDemo { id } => match DemoId::from_u8(id) {
            Some(d) => ControlPlan::SwitchDemo(d),
            None => {
                let number = decimal_string(id as usize);
                ControlPlan::Refuse(ControlErrorCode::InvalidDemoId, concat_str("Invalid demo ID: ", number.as_str()))
            },
        },
        ControlCommand::Screenshot { center_crop } => ControlPlan::Screenshot(center_crop),
        ControlCommand::GetStatus => ControlPlan::Status,
        ControlCommand::ToggleOverlay { mode } => ControlPlan::SetOverlay(overlay_mode_for_name(mode.as_str())),
        ControlCommand::PressKey { key } => ControlPlan::PressKey(press_key_plan(key.as_str())),
        ControlCommand::ReloadShaders => {
            if !caps.hot_reload {
                ControlPlan::Message(String::from_str("Shader reload requires hot-reload feature"))
            } else {
                match &caps.shader_name {
                    Some(name) => ControlPlan::ReloadShader(name.clone()),
                    None => ControlPlan::Message(String::from_str("Current demo does not use a named shader")),
                }
            }
        },
        ControlCommand::SetTheme { theme, dark_mode } => {
            if caps.theme_options.len() == 0 {
                ControlPlan::Refuse(
                    ControlErrorCode::InvalidCommand,
                    String::from_str("Current demo does not support named themes"),
                )
            } else {
                ControlPlan::SetTheme(theme, dark_mode)
            }
        },
        ControlCommand::SetListItem { index, completed, label, toggle } => {
            if !caps.list_commands {
                ControlPlan::Refuse(
                    ControlErrorCode::InvalidCommand,
                    String::from_str("Current demo does not support list item commands"),
                )
            } else {
                ControlPlan::SetListItem { index: index as usize, completed, label, toggle }
            }
        },
        ControlCommand::SetListFilter { filter } => {
            if !caps.list_commands {
                ControlPlan::Refuse(
                    ControlErrorCode::InvalidCommand,
                    String::from_str("Current demo does not support list filter commands"),
                )
            } else {
                match parse_list_filter(filter.as_str()) {
                    Some(f) => ControlPlan::SetListFilter(f),
                    None => {
                        let mut message = concat_str("Invalid list filter: ", filter.as_str());
                        message.append(". Valid: all, active, completed");
                        ControlPlan::Refuse(ControlErrorCode::InvalidCommand, message)
                    },
                }
            }
        },
        ControlCommand::Ping => ControlPlan::Pong,
    }
}

/// The message refusing an unknown theme: the theme, then the valid names
/// joined by commas.
pub fn invalid_theme_message(theme: &str, options: &Vec<String>) -> (r: String)
    ensures
        r@ == "Invalid theme: "@ + theme@ + ". Valid: "@ + joined(options@.map_values(|s: String| s@), ", "@),
{
    let mut message = concat_str("Invalid theme: ", theme);
    message.append(". Valid: ");
    let mut i: usize = 0;
    let ghost prefix = message@;
    while i < options.len()
        invariant
            0 <= i <= options@.len(),
            message@ == prefix + joined(options@.take(i as int).map_values(|s: String| s@), ", "@),
        decreases options@.len() - i,
    {
        let ghost before = message@;
        if i > 0 {
            message.append(", ");
        }
        message.append(options[i].as_str());
        proof {
            let parts = options@.take(i as int + 1).map_values(|s: String| s@);
            let earlier = options@.take(i as int).map_values(|s: String| s@);
            assert(parts.drop_last() =~= earlier);
            assert(parts.last() == options@[i as int]@);
            if i == 0 {
                assert(earlier.len() == 0);
                assert(joined(earlier, ", "@) == Seq::<char>::empty());
                assert(joined(parts, ", "@) == options@[0]@);
                assert(message@ =~= prefix + joined(parts, ", "@));
            } else {
                assert(joined(parts, ", "@) == joined(earlier, ", "@) + ", "@ + options@[i as int]@);
                assert(message@ =~= prefix + joined(parts, ", "@));
            }
        }
        i += 1;
    }
    proof {
        assert(options@.take(options@.len() as int) =~= options@);
    }
    message
}

/// The strings of `parts` separated by `sep`.
pub open spec fn joined(parts: Seq<Seq<char>>, sep: Seq<char>) -> Seq<char>
    decreases parts.len(),
{
    if parts.len() == 0 {
        Seq::empty()
    } else if parts.len() == 1 {
        parts[0]
    } else {
        joined(parts.drop_last(), sep) + sep + parts.last()
    }
}

} // verus!
