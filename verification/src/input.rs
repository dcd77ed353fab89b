//! Keyboard controls shared by the windowed demos: which key asks for which
//! special action, the statistics overlay modes, and the window title.
use crate::text_util::{decimal, decimal_string};
use vstd::prelude::*;

verus! {

/// Which statistics the overlay shows.
#[derive(Clone, Copy, Debug, PartialEq, Eq, Structural)]
pub enum OverlayMode {
    Off,
    /// The application's own figures.
    App,
    /// The application's and the system's figures.
    Full,
}

/// Actions a key asks of the application itself.
#[derive(Clone, Copy, Debug, PartialEq, Eq, Structural)]
pub enum InputAction {
    Exit,
    ToggleCapture,
    ToggleOverlayApp,
    ToggleOverlayFull,
    ResetRoll,
    ResetCamera,
}

/// The keys that carry a special action; every other key is `Other`.
#[derive(Clone, Copy, Debug, PartialEq, Eq, Structural)]
pub enum ControlKey {
    Escape,
    Tab,
    KeyF,
    KeyG,
    KeyR,
    KeyT,
    Home,
    Other,
}

/// The action a key press asks for; Escape releases a captured mouse before
/// it exits.
pub open spec fn key_action(key: ControlKey, mouse_captured: bool) -> Option<InputAction> {
    match key {
        ControlKey::Escape => if mouse_captured {
            Some(InputAction::ToggleCapture)
        } else {
            Some(InputAction::Exit)
        },
        ControlKey::Tab => Some(InputAction::ToggleCapture),
        ControlKey::KeyF => Some(InputAction::ToggleOverlayApp),
        ControlKey::KeyG => Some(InputAction::ToggleOverlayFull),
        ControlKey::KeyR => Some(InputAction::ResetRoll),
        ControlKey::KeyT | ControlKey::Home => Some(InputAction::ResetCamera),
        ControlKey::Other => None,
    }
}

/// The action a press of `key` asks for.
pub fn action_for_key(key: ControlKey, mouse_captured: bool) -> (r: Option<InputAction>)
    ensures
        r == key_action(key, mouse_captured),
{
    match key {
        ControlKey::Escape => if mouse_captured {
            Some(InputAction::ToggleCapture)
        } else {
            Some(InputAction::Exit)
        },
        ControlKey::Tab => Some(InputAction::ToggleCapture),
        ControlKey::KeyF => Some(InputAction::ToggleOverlayApp),
        ControlKey::KeyG => Some(InputAction::ToggleOverlayFull),
        ControlKey::KeyR => Some(InputAction::ResetRoll),
        ControlKey::KeyT | ControlKey::Home => Some(InputAction::ResetCamera),
        ControlKey::Other => None,
    }
}

/// F and G reach the two overlays: whatever the mouse, F asks to toggle the
/// application figures and G to toggle all figures, so from an overlay that
/// is off, F shows the application figures and G shows all of them.
pub proof fn lemma_overlay_keys(mouse_captured: bool, mode: OverlayMode)
    ensures
        key_action(ControlKey::KeyF, mouse_captured) == Some(InputAction::ToggleOverlayApp),
        key_action(ControlKey::KeyG, mouse_captured) == Some(InputAction::ToggleOverlayFull),
        key_action(ControlKey::KeyF, mouse_captured) != key_action(ControlKey::KeyG, mouse_captured),
        toggled_app(OverlayMode::Off) == OverlayMode::App,
        toggled_full(OverlayMode::Off) == OverlayMode::Full,
        toggled_full(mode) == OverlayMode::Off <==> mode == OverlayMode::Full,
        toggled_app(mode) == OverlayMode::Off <==> mode == OverlayMode::App,
{
}

/// Every key but Escape asks for the same action whether or not the mouse
/// is captured; Escape releases a captured mouse and otherwise exits. Tab
/// toggles the capture, R resets the roll, T and Home reset the camera, and
/// any other key asks for nothing.
pub proof fn lemma_control_keys(key: ControlKey)
    ensures
        key != ControlKey::Escape ==> key_action(key, true) == key_action(key, false),
        key_action(ControlKey::Escape, true) == Some(InputAction::ToggleCapture),
        key_action(ControlKey::Escape, false) == Some(InputAction::Exit),
        key_action(ControlKey::Tab, false) == Some(InputAction::ToggleCapture),
        key_action(ControlKey::KeyR, false) == Some(InputAction::ResetRoll),
        key_action(ControlKey::KeyT, false) == Some(InputAction::ResetCamera),
        key_action(ControlKey::Home, false) == Some(InputAction::ResetCamera),
        key_action(ControlKey::Other, false) is None,
{
}

pub open spec fn toggled_app(mode: OverlayMode) -> OverlayMode {
    if mode == OverlayMode::App {
        OverlayMode::Off
    } else {
        OverlayMode::App
    }
}

pub open spec fn toggled_full(mode: OverlayMode) -> OverlayMode {
    if mode == OverlayMode::Full {
        OverlayMode::Off
    } else {
        OverlayMode::Full
    }
}

impl OverlayMode {
    /// The F key: the application figures on, or off when they are shown.
    pub fn toggle_overlay_app(self) -> (r: OverlayMode)
        ensures
            r == toggled_app(self),
    {
        match self {
            OverlayMode::App => OverlayMode::Off,
            _ => OverlayMode::App,
        }
    }

    /// The G key: all figures on, or off when they are shown.
    pub fn toggle_overlay_full(self) -> (r: OverlayMode)
        ensures
            r == toggled_full(self),
    {
        match self {
            OverlayMode::Full => OverlayMode::Off,
            _ => OverlayMode::Full,
        }
    }

    /// The mode's name in control responses.
    pub fn name(self) -> (r: &'static str)
        ensures
            r@ == overlay_mode_name(self),
    {
        match self {
            OverlayMode::Off => "off",
            OverlayMode::App => "app",
            OverlayMode::Full => "full",
        }
    }
}

pub open spec fn overlay_mode_name(mode: OverlayMode) -> Seq<char> {
    match mode {
        OverlayMode::Off => "off"@,
        OverlayMode::App => "app"@,
        OverlayMode::Full => "full"@,
    }
}

/// Pressing the same overlay key twice from a mode it shows leaves the
/// overlay off; from off, twice gives off again.
pub proof fn lemma_overlay_toggle_twice(mode: OverlayMode)
    ensures
        toggled_app(toggled_app(mode)) == (if mode == OverlayMode::App {
            OverlayMode::App
        } else {
            OverlayMode::Off
        }),
        toggled_full(toggled_full(mode)) == (if mode == OverlayMode::Full {
            OverlayMode::Full
        } else {
            OverlayMode::Off
        }),
        toggled_app(mode) != mode,
        toggled_full(mode) != mode,
{
}

/// The controls every windowed demo lists in its title.
pub open spec fn controls_hint() -> Seq<char> {
    "WASD+Space/Ctrl, Q/E, Mouse, Tab, Scroll, R/T, F/G, Esc"@
}

/// "Demo <number>: <name> | <controls>".
pub open spec fn demo_title_text(demo_num: u8, name: Seq<char>) -> Seq<char> {
    "Demo "@ + decimal(demo_num as nat) + ": "@ + name + " | "@ + controls_hint()
}

/// The standard window title of a demo.
pub fn demo_title(demo_num: u8, name: &str) -> (r: String)
    ensures
        r@ == demo_title_text(demo_num, name@),
{
    let mut title = String::from_str("Demo ");
    let number = decimal_string(demo_num as usize);
    title.append(number.as_str());
    title.append(": ");
    title.append(name);
    title.append(" | ");
    title.append("WASD+Space/Ctrl, Q/E, Mouse, Tab, Scroll, R/T, F/G, Esc");
    title
}

} // verus!
