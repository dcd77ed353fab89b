//! Themes of the physically lit UI: which theme is selected, whether it is
//! shown dark, and the text colors each theme uses.
use crate::control::KeyCode;
use crate::text_util::str_eq;
use vstd::prelude::*;

verus! {

/// An 8-bit RGB color.
pub type Rgb8 = [u8; 3];

/// Text colors by semantic text role.
#[derive(Clone, Copy, Debug, PartialEq, Eq)]
pub struct TextColors {
    pub heading: Rgb8,
    pub active: Rgb8,
    pub completed: Rgb8,
    pub placeholder: Rgb8,
    pub body: Rgb8,
    pub info: Rgb8,
}

#[derive(Clone, Copy, Debug, PartialEq, Eq, Structural)]
pub enum ThemeId {
    Classic2D,
    Professional,
    Neobrutalism,
    Glassmorphism,
    Neumorphism,
}

/// The theme whose lower-case name is `name`.
pub open spec fn theme_named(name: Seq<char>) -> Option<ThemeId> {
    if name == "classic2d"@ {
        Some(ThemeId::Classic2D)
    } else if name == "professional"@ {
        Some(ThemeId::Professional)
    } else if name == "neobrutalism"@ {
        Some(ThemeId::Neobrutalism)
    } else if name == "glassmorphism"@ {
        Some(ThemeId::Glassmorphism)
    } else if name == "neumorphism"@ {
        Some(ThemeId::Neumorphism)
    } else {
        None
    }
}

pub open spec fn theme_display_name(theme: ThemeId) -> Seq<char> {
    match theme {
        ThemeId::Classic2D => "Classic2D"@,
        ThemeId::Professional => "Professional"@,
        ThemeId::Neobrutalism => "Neobrutalism"@,
        ThemeId::Glassmorphism => "Glassmorphism"@,
        ThemeId::Neumorphism => "Neumorphism"@,
    }
}

/// The theme after `theme` in the cycling order.
pub open spec fn next_theme(theme: ThemeId) -> ThemeId {
    match theme {
        ThemeId::Classic2D => ThemeId::Professional,
        ThemeId::Professional => ThemeId::Neobrutalism,
        ThemeId::Neobrutalism => ThemeId::Glassmorphism,
        ThemeId::Glassmorphism => ThemeId::Neumorphism,
        ThemeId::Neumorphism => ThemeId::Classic2D,
    }
}

/// Every theme but the classic flat one has a dark variant.
pub open spec fn supports_dark(theme: ThemeId) -> bool {
    theme != ThemeId::Classic2D
}

/// The dark-mode flag a theme can actually show.
pub open spec fn canonical_dark(theme: ThemeId, dark_mode: bool) -> bool {
    supports_dark(theme) && dark_mode
}

/// The lower-case form of a string, as `str::to_lowercase` computes it.
pub uninterp spec fn str_to_lowercase(s: Seq<char>) -> Seq<char>;

/// Calls `str::to_lowercase`; its result is named, not described.
#[verifier::external_body]
fn lowercase(s: &str) -> (r: String)
    ensures
        r@ == str_to_lowercase(s@),
{
    s.to_lowercase()
}

impl ThemeId {
    /// The theme named exactly `name` in lower case.
    pub fn from_lowercase_name(name: &str) -> (r: Option<ThemeId>)
        ensures
            r == theme_named(name@),
    {
        if str_eq(name, "classic2d") {
            Some(ThemeId::Classic2D)
        } else if str_eq(name, "professional") {
            Some(ThemeId::Professional)
        } else if str_eq(name, "neobrutalism") {
            Some(ThemeId::Neobrutalism)
        } else if str_eq(name, "glassmorphism") {
            Some(ThemeId::Glassmorphism)
        } else if str_eq(name, "neumorphism") {
            Some(ThemeId::Neumorphism)
        } else {
            None
        }
    }

    /// The theme named `s`, in any letter case.
    pub fn from_str(s: &str) -> (r: Option<ThemeId>)
        ensures
            r == theme_named(str_to_lowercase(s@)),
    {
        let lower = lowercase(s);
        ThemeId::from_lowercase_name(lower.as_str())
    }

    pub fn name(&self) -> (r: &'static str)
        ensures
            r@ == theme_display_name(*self),
    {
        match self {
            ThemeId::Classic2D => "Classic2D",
            ThemeId::Professional => "Professional",
            ThemeId::Neobrutalism => "Neobrutalism",
            ThemeId::Glassmorphism => "Glassmorphism",
            ThemeId::Neumorphism => "Neumorphism",
        }
    }

    fn supports_dark_mode(self) -> (r: bool)
        ensures
            r == supports_dark(self),
    {
        match self {
            ThemeId::Classic2D => false,
            _ => true,
        }
    }

    pub fn next(self) -> (r: ThemeId)
        ensures
            r == next_theme(self),
    {
        match self {
            ThemeId::Classic2D => ThemeId::Professional,
            ThemeId::Professional => ThemeId::Neobrutalism,
            ThemeId::Neobrutalism => ThemeId::Glassmorphism,
            ThemeId::Glassmorphism => ThemeId::Neumorphism,
            ThemeId::Neumorphism => ThemeId::Classic2D,
        }
    }
}

/// Cycling through the themes comes back to the start after five steps,
/// and no sooner.
pub proof fn lemma_theme_cycle(theme: ThemeId)
    ensures
        next_theme(next_theme(next_theme(next_theme(next_theme(theme))))) == theme,
        next_theme(theme) != theme,
        next_theme(next_theme(theme)) != theme,
        next_theme(next_theme(next_theme(theme))) != theme,
        next_theme(next_theme(next_theme(next_theme(theme)))) != theme,
{
}

/// The lower-case names of the themes, in cycling order.
pub fn physical_theme_options() -> (r: Vec<&'static str>)
    ensures
        r@.len() == 5,
        r@[0]@ == "classic2d"@,
        r@[1]@ == "professional"@,
        r@[2]@ == "neobrutalism"@,
        r@[3]@ == "glassmorphism"@,
        r@[4]@ == "neumorphism"@,
        theme_named(r@[0]@) == Some(ThemeId::Classic2D),
        forall|i: int| 0 <= i < 4 ==> theme_named((#[trigger] r@[i + 1])@) == Some(next_theme(theme_named(r@[i]@)->0)),
{
    proof {
        reveal_strlit("classic2d");
        reveal_strlit("professional");
        reveal_strlit("neobrutalism");
        reveal_strlit("glassmorphism");
        reveal_strlit("neumorphism");
    }
    let r = vec!["classic2d", "professional", "neobrutalism", "glassmorphism", "neumorphism"];
    assert("professional"@.len() == 12 && "neobrutalism"@.len() == 12 && "classic2d"@.len() == 9);
    assert("glassmorphism"@.len() == 13 && "neumorphism"@.len() == 11);
    assert("professional"@[0] != "neobrutalism"@[0]);
    assert("glassmorphism"@ != "neumorphism"@);
    assert(theme_named(r@[0]@) == Some(ThemeId::Classic2D));
    assert(theme_named(r@[1]@) == Some(ThemeId::Professional));
    assert(theme_named(r@[2]@) == Some(ThemeId::Neobrutalism));
    assert(theme_named(r@[3]@) == Some(ThemeId::Glassmorphism));
    assert(theme_named(r@[4]@) == Some(ThemeId::Neumorphism));
    r
}

/// The dark-mode flag `theme` can show: `dark_mode`, unless the theme has no
/// dark variant.
pub fn canonical_dark_mode(theme_id: ThemeId, dark_mode: bool) -> (r: bool)
    ensures
        r == canonical_dark(theme_id, dark_mode),
{
    if theme_id.supports_dark_mode() {
        dark_mode
    } else {
        false
    }
}

pub open spec fn text_colors_of(
    heading: Rgb8,
    active: Rgb8,
    completed: Rgb8,
    placeholder: Rgb8,
    body: Rgb8,
    info: Rgb8,
) -> TextColors {
    TextColors { heading, active, completed, placeholder, body, info }
}

/// Text colors of the classic light page.
pub open spec fn classic_colors() -> TextColors {
    text_colors_of([184, 63, 69], [72, 72, 72], [148, 148, 148], [153, 153, 153], [17, 17, 17], [77, 77, 77])
}

/// Text colors of a theme in the light or dark variant.
pub open spec fn theme_text_colors(theme: ThemeId, dark: bool) -> TextColors {
    match theme {
        ThemeId::Classic2D => classic_colors(),
        ThemeId::Professional | ThemeId::Neobrutalism => if dark {
            text_colors_of(
                [220, 100, 105],
                [210, 210, 215],
                [120, 120, 125],
                [130, 130, 135],
                [200, 200, 205],
                [140, 140, 145],
            )
        } else {
            classic_colors()
        },
        ThemeId::Glassmorphism => if dark {
            text_colors_of(
                [140, 165, 220],
                [200, 205, 215],
                [140, 145, 160],
                [145, 150, 165],
                [190, 195, 205],
                [160, 165, 180],
            )
        } else {
            text_colors_of([75, 100, 180], [40, 45, 60], [130, 135, 150], [130, 135, 155], [30, 35, 50], [100, 105, 120])
        },
        ThemeId::Neumorphism => if dark {
            text_colors_of(
                [200, 110, 115],
                [190, 190, 195],
                [100, 100, 105],
                [110, 110, 115],
                [180, 180, 185],
                [120, 120, 125],
            )
        } else {
            text_colors_of([140, 80, 85], [60, 60, 62], [140, 140, 142], [145, 145, 148], [40, 40, 42], [110, 110, 112])
        },
    }
}

fn colors(
    heading: Rgb8,
    active: Rgb8,
    completed: Rgb8,
    placeholder: Rgb8,
    body: Rgb8,
    info: Rgb8,
) -> (r: TextColors)
    ensures
        r == text_colors_of(heading, active, completed, placeholder, body, info),
{
    TextColors { heading, active, completed, placeholder, body, info }
}

/// Text colors of the classic light page.
fn classic_theme_colors() -> (r: TextColors)
    ensures
        r == classic_colors(),
{
    colors([184, 63, 69], [72, 72, 72], [148, 148, 148], [153, 153, 153], [17, 17, 17], [77, 77, 77])
}

/// The text colors `theme_id` uses, dark when asked and available.
pub fn text_colors(theme_id: ThemeId, dark_mode: bool) -> (r: TextColors)
    ensures
        r == theme_text_colors(theme_id, canonical_dark(theme_id, dark_mode)),
{
    let dark = canonical_dark_mode(theme_id, dark_mode);
    match theme_id {
        ThemeId::Classic2D => classic_theme_colors(),
        ThemeId::Professional | ThemeId::Neobrutalism => if dark {
            colors([220, 100, 105], [210, 210, 215], [120, 120, 125], [130, 130, 135], [200, 200, 205], [140, 140, 145])
        } else {
            classic_theme_colors()
        },
        ThemeId::Glassmorphism => if dark {
            colors([140, 165, 220], [200, 205, 215], [140, 145, 160], [145, 150, 165], [190, 195, 205], [160, 165, 180])
        } else {
            colors([75, 100, 180], [40, 45, 60], [130, 135, 150], [130, 135, 155], [30, 35, 50], [100, 105, 120])
        },
        ThemeId::Neumorphism => if dark {
            colors([200, 110, 115], [190, 190, 195], [100, 100, 105], [110, 110, 115], [180, 180, 185], [120, 120, 125])
        } else {
            colors([140, 80, 85], [60, 60, 62], [140, 140, 142], [145, 145, 148], [40, 40, 42], [110, 110, 112])
        },
    }
}

/// Every channel of `a` is brighter than the same channel of `b`.
pub open spec fn brighter(a: Rgb8, b: Rgb8) -> bool {
    a[0] > b[0] && a[1] > b[1] && a[2] > b[2]
}

/// Dark variants show light text: for every theme with a dark variant, the
/// heading, the active items and the body text are brighter in every channel
/// in the dark variant than in the light one, so the two palettes differ.
/// The classic flat theme has no dark variant and ignores the flag.
pub proof fn lemma_dark_text_is_lighter(theme: ThemeId)
    ensures
        supports_dark(theme) ==> {
            let dark = theme_text_colors(theme, canonical_dark(theme, true));
            let light = theme_text_colors(theme, canonical_dark(theme, false));
            &&& brighter(dark.heading, light.heading)
            &&& brighter(dark.active, light.active)
            &&& brighter(dark.body, light.body)
            &&& dark != light
        },
        !supports_dark(theme) ==> theme_text_colors(theme, canonical_dark(theme, true)) == theme_text_colors(
            theme,
            canonical_dark(theme, false),
        ),
{
}

/// The professional and neobrutalist themes share their text colors, and in
/// their light variant they use those of the classic page.
pub proof fn lemma_shared_palettes(dark: bool)
    ensures
        theme_text_colors(ThemeId::Professional, dark) == theme_text_colors(ThemeId::Neobrutalism, dark),
        theme_text_colors(ThemeId::Professional, false) == theme_text_colors(ThemeId::Classic2D, dark),
{
}

/// The selected theme, its dark-mode flag, and whether the look changed
/// since the renderer last picked it up.
pub struct UiPhysicalThemeState {
    current_theme: ThemeId,
    dark_mode: bool,
    theme_dirty: bool,
}

impl UiPhysicalThemeState {
    pub closed spec fn spec_theme(&self) -> ThemeId {
        self.current_theme
    }

    pub closed spec fn spec_dark_mode(&self) -> bool {
        self.dark_mode
    }

    pub closed spec fn spec_dirty(&self) -> bool {
        self.theme_dirty
    }

    /// The dark-mode flag is one the theme can show.
    pub open spec fn wf(&self) -> bool {
        self.spec_dark_mode() == canonical_dark(self.spec_theme(), self.spec_dark_mode())
    }

    pub fn new(current_theme: ThemeId, dark_mode: bool) -> (r: Self)
        ensures
            r.wf(),
            r.spec_theme() == current_theme,
            r.spec_dark_mode() == canonical_dark(current_theme, dark_mode),
            !r.spec_dirty(),
    {
        UiPhysicalThemeState {
            current_theme,
            dark_mode: canonical_dark_mode(current_theme, dark_mode),
            theme_dirty: false,
        }
    }

    pub fn current_theme(&self) -> (r: ThemeId)
        ensures
            r == self.spec_theme(),
    {
        self.current_theme
    }

    pub fn dark_mode(&self) -> (r: bool)
        ensures
            r == self.spec_dark_mode(),
    {
        self.dark_mode
    }

    pub fn text_colors(&self) -> (r: TextColors)
        requires
            self.wf(),
        ensures
            r == theme_text_colors(self.spec_theme(), self.spec_dark_mode()),
    {
        text_colors(self.current_theme, self.dark_mode)
    }

    pub fn is_dirty(&self) -> (r: bool)
        ensures
            r == self.spec_dirty(),
    {
        self.theme_dirty
    }

    pub fn clear_dirty(&mut self)
        ensures
            final(self).spec_theme() == old(self).spec_theme(),
            final(self).spec_dark_mode() == old(self).spec_dark_mode(),
            !final(self).spec_dirty(),
    {
        self.theme_dirty = false;
    }

    fn mark_visual_change(&mut self)
        ensures
            final(self).spec_theme() == old(self).spec_theme(),
            final(self).spec_dark_mode() == old(self).spec_dark_mode(),
            final(self).spec_dirty(),
    {
        self.theme_dirty = true;
    }

    /// Moves to the next theme, keeping dark mode where the theme has it.
    pub fn cycle_theme(&mut self)
        ensures
            final(self).wf(),
            final(self).spec_theme() == next_theme(old(self).spec_theme()),
            final(self).spec_dark_mode() == canonical_dark(next_theme(old(self).spec_theme()), old(self).spec_dark_mode()),
            final(self).spec_dirty(),
    {
        self.current_theme = self.current_theme.next();
        self.dark_mode = canonical_dark_mode(self.current_theme, self.dark_mode);
        self.mark_visual_change();
    }

    pub fn toggle_dark_mode(&mut self)
        ensures
            final(self).wf(),
            final(self).spec_theme() == old(self).spec_theme(),
            final(self).spec_dark_mode() == canonical_dark(old(self).spec_theme(), !old(self).spec_dark_mode()),
            final(self).spec_dirty(),
    {
        self.dark_mode = canonical_dark_mode(self.current_theme, !self.dark_mode);
        self.mark_visual_change();
    }

    /// Selects `theme_id`; the look changes only when the theme does.
    pub fn set_theme(&mut self, theme_id: ThemeId)
        ensures
            final(self).spec_theme() == theme_id,
            old(self).spec_theme() == theme_id ==> *final(self) == *old(self),
            old(self).spec_theme() != theme_id ==> {
                &&& final(self).spec_dark_mode() == canonical_dark(theme_id, old(self).spec_dark_mode())
                &&& final(self).spec_dirty()
            },
            old(self).wf() ==> final(self).wf(),
    {
        if self.current_theme != theme_id {
            self.current_theme = theme_id;
            self.dark_mode = canonical_dark_mode(self.current_theme, self.dark_mode);
            self.mark_visual_change();
        }
    }

    /// Asks for dark mode on or off; the look changes only when the flag the
    /// theme can show changes.
    pub fn set_dark_mode(&mut self, dark: bool)
        ensures
            final(self).spec_theme() == old(self).spec_theme(),
            final(self).spec_dark_mode() == canonical_dark(old(self).spec_theme(), dark),
            final(self).spec_dirty() == (old(self).spec_dirty() || old(self).spec_dark_mode() != canonical_dark(
                old(self).spec_theme(),
                dark,
            )),
            final(self).wf(),
    {
        let dark_mode = canonical_dark_mode(self.current_theme, dark);
        if self.dark_mode != dark_mode {
            self.dark_mode = dark_mode;
            self.mark_visual_change();
        }
    }

    /// The theme keys of the physically lit demos: N cycles the theme and M
    /// toggles dark mode. Returns whether the key was one of them; any other
    /// key changes nothing.
    pub fn handle_theme_key(&mut self, code: KeyCode) -> (used: bool)
        requires
            old(self).wf(),
        ensures
            final(self).wf(),
            used == (code == KeyCode::Letter(13) || code == KeyCode::Letter(12)),
            code == KeyCode::Letter(13) ==> final(self).spec_theme() == next_theme(old(self).spec_theme())
                && final(self).spec_dark_mode() == canonical_dark(next_theme(old(self).spec_theme()), old(self).spec_dark_mode())
                && final(self).spec_dirty(),
            code == KeyCode::Letter(12) ==> final(self).spec_theme() == old(self).spec_theme()
                && final(self).spec_dark_mode() == canonical_dark(old(self).spec_theme(), !old(self).spec_dark_mode())
                && final(self).spec_dirty(),
            !used ==> *final(self) == *old(self),
    {
        if code == KeyCode::Letter(13) {
            self.cycle_theme();
            true
        } else if code == KeyCode::Letter(12) {
            self.toggle_dark_mode();
            true
        } else {
            false
        }
    }

    /// Selects the theme named `theme` (any letter case) and, when given, the
    /// dark-mode flag; returns the theme's display name and the resulting
    /// flag, or `None` and no change when no theme has that name.
    pub fn set_named_theme(&mut self, theme: &str, dark_mode: Option<bool>) -> (r: Option<(&'static str, bool)>)
        requires
            old(self).wf(),
        ensures
            final(self).wf(),
            r is None <==> theme_named(str_to_lowercase(theme@)) is None,
            r is None ==> *final(self) == *old(self),
            theme_named(str_to_lowercase(theme@)) matches Some(t) ==> {
                let dark = match dark_mode {
                    Some(d) => canonical_dark(t, d),
                    None => canonical_dark(t, old(self).spec_dark_mode()),
                };
                &&& final(self).spec_theme() == t
                &&& final(self).spec_dark_mode() == dark
                &&& r matches Some(p) && p.0@ == theme_display_name(t) && p.1 == dark
                &&& final(self).spec_dirty() == (old(self).spec_dirty() || old(self).spec_theme() != t
                    || old(self).spec_dark_mode() != dark)
            },
    {
        let theme_id = match ThemeId::from_str(theme) {
            Some(t) => t,
            None => {
                return None;
            },
        };
        self.set_theme(theme_id);
        if let Some(dm) = dark_mode {
            self.set_dark_mode(dm);
        }
        Some((theme_id.name(), self.dark_mode))
    }
}

} // verus!
