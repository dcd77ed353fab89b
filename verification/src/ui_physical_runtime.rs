//! Physically lit UI runtime: resource updates, buffer capacities, text
//! recoloring, and a deck of scenes of which one is shown at a time.
use crate::retained::RetainedScene;
use crate::ui2d_runtime::{split_scene_update, text_update_of, ui_update_of, FixedUi2dSceneUpdate, is_full_update, update_is_full, DeckCall, RuntimeResourceUpdate, Ui2dRuntimeUpdate};
use crate::ui_physical_theme::{theme_text_colors, Rgb8, TextColors, UiPhysicalThemeState};
use vstd::prelude::*;

verus! {

pub type UiPhysicalRuntimeTextUpdate<F, P> = RuntimeResourceUpdate<F, P>;

pub type UiPhysicalRuntimeUiUpdate<F, P> = RuntimeResourceUpdate<F, P>;

/// The text and UI-primitive updates a scene change calls for; `None` where a
/// resource is untouched.
pub struct UiPhysicalRuntimeUpdate<TF, TP, UF, UP> {
    pub text: Option<RuntimeResourceUpdate<TF, TP>>,
    pub ui: Option<RuntimeResourceUpdate<UF, UP>>,
}

impl<TF, TP, UF, UP> UiPhysicalRuntimeUpdate<TF, TP, UF, UP> {
    /// Whether the text or the UI primitives must be rebuilt from scratch.
    pub fn needs_full_rebuild(&self) -> (r: bool)
        ensures
            r == (is_full_update(self.text) || is_full_update(self.ui)),
    {
        update_is_full(&self.text) || update_is_full(&self.ui)
    }

    /// The same updates, for the physically lit renderer.
    pub fn from_ui2d(update: Ui2dRuntimeUpdate<TF, TP, UF, UP>) -> (r: Self)
        ensures
            r.text == update.text,
            r.ui == update.ui,
    {
        UiPhysicalRuntimeUpdate { text: update.text, ui: update.ui }
    }
}

impl<TF, TP, UF, UP> From<Ui2dRuntimeUpdate<TF, TP, UF, UP>> for UiPhysicalRuntimeUpdate<TF, TP, UF, UP> {
    fn from(update: Ui2dRuntimeUpdate<TF, TP, UF, UP>) -> (r: Self) {
        UiPhysicalRuntimeUpdate { text: update.text, ui: update.ui }
    }
}

impl<TF, TP, UF, UP> vstd::std_specs::convert::FromSpecImpl<Ui2dRuntimeUpdate<TF, TP, UF, UP>> for UiPhysicalRuntimeUpdate<TF, TP, UF, UP> {
    open spec fn obeys_from_spec() -> bool {
        true
    }

    open spec fn from_spec(update: Ui2dRuntimeUpdate<TF, TP, UF, UP>) -> Self {
        UiPhysicalRuntimeUpdate { text: update.text, ui: update.ui }
    }
}

impl<T, U, TP, P> From<FixedUi2dSceneUpdate<T, U, TP, P>> for UiPhysicalRuntimeUpdate<T, TP, U, Vec<P>> {
    fn from(update: FixedUi2dSceneUpdate<T, U, TP, P>) -> (r: Self) {
        let (text, ui) = split_scene_update(update);
        UiPhysicalRuntimeUpdate { text, ui }
    }
}

impl<T, U, TP, P> vstd::std_specs::convert::FromSpecImpl<FixedUi2dSceneUpdate<T, U, TP, P>> for UiPhysicalRuntimeUpdate<T, TP, U, Vec<P>> {
    open spec fn obeys_from_spec() -> bool {
        true
    }

    open spec fn from_spec(update: FixedUi2dSceneUpdate<T, U, TP, P>) -> Self {
        UiPhysicalRuntimeUpdate { text: text_update_of(update), ui: ui_update_of(update) }
    }
}

#[derive(Clone, Copy, Debug, PartialEq, Eq, Structural)]
pub enum UiPhysicalGeometryMode {
    GenericCard,
    StackedCard,
}

/// Buffer capacities of a physically lit scene host.
#[derive(Clone, Debug)]
pub struct UiPhysicalHostConfig {
    pub label: String,
    pub max_char_instances: usize,
    pub max_ui_primitives: usize,
    pub max_grid_indices: usize,
    pub grid_cell_capacity: usize,
}

/// How much a scene's GPU data occupies: glyph instances, grid index entries,
/// grid cells and UI primitives.
#[derive(Clone, Copy, Debug, PartialEq, Eq)]
pub struct UiPhysicalSceneCounts {
    pub char_instances: usize,
    pub grid_indices: usize,
    pub grid_cells: usize,
    pub ui_primitives: usize,
}

pub open spec fn max_usize(a: usize, b: usize) -> usize {
    if a >= b {
        a
    } else {
        b
    }
}

fn max_of(a: usize, b: usize) -> (r: usize)
    ensures
        r == max_usize(a, b),
{
    if a >= b {
        a
    } else {
        b
    }
}

/// Whether a scene of the given sizes fits buffers allocated with `config`.
pub fn fits_config(counts: &UiPhysicalSceneCounts, config: &UiPhysicalHostConfig) -> (r: bool)
    ensures
        r == (counts.char_instances <= config.max_char_instances && counts.grid_indices <= config.max_grid_indices
            && counts.ui_primitives <= config.max_ui_primitives),
{
    counts.char_instances <= config.max_char_instances && counts.grid_indices <= config.max_grid_indices
        && counts.ui_primitives <= config.max_ui_primitives
}

impl UiPhysicalHostConfig {
    /// The configuration grown, capacity by capacity, just enough to hold a
    /// scene of the given sizes.
    pub fn grown_to_fit(&self, counts: &UiPhysicalSceneCounts) -> (r: Self)
        ensures
            r.label@ == self.label@,
            r.max_char_instances == max_usize(self.max_char_instances, counts.char_instances),
            r.max_ui_primitives == max_usize(self.max_ui_primitives, counts.ui_primitives),
            r.max_grid_indices == max_usize(self.max_grid_indices, counts.grid_indices),
            r.grid_cell_capacity == max_usize(self.grid_cell_capacity, counts.grid_cells),
    {
        UiPhysicalHostConfig {
            label: self.label.clone(),
            max_char_instances: max_of(self.max_char_instances, counts.char_instances),
            max_ui_primitives: max_of(self.max_ui_primitives, counts.ui_primitives),
            max_grid_indices: max_of(self.max_grid_indices, counts.grid_indices),
            grid_cell_capacity: max_of(self.grid_cell_capacity, counts.grid_cells),
        }
    }
}

/// A grown configuration holds the scene it was grown for, and every scene
/// the configuration it was grown from held.
pub proof fn lemma_grown_config_fits(config: UiPhysicalHostConfig, counts: UiPhysicalSceneCounts, grown: UiPhysicalHostConfig, other: UiPhysicalSceneCounts)
    requires
        grown.max_char_instances == max_usize(config.max_char_instances, counts.char_instances),
        grown.max_ui_primitives == max_usize(config.max_ui_primitives, counts.ui_primitives),
        grown.max_grid_indices == max_usize(config.max_grid_indices, counts.grid_indices),
    ensures
        counts.char_instances <= grown.max_char_instances && counts.grid_indices <= grown.max_grid_indices
            && counts.ui_primitives <= grown.max_ui_primitives,
        (other.char_instances <= config.max_char_instances && other.grid_indices <= config.max_grid_indices
            && other.ui_primitives <= config.max_ui_primitives) ==> (other.char_instances <= grown.max_char_instances
            && other.grid_indices <= grown.max_grid_indices && other.ui_primitives <= grown.max_ui_primitives),
{
}

/// Role codes that glyph instances carry to pick their text color.
pub const TEXT_ROLE_CODE_ACTIVE: u8 = 0;
pub const TEXT_ROLE_CODE_COMPLETED: u8 = 1;
pub const TEXT_ROLE_CODE_HEADING: u8 = 2;
pub const TEXT_ROLE_CODE_PLACEHOLDER: u8 = 3;
pub const TEXT_ROLE_CODE_BODY: u8 = 4;
pub const TEXT_ROLE_CODE_INFO: u8 = 5;

/// The color of text with role code `code`; unknown codes read as active text.
pub open spec fn role_color(code: u8, colors: TextColors) -> Rgb8 {
    if code == TEXT_ROLE_CODE_HEADING {
        colors.heading
    } else if code == TEXT_ROLE_CODE_COMPLETED {
        colors.completed
    } else if code == TEXT_ROLE_CODE_PLACEHOLDER {
        colors.placeholder
    } else if code == TEXT_ROLE_CODE_BODY {
        colors.body
    } else if code == TEXT_ROLE_CODE_INFO {
        colors.info
    } else {
        colors.active
    }
}

pub fn text_color_for_role(code: u8, colors: &TextColors) -> (r: Rgb8)
    ensures
        r == role_color(code, *colors),
{
    if code == TEXT_ROLE_CODE_HEADING {
        colors.heading
    } else if code == TEXT_ROLE_CODE_COMPLETED {
        colors.completed
    } else if code == TEXT_ROLE_CODE_PLACEHOLDER {
        colors.placeholder
    } else if code == TEXT_ROLE_CODE_BODY {
        colors.body
    } else if code == TEXT_ROLE_CODE_INFO {
        colors.info
    } else {
        colors.active
    }
}

/// A glyph instance: its placement (opaque here), its color and the role
/// code the color follows.
#[derive(Clone, Copy, Debug, PartialEq)]
pub struct PhysicalCharInstance<P> {
    pub pos_and_char: P,
    pub color: Rgb8,
    pub role: u8,
}

/// The glyph instances with each color taken from `colors` by role code;
/// placement and role stay.
pub fn recolor_physical_char_instances<P: Copy>(
    char_instances: &Vec<PhysicalCharInstance<P>>,
    colors: &TextColors,
) -> (r: Vec<PhysicalCharInstance<P>>)
    ensures
        r@.len() == char_instances@.len(),
        forall|i: int|
            0 <= i < r@.len() ==> #[trigger] r@[i] == (PhysicalCharInstance {
                pos_and_char: char_instances@[i].pos_and_char,
                color: role_color(char_instances@[i].role, *colors),
                role: char_instances@[i].role,
            }),
{
    let mut out: Vec<PhysicalCharInstance<P>> = Vec::new();
    let mut i: usize = 0;
    while i < char_instances.len()
        invariant
            0 <= i <= char_instances@.len(),
            out@.len() == i,
            forall|j: int|
                0 <= j < i ==> #[trigger] out@[j] == (PhysicalCharInstance {
                    pos_and_char: char_instances@[j].pos_and_char,
                    color: role_color(char_instances@[j].role, *colors),
                    role: char_instances@[j].role,
                }),
        decreases char_instances@.len() - i,
    {
        let inst = char_instances[i];
        let color = text_color_for_role(inst.role, colors);
        out.push(PhysicalCharInstance { pos_and_char: inst.pos_and_char, color, role: inst.role });
        i += 1;
    }
    out
}

/// A retained scene that a physically lit host renders: it plans the GPU
/// updates its changes call for and follows the view and the viewport.
pub trait UiPhysicalSceneState {
    /// The text data, text patch, UI data and UI patch of an update.
    type TextData;
    type TextPatch;
    type UiData;
    type UiPatch;

    /// The state is well formed; every method but `scene_mut` keeps it so.
    spec fn scene_state_wf(&self) -> bool;

    /// The retained scene the state holds.
    spec fn spec_state_scene(&self) -> RetainedScene;

    /// Takes the changes recorded so far; `None` when they call for no GPU
    /// update.
    fn take_ui_physical_resource_update(&mut self) -> (r: Option<
        UiPhysicalRuntimeUpdate<Self::TextData, Self::TextPatch, Self::UiData, Self::UiPatch>,
    >)
        requires
            old(self).scene_state_wf(),
        ensures
            final(self).scene_state_wf(),
    ;

    /// Records that the view transform changed.
    fn mark_view_transform_dirty(&mut self)
        requires
            old(self).scene_state_wf(),
        ensures
            final(self).scene_state_wf(),
    ;

    /// Follows a new viewport size, in pixels.
    fn set_viewport_size(&mut self, width: u32, height: u32)
        requires
            old(self).scene_state_wf(),
        ensures
            final(self).scene_state_wf(),
    ;

    fn scene(&self) -> (r: &RetainedScene)
        ensures
            *r == self.spec_state_scene(),
    ;

    fn scene_mut(&mut self) -> (r: &mut RetainedScene)
        ensures
            *r == old(self).spec_state_scene(),
            final(self).spec_state_scene() == *final(r),
    ;
}

/// A scene that a `UiPhysicalSceneDeck` can show. `deck_calls` is the
/// history of the calls the host received, which each method extends by
/// its own call.
/// An implementation defines the spec functions below and meets the
/// methods' contracts over them; their defaults determine nothing, so an
/// implementation that keeps them cannot meet those contracts.
pub trait UiPhysicalDeckHost {
    closed spec fn spec_needs_redraw(&self) -> bool {
        arbitrary()
    }

    closed spec fn deck_calls(&self) -> Seq<DeckCall> {
        arbitrary()
    }

    fn needs_redraw(&self) -> (r: bool)
        ensures
            r == self.spec_needs_redraw(),
    ;

    fn prepare_frame(&mut self)
        ensures
            final(self).deck_calls() == old(self).deck_calls().push(DeckCall::PrepareFrame),
    ;

    fn resize(&mut self, width: u32, height: u32)
        ensures
            final(self).deck_calls() == old(self).deck_calls().push(DeckCall::Resize(width, height)),
    ;

    fn resize_lazy(&mut self, width: u32, height: u32)
        ensures
            final(self).deck_calls() == old(self).deck_calls().push(DeckCall::ResizeLazy(width, height)),
    ;

    fn ensure_ready(&mut self)
        ensures
            final(self).deck_calls() == old(self).deck_calls().push(DeckCall::EnsureReady),
    ;

    fn set_text_colors(&mut self, text_colors: TextColors)
        ensures
            final(self).deck_calls() == old(self).deck_calls().push(DeckCall::SetTextColors(text_colors)),
    ;
}

/// Several physically lit scenes, one of them active.
pub struct UiPhysicalSceneDeck<H> {
    scenes: Vec<H>,
    active_scene: usize,
}

impl<H: UiPhysicalDeckHost> UiPhysicalSceneDeck<H> {
    pub closed spec fn spec_scenes(&self) -> Seq<H> {
        self.scenes@
    }

    pub closed spec fn spec_active(&self) -> int {
        self.active_scene as int
    }

    /// At least one scene, and the active one exists.
    pub open spec fn wf(&self) -> bool {
        0 <= self.spec_active() < self.spec_scenes().len()
    }

    pub open spec fn active_spec_host(&self) -> H {
        self.spec_scenes()[self.spec_active()]
    }

    /// A deck showing the first of `scenes`, which must not be empty.
    pub fn new(scenes: Vec<H>) -> (r: Self)
        requires
            scenes@.len() > 0,
        ensures
            r.wf(),
            r.spec_scenes() == scenes@,
            r.spec_active() == 0,
    {
        UiPhysicalSceneDeck { scenes, active_scene: 0 }
    }

    pub fn len(&self) -> (r: usize)
        ensures
            r == self.spec_scenes().len(),
    {
        self.scenes.len()
    }

    pub fn active_index(&self) -> (r: usize)
        ensures
            r == self.spec_active(),
    {
        self.active_scene
    }

    pub fn active_host(&self) -> (r: &H)
        requires
            self.wf(),
        ensures
            *r == self.active_spec_host(),
    {
        &self.scenes[self.active_scene]
    }

    /// Scene `index` of the deck.
    pub fn host(&self, index: usize) -> (r: Option<&H>)
        ensures
            r == (if index < self.spec_scenes().len() {
                Some(&self.spec_scenes()[index as int])
            } else {
                None
            }),
    {
        if index < self.scenes.len() {
            Some(&self.scenes[index])
        } else {
            None
        }
    }

    /// Whether the active scene wants to be drawn again.
    pub fn needs_redraw(&self) -> (r: bool)
        requires
            self.wf(),
        ensures
            r == self.active_spec_host().spec_needs_redraw(),
    {
        self.scenes[self.active_scene].needs_redraw()
    }

    pub fn active_host_mut(&mut self) -> (r: &mut H)
        requires
            old(self).wf(),
        ensures
            *r == old(self).active_spec_host(),
            final(self).spec_active() == old(self).spec_active(),
            final(self).spec_scenes() == old(self).spec_scenes().update(old(self).spec_active(), *final(r)),
    {
        &mut self.scenes[self.active_scene]
    }

    /// Shows scene `index`, made ready first. Returns false, changing
    /// nothing, when `index` is out of range or already shown.
    pub fn set_active_scene(&mut self, index: usize) -> (changed: bool)
        requires
            old(self).wf(),
        ensures
            final(self).wf(),
            changed == (index < old(self).spec_scenes().len() && index != old(self).spec_active()),
            !changed ==> *final(self) == *old(self),
            changed ==> {
                &&& final(self).spec_active() == index
                &&& final(self).spec_scenes().len() == old(self).spec_scenes().len()
                &&& final(self).active_spec_host().deck_calls() == old(self).spec_scenes()[index as int].deck_calls().push(
                    DeckCall::EnsureReady,
                )
                &&& forall|j: int|
                    0 <= j < old(self).spec_scenes().len() && j != index ==> #[trigger] final(self).spec_scenes()[j]
                        == old(self).spec_scenes()[j]
            },
    {
        if index >= self.scenes.len() || index == self.active_scene {
            return false;
        }
        self.active_scene = index;
        self.ensure_active_scene_ready();
        true
    }

    /// Shows the next scene, wrapping around after the last.
    pub fn cycle_next(&mut self) -> (changed: bool)
        requires
            old(self).wf(),
        ensures
            final(self).wf(),
            changed == (old(self).spec_scenes().len() > 1),
            final(self).spec_active() == crate::ui2d_runtime::next_index(
                old(self).spec_active(),
                old(self).spec_scenes().len() as int,
            ),
            !changed ==> *final(self) == *old(self),
            changed ==> {
                let next = crate::ui2d_runtime::next_index(old(self).spec_active(), old(self).spec_scenes().len() as int);
                &&& final(self).spec_scenes().len() == old(self).spec_scenes().len()
                &&& final(self).active_spec_host().deck_calls() == old(self).spec_scenes()[next].deck_calls().push(
                    DeckCall::EnsureReady,
                )
                &&& forall|j: int|
                    0 <= j < old(self).spec_scenes().len() && j != next ==> #[trigger] final(self).spec_scenes()[j]
                        == old(self).spec_scenes()[j]
            },
    {
        let n = self.scenes.len();
        let next_scene = if self.active_scene + 1 == n {
            0
        } else {
            self.active_scene + 1
        };
        self.set_active_scene(next_scene)
    }

    /// Resizes the active scene at once and the others lazily.
    pub fn resize(&mut self, width: u32, height: u32)
        requires
            old(self).wf(),
        ensures
            final(self).wf(),
            final(self).spec_active() == old(self).spec_active(),
            final(self).spec_scenes().len() == old(self).spec_scenes().len(),
            forall|j: int|
                0 <= j < old(self).spec_scenes().len() ==> #[trigger] final(self).spec_scenes()[j].deck_calls()
                    == old(self).spec_scenes()[j].deck_calls().push(
                    crate::ui2d_runtime::resize_call(j, old(self).spec_active(), width, height),
                ),
    {
        let n = self.scenes.len();
        let mut index: usize = 0;
        while index < n
            invariant
                n == old(self).spec_scenes().len(),
                self.spec_scenes().len() == n,
                self.spec_active() == old(self).spec_active(),
                0 <= self.spec_active() < n,
                0 <= index <= n,
                forall|j: int|
                    0 <= j < index ==> #[trigger] self.spec_scenes()[j].deck_calls() == old(self).spec_scenes()[j].deck_calls().push(
                        crate::ui2d_runtime::resize_call(j, old(self).spec_active(), width, height),
                    ),
                forall|j: int| index <= j < n ==> #[trigger] self.spec_scenes()[j] == old(self).spec_scenes()[j],
            decreases n - index,
        {
            if index == self.active_scene {
                self.scenes[index].resize(width, height);
            } else {
                self.scenes[index].resize_lazy(width, height);
            }
            index += 1;
        }
    }

    pub fn ensure_active_scene_ready(&mut self)
        requires
            old(self).wf(),
        ensures
            final(self).wf(),
            final(self).spec_active() == old(self).spec_active(),
            final(self).spec_scenes().len() == old(self).spec_scenes().len(),
            final(self).active_spec_host().deck_calls() == old(self).active_spec_host().deck_calls().push(
                DeckCall::EnsureReady,
            ),
            forall|j: int|
                0 <= j < old(self).spec_scenes().len() && j != old(self).spec_active() ==> #[trigger] final(self).spec_scenes()[j]
                    == old(self).spec_scenes()[j],
    {
        let i = self.active_scene;
        self.scenes[i].ensure_ready();
    }

    /// Makes the active scene ready and lets it prepare its frame.
    pub fn prepare_frame(&mut self)
        requires
            old(self).wf(),
        ensures
            final(self).wf(),
            final(self).spec_active() == old(self).spec_active(),
            final(self).spec_scenes().len() == old(self).spec_scenes().len(),
            final(self).active_spec_host().deck_calls() == old(self).active_spec_host().deck_calls().push(
                DeckCall::EnsureReady,
            ).push(DeckCall::PrepareFrame),
            forall|j: int|
                0 <= j < old(self).spec_scenes().len() && j != old(self).spec_active() ==> #[trigger] final(self).spec_scenes()[j]
                    == old(self).spec_scenes()[j],
    {
        self.ensure_active_scene_ready();
        let i = self.active_scene;
        self.scenes[i].prepare_frame();
    }

    /// Gives every scene the text colors `text_colors`.
    pub fn set_text_colors(&mut self, text_colors: TextColors)
        requires
            old(self).wf(),
        ensures
            final(self).wf(),
            final(self).spec_active() == old(self).spec_active(),
            final(self).spec_scenes().len() == old(self).spec_scenes().len(),
            forall|j: int|
                0 <= j < old(self).spec_scenes().len() ==> #[trigger] final(self).spec_scenes()[j].deck_calls()
                    == old(self).spec_scenes()[j].deck_calls().push(DeckCall::SetTextColors(text_colors)),
    {
        let n = self.scenes.len();
        let mut index: usize = 0;
        while index < n
            invariant
                n == old(self).spec_scenes().len(),
                self.spec_scenes().len() == n,
                self.spec_active() == old(self).spec_active(),
                0 <= self.spec_active() < n,
                0 <= index <= n,
                forall|j: int|
                    0 <= j < index ==> #[trigger] self.spec_scenes()[j].deck_calls() == old(self).spec_scenes()[j].deck_calls().push(
                        DeckCall::SetTextColors(text_colors),
                    ),
                forall|j: int| index <= j < n ==> #[trigger] self.spec_scenes()[j] == old(self).spec_scenes()[j],
            decreases n - index,
        {
            self.scenes[index].set_text_colors(text_colors);
            index += 1;
        }
    }

    /// Gives every scene the theme's text colors when the theme's look
    /// changed; otherwise changes nothing.
    pub fn set_text_colors_if_dirty(&mut self, theme_state: &UiPhysicalThemeState)
        requires
            old(self).wf(),
            theme_state.wf(),
        ensures
            final(self).wf(),
            !theme_state.spec_dirty() ==> *final(self) == *old(self),
            theme_state.spec_dirty() ==> {
                let colors = theme_text_colors(theme_state.spec_theme(), theme_state.spec_dark_mode());
                &&& final(self).spec_active() == old(self).spec_active()
                &&& final(self).spec_scenes().len() == old(self).spec_scenes().len()
                &&& forall|j: int|
                    0 <= j < old(self).spec_scenes().len() ==> #[trigger] final(self).spec_scenes()[j].deck_calls()
                        == old(self).spec_scenes()[j].deck_calls().push(DeckCall::SetTextColors(colors))
            },
    {
        if theme_state.is_dirty() {
            self.set_text_colors(theme_state.text_colors());
        }
    }

    /// Passes on a changed theme's text colors, then prepares the frame.
    pub fn prepare_frame_with_theme(&mut self, theme_state: &UiPhysicalThemeState)
        requires
            old(self).wf(),
            theme_state.wf(),
        ensures
            final(self).wf(),
            final(self).spec_active() == old(self).spec_active(),
            final(self).spec_scenes().len() == old(self).spec_scenes().len(),
            forall|j: int|
                0 <= j < old(self).spec_scenes().len() ==> {
                    let colored = if theme_state.spec_dirty() {
                        old(self).spec_scenes()[j].deck_calls().push(
                            DeckCall::SetTextColors(
                                theme_text_colors(theme_state.spec_theme(), theme_state.spec_dark_mode()),
                            ),
                        )
                    } else {
                        old(self).spec_scenes()[j].deck_calls()
                    };
                    #[trigger] final(self).spec_scenes()[j].deck_calls() == if j == old(self).spec_active() {
                        colored.push(DeckCall::EnsureReady).push(DeckCall::PrepareFrame)
                    } else {
                        colored
                    }
                },
    {
        self.set_text_colors_if_dirty(theme_state);
        self.prepare_frame();
    }
}

} // verus!
