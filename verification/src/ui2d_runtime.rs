//! Flat 2D UI runtime: the shape of a GPU resource update, and a deck of
//! scenes of which one is shown at a time.
use crate::retained::RetainedScene;
use crate::ui_physical_theme::TextColors;
use vstd::prelude::*;

verus! {

/// A GPU resource update: rebuild the resource from `F`, or patch it with `P`.
pub enum RuntimeResourceUpdate<F, P> {
    Full(F),
    Partial(P),
}

pub type Ui2dRuntimeTextUpdate<F, P> = RuntimeResourceUpdate<F, P>;

pub type Ui2dRuntimeUiUpdate<F, P> = RuntimeResourceUpdate<F, P>;

/// The text and UI-primitive updates a scene change calls for; `None` where a
/// resource is untouched.
pub struct Ui2dRuntimeUpdate<TF, TP, UF, UP> {
    pub text: Option<RuntimeResourceUpdate<TF, TP>>,
    pub ui: Option<RuntimeResourceUpdate<UF, UP>>,
}

/// `u` asks for a rebuild from scratch.
pub open spec fn is_full_update<F, P>(u: Option<RuntimeResourceUpdate<F, P>>) -> bool {
    u matches Some(RuntimeResourceUpdate::Full(_))
}

pub fn update_is_full<F, P>(u: &Option<RuntimeResourceUpdate<F, P>>) -> (r: bool)
    ensures
        r == is_full_update(*u),
{
    match u {
        Some(RuntimeResourceUpdate::Full(_)) => true,
        _ => false,
    }
}

impl<TF, TP, UF, UP> Ui2dRuntimeUpdate<TF, TP, UF, UP> {
    /// Whether the text or the UI primitives must be rebuilt from scratch.
    pub fn needs_full_rebuild(&self) -> (r: bool)
        ensures
            r == (is_full_update(self.text) || is_full_update(self.ui)),
    {
        update_is_full(&self.text) || update_is_full(&self.ui)
    }
}

/// What a fixed-layout scene hands its renderer after a change: the whole
/// scene again, or patches of its UI primitives and of its text.
pub enum FixedUi2dSceneUpdate<T, U, TP, P> {
    Full { text_data: T, ui_data: U },
    Partial { ui_patches: Vec<P>, text_patch: Option<TP> },
}

/// The text update of a scene update.
pub open spec fn text_update_of<T, U, TP, P>(u: FixedUi2dSceneUpdate<T, U, TP, P>) -> Option<RuntimeResourceUpdate<T, TP>> {
    match u {
        FixedUi2dSceneUpdate::Full { text_data, .. } => Some(RuntimeResourceUpdate::Full(text_data)),
        FixedUi2dSceneUpdate::Partial { text_patch, .. } => match text_patch {
            Some(p) => Some(RuntimeResourceUpdate::Partial(p)),
            None => None,
        },
    }
}

/// The UI-primitive update of a scene update; no patches is no update.
pub open spec fn ui_update_of<T, U, TP, P>(u: FixedUi2dSceneUpdate<T, U, TP, P>) -> Option<RuntimeResourceUpdate<U, Vec<P>>> {
    match u {
        FixedUi2dSceneUpdate::Full { ui_data, .. } => Some(RuntimeResourceUpdate::Full(ui_data)),
        FixedUi2dSceneUpdate::Partial { ui_patches, .. } => if ui_patches@.len() == 0 {
            None
        } else {
            Some(RuntimeResourceUpdate::Partial(ui_patches))
        },
    }
}

pub(crate) fn split_scene_update<T, U, TP, P>(update: FixedUi2dSceneUpdate<T, U, TP, P>) -> (r: (
    Option<RuntimeResourceUpdate<T, TP>>,
    Option<RuntimeResourceUpdate<U, Vec<P>>>,
))
    ensures
        r.0 == text_update_of(update),
        r.1 == ui_update_of(update),
{
    match update {
        FixedUi2dSceneUpdate::Full { text_data, ui_data } => (
            Some(RuntimeResourceUpdate::Full(text_data)),
            Some(RuntimeResourceUpdate::Full(ui_data)),
        ),
        FixedUi2dSceneUpdate::Partial { ui_patches, text_patch } => {
            let text = match text_patch {
                Some(p) => Some(RuntimeResourceUpdate::Partial(p)),
                None => None,
            };
            let ui = if ui_patches.len() == 0 {
                None
            } else {
                Some(RuntimeResourceUpdate::Partial(ui_patches))
            };
            (text, ui)
        },
    }
}

impl<T, U, TP, P> From<FixedUi2dSceneUpdate<T, U, TP, P>> for Ui2dRuntimeUpdate<T, TP, U, Vec<P>> {
    fn from(update: FixedUi2dSceneUpdate<T, U, TP, P>) -> (r: Self) {
        let (text, ui) = split_scene_update(update);
        Ui2dRuntimeUpdate { text, ui }
    }
}

impl<T, U, TP, P> vstd::std_specs::convert::FromSpecImpl<FixedUi2dSceneUpdate<T, U, TP, P>> for Ui2dRuntimeUpdate<T, TP, U, Vec<P>> {
    open spec fn obeys_from_spec() -> bool {
        true
    }

    open spec fn from_spec(update: FixedUi2dSceneUpdate<T, U, TP, P>) -> Self {
        Ui2dRuntimeUpdate { text: text_update_of(update), ui: ui_update_of(update) }
    }
}

/// A retained scene that a flat UI host renders: it plans the GPU updates
/// its changes call for and follows the view and the viewport.
pub trait Ui2dSceneState {
    /// The planned GPU update.
    type Update;

    /// The state is well formed; every method but `scene_mut` keeps it so.
    spec fn scene_state_wf(&self) -> bool;

    /// The retained scene the state holds.
    spec fn spec_state_scene(&self) -> RetainedScene;

    /// Takes the changes recorded so far; `None` when they call for no GPU
    /// update.
    fn take_ui2d_runtime_update(&mut self) -> (r: Option<Self::Update>)
        requires
            old(self).scene_state_wf(),
        ensures
            final(self).scene_state_wf(),
    ;

    /// Records that the view transform changed.
    fn mark_view_transform_dirty(&mut self)
        requires
            old(self).scene_state_wf(),
        ensures
            final(self).scene_state_wf(),
    ;

    /// Follows a new viewport size, in pixels.
    fn set_viewport_size(&mut self, width: u32, height: u32)
        requires
            old(self).scene_state_wf(),
        ensures
            final(self).scene_state_wf(),
    ;

    fn scene(&self) -> (r: &RetainedScene)
        ensures
            *r == self.spec_state_scene(),
    ;

    fn scene_mut(&mut self) -> (r: &mut RetainedScene)
        ensures
            *r == old(self).spec_state_scene(),
            final(self).spec_state_scene() == *final(r),
    ;
}

/// A call a deck makes on one of its scene hosts.
#[derive(Clone, Copy, Debug, PartialEq, Eq)]
pub enum DeckCall {
    Resize(u32, u32),
    ResizeLazy(u32, u32),
    EnsureReady,
    PrepareFrame,
    SetViewState,
    ResetRotation,
    ResetAll,
    SetTextColors(TextColors),
}

/// A scene that a `Ui2dSceneDeck` can show. `deck_calls` is the history of
/// the calls the host received, which each method extends by its own call.
/// An implementation defines the spec functions below and meets the
/// methods' contracts over them; their defaults determine nothing, so an
/// implementation that keeps them cannot meet those contracts.
pub trait Ui2dDeckHost {
    /// Pan, zoom and rotation of the view.
    type ViewState: Copy;

    closed spec fn spec_view_state(&self) -> Self::ViewState {
        arbitrary()
    }

    closed spec fn spec_needs_redraw(&self) -> bool {
        arbitrary()
    }

    closed spec fn deck_calls(&self) -> Seq<DeckCall> {
        arbitrary()
    }

    fn view_state(&self) -> (r: Self::ViewState)
        ensures
            r == self.spec_view_state(),
    ;

    fn set_view_state(&mut self, view_state: Self::ViewState)
        ensures
            final(self).spec_view_state() == view_state,
            final(self).deck_calls() == old(self).deck_calls().push(DeckCall::SetViewState),
    ;

    fn needs_redraw(&self) -> (r: bool)
        ensures
            r == self.spec_needs_redraw(),
    ;

    fn reset_rotation(&mut self)
        ensures
            final(self).deck_calls() == old(self).deck_calls().push(DeckCall::ResetRotation),
    ;

    fn reset_all(&mut self)
        ensures
            final(self).deck_calls() == old(self).deck_calls().push(DeckCall::ResetAll),
    ;

    fn prepare_frame(&mut self)
        ensures
            final(self).deck_calls() == old(self).deck_calls().push(DeckCall::PrepareFrame),
    ;

    /// Adapts to a new surface size at once.
    fn resize(&mut self, width: u32, height: u32)
        ensures
            final(self).deck_calls() == old(self).deck_calls().push(DeckCall::Resize(width, height)),
    ;

    /// Records a new surface size, to be applied when the scene is next shown.
    fn resize_lazy(&mut self, width: u32, height: u32)
        ensures
            final(self).deck_calls() == old(self).deck_calls().push(DeckCall::ResizeLazy(width, height)),
    ;

    /// Brings the scene's GPU resources up to date before it is shown.
    fn ensure_ready(&mut self)
        ensures
            final(self).deck_calls() == old(self).deck_calls().push(DeckCall::EnsureReady),
    ;
}

/// Several scenes, one of them active; switching keeps the view.
pub struct Ui2dSceneDeck<H> {
    scenes: Vec<H>,
    active_scene: usize,
}

/// The scene after `active` among `len`, wrapping around after the last.
pub open spec fn next_index(active: int, len: int) -> int {
    if active + 1 == len {
        0
    } else {
        active + 1
    }
}

/// What a resize asks of host `index` when `active` is shown.
pub open spec fn resize_call(index: int, active: int, width: u32, height: u32) -> DeckCall {
    if index == active {
        DeckCall::Resize(width, height)
    } else {
        DeckCall::ResizeLazy(width, height)
    }
}

impl<H: Ui2dDeckHost> Ui2dSceneDeck<H> {
    pub closed spec fn spec_scenes(&self) -> Seq<H> {
        self.scenes@
    }

    pub closed spec fn spec_active(&self) -> int {
        self.active_scene as int
    }

    /// At least one scene, and the active one exists.
    pub open spec fn wf(&self) -> bool {
        0 <= self.spec_active() < self.spec_scenes().len()
    }

    pub open spec fn active_spec_host(&self) -> H {
        self.spec_scenes()[self.spec_active()]
    }

    /// A deck showing the first of `scenes`, which must not be empty.
    pub fn new(scenes: Vec<H>) -> (r: Self)
        requires
            scenes@.len() > 0,
        ensures
            r.wf(),
            r.spec_scenes() == scenes@,
            r.spec_active() == 0,
    {
        Ui2dSceneDeck { scenes, active_scene: 0 }
    }

    pub fn len(&self) -> (r: usize)
        ensures
            r == self.spec_scenes().len(),
    {
        self.scenes.len()
    }

    pub fn is_empty(&self) -> (r: bool)
        ensures
            r == (self.spec_scenes().len() == 0),
    {
        self.scenes.len() == 0
    }

    pub fn active_index(&self) -> (r: usize)
        ensures
            r == self.spec_active(),
    {
        self.active_scene
    }

    pub fn active_host(&self) -> (r: &H)
        requires
            self.wf(),
        ensures
            *r == self.active_spec_host(),
    {
        &self.scenes[self.active_scene]
    }

    /// Scene `index` of the deck.
    pub fn host(&self, index: usize) -> (r: Option<&H>)
        ensures
            r == (if index < self.spec_scenes().len() {
                Some(&self.spec_scenes()[index as int])
            } else {
                None
            }),
    {
        if index < self.scenes.len() {
            Some(&self.scenes[index])
        } else {
            None
        }
    }

    pub fn active_host_mut(&mut self) -> (r: &mut H)
        requires
            old(self).wf(),
        ensures
            *r == old(self).active_spec_host(),
            final(self).spec_active() == old(self).spec_active(),
            final(self).spec_scenes() == old(self).spec_scenes().update(old(self).spec_active(), *final(r)),
    {
        &mut self.scenes[self.active_scene]
    }

    pub fn view_state(&self) -> (r: H::ViewState)
        requires
            self.wf(),
        ensures
            r == self.active_spec_host().spec_view_state(),
    {
        self.scenes[self.active_scene].view_state()
    }

    /// Whether the active scene wants to be drawn again.
    pub fn needs_redraw(&self) -> (r: bool)
        requires
            self.wf(),
        ensures
            r == self.active_spec_host().spec_needs_redraw(),
    {
        self.scenes[self.active_scene].needs_redraw()
    }

    pub fn set_view_state(&mut self, view_state: H::ViewState)
        requires
            old(self).wf(),
        ensures
            final(self).wf(),
            final(self).spec_active() == old(self).spec_active(),
            final(self).spec_scenes().len() == old(self).spec_scenes().len(),
            final(self).active_spec_host().spec_view_state() == view_state,
            final(self).active_spec_host().deck_calls() == old(self).active_spec_host().deck_calls().push(
                DeckCall::SetViewState,
            ),
            forall|j: int|
                0 <= j < old(self).spec_scenes().len() && j != old(self).spec_active() ==> #[trigger] final(self).spec_scenes()[j] == old(self).spec_scenes()[j],
    {
        let i = self.active_scene;
        self.scenes[i].set_view_state(view_state);
    }

    pub fn reset_rotation(&mut self)
        requires
            old(self).wf(),
        ensures
            final(self).wf(),
            final(self).spec_active() == old(self).spec_active(),
            final(self).spec_scenes().len() == old(self).spec_scenes().len(),
            final(self).active_spec_host().deck_calls() == old(self).active_spec_host().deck_calls().push(
                DeckCall::ResetRotation,
            ),
            forall|j: int|
                0 <= j < old(self).spec_scenes().len() && j != old(self).spec_active() ==> #[trigger] final(self).spec_scenes()[j] == old(self).spec_scenes()[j],
    {
        let i = self.active_scene;
        self.scenes[i].reset_rotation();
    }

    pub fn reset_all(&mut self)
        requires
            old(self).wf(),
        ensures
            final(self).wf(),
            final(self).spec_active() == old(self).spec_active(),
            final(self).spec_scenes().len() == old(self).spec_scenes().len(),
            final(self).active_spec_host().deck_calls() == old(self).active_spec_host().deck_calls().push(
                DeckCall::ResetAll,
            ),
            forall|j: int|
                0 <= j < old(self).spec_scenes().len() && j != old(self).spec_active() ==> #[trigger] final(self).spec_scenes()[j] == old(self).spec_scenes()[j],
    {
        let i = self.active_scene;
        self.scenes[i].reset_all();
    }

    /// Shows scene `index`, made ready first and given the view of the scene
    /// shown so far. Returns false, changing nothing, when `index` is out of
    /// range or already shown.
    pub fn set_active_scene(&mut self, index: usize) -> (changed: bool)
        requires
            old(self).wf(),
        ensures
            final(self).wf(),
            changed == (index < old(self).spec_scenes().len() && index != old(self).spec_active()),
            !changed ==> *final(self) == *old(self),
            changed ==> {
                &&& final(self).spec_active() == index
                &&& final(self).spec_scenes().len() == old(self).spec_scenes().len()
                &&& final(self).active_spec_host().spec_view_state() == old(self).active_spec_host().spec_view_state()
                &&& final(self).active_spec_host().deck_calls() == old(self).spec_scenes()[index as int].deck_calls().push(
                    DeckCall::EnsureReady,
                ).push(DeckCall::SetViewState)
                &&& forall|j: int|
                    0 <= j < old(self).spec_scenes().len() && j != index ==> #[trigger] final(self).spec_scenes()[j]
                        == old(self).spec_scenes()[j]
            },
    {
        if index >= self.scenes.len() || index == self.active_scene {
            return false;
        }
        let current_view_state = self.scenes[self.active_scene].view_state();
        self.active_scene = index;
        self.ensure_active_scene_ready();
        self.scenes[index].set_view_state(current_view_state);
        true
    }

    /// Shows the next scene, wrapping around after the last.
    pub fn cycle_next(&mut self) -> (changed: bool)
        requires
            old(self).wf(),
        ensures
            final(self).wf(),
            changed == (old(self).spec_scenes().len() > 1),
            final(self).spec_active() == next_index(old(self).spec_active(), old(self).spec_scenes().len() as int),
            !changed ==> *final(self) == *old(self),
            changed ==> {
                let next = next_index(old(self).spec_active(), old(self).spec_scenes().len() as int);
                &&& final(self).spec_scenes().len() == old(self).spec_scenes().len()
                &&& final(self).active_spec_host().spec_view_state() == old(self).active_spec_host().spec_view_state()
                &&& final(self).active_spec_host().deck_calls() == old(self).spec_scenes()[next].deck_calls().push(
                    DeckCall::EnsureReady,
                ).push(DeckCall::SetViewState)
                &&& forall|j: int|
                    0 <= j < old(self).spec_scenes().len() && j != next ==> #[trigger] final(self).spec_scenes()[j]
                        == old(self).spec_scenes()[j]
            },
    {
        let n = self.scenes.len();
        let next_scene = if self.active_scene + 1 == n {
            0
        } else {
            self.active_scene + 1
        };
        self.set_active_scene(next_scene)
    }

    /// Resizes the active scene at once and the others lazily.
    pub fn resize(&mut self, width: u32, height: u32)
        requires
            old(self).wf(),
        ensures
            final(self).wf(),
            final(self).spec_active() == old(self).spec_active(),
            final(self).spec_scenes().len() == old(self).spec_scenes().len(),
            forall|j: int|
                0 <= j < old(self).spec_scenes().len() ==> #[trigger] final(self).spec_scenes()[j].deck_calls()
                    == old(self).spec_scenes()[j].deck_calls().push(
                    resize_call(j, old(self).spec_active(), width, height),
                ),
    {
        let n = self.scenes.len();
        let mut index: usize = 0;
        while index < n
            invariant
                n == old(self).spec_scenes().len(),
                self.spec_scenes().len() == n,
                self.spec_active() == old(self).spec_active(),
                0 <= self.spec_active() < n,
                0 <= index <= n,
                forall|j: int|
                    0 <= j < index ==> #[trigger] self.spec_scenes()[j].deck_calls() == old(self).spec_scenes()[j].deck_calls().push(resize_call(j, old(self).spec_active(), width, height)),
                forall|j: int| index <= j < n ==> #[trigger] self.spec_scenes()[j] == old(self).spec_scenes()[j],
            decreases n - index,
        {
            if index == self.active_scene {
                self.scenes[index].resize(width, height);
            } else {
                self.scenes[index].resize_lazy(width, height);
            }
            index += 1;
        }
    }

    pub fn ensure_active_scene_ready(&mut self)
        requires
            old(self).wf(),
        ensures
            final(self).wf(),
            final(self).spec_active() == old(self).spec_active(),
            final(self).spec_scenes().len() == old(self).spec_scenes().len(),
            final(self).active_spec_host().deck_calls() == old(self).active_spec_host().deck_calls().push(
                DeckCall::EnsureReady,
            ),
            forall|j: int|
                0 <= j < old(self).spec_scenes().len() && j != old(self).spec_active() ==> #[trigger] final(self).spec_scenes()[j] == old(self).spec_scenes()[j],
    {
        let i = self.active_scene;
        self.scenes[i].ensure_ready();
    }

    /// Makes the active scene ready and lets it prepare its frame.
    pub fn prepare_frame(&mut self)
        requires
            old(self).wf(),
        ensures
            final(self).wf(),
            final(self).spec_active() == old(self).spec_active(),
            final(self).spec_scenes().len() == old(self).spec_scenes().len(),
            final(self).active_spec_host().deck_calls() == old(self).active_spec_host().deck_calls().push(
                DeckCall::EnsureReady,
            ).push(DeckCall::PrepareFrame),
            forall|j: int|
                0 <= j < old(self).spec_scenes().len() && j != old(self).spec_active() ==> #[trigger] final(self).spec_scenes()[j] == old(self).spec_scenes()[j],
    {
        self.ensure_active_scene_ready();
        let i = self.active_scene;
        self.scenes[i].prepare_frame();
    }
}

} // verus!
