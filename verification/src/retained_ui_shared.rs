//! Types shared by the retained UI runtimes: a prepared scene, the buffer
//! capacities a flat scene starts with, and a scene update.
use crate::retained::RetainedScene;
use crate::ui2d_runtime::{split_scene_update, text_update_of, ui_update_of, FixedUi2dSceneUpdate, RuntimeResourceUpdate};
use crate::ui_physical_theme::TextColors;
use vstd::prelude::*;

verus! {

/// The GPU data of a whole scene: text data `T` and UI primitives `U`.
pub struct PreparedRetainedUiScene<T, U> {
    pub text_data: T,
    pub ui_data: U,
}

/// Buffer capacities a flat UI scene is created with.
#[derive(Debug, Clone, Copy, PartialEq, Eq)]
pub struct Ui2dSceneInitCapacities {
    pub text_capacity: usize,
    pub grid_index_capacity: usize,
    pub primitive_capacity: usize,
}

/// A scene update: the whole scene again, or updates of its text and UI
/// primitives, each optional.
pub enum SharedRetainedUiUpdate<T, U, TP, UP> {
    Full(PreparedRetainedUiScene<T, U>),
    Partial { text: Option<RuntimeResourceUpdate<T, TP>>, ui: Option<RuntimeResourceUpdate<U, UP>> },
}

impl<T, U, TP, UP> SharedRetainedUiUpdate<T, U, TP, UP> {
    /// Whether the scene is sent again as a whole.
    pub fn needs_full_rebuild(&self) -> (r: bool)
        ensures
            r == (*self is Full),
    {
        match self {
            SharedRetainedUiUpdate::Full(_) => true,
            SharedRetainedUiUpdate::Partial { .. } => false,
        }
    }
}

impl<T, U, TP, P> From<FixedUi2dSceneUpdate<T, U, TP, P>> for SharedRetainedUiUpdate<T, U, TP, Vec<P>> {
    fn from(update: FixedUi2dSceneUpdate<T, U, TP, P>) -> (r: Self) {
        match update {
            FixedUi2dSceneUpdate::Full { text_data, ui_data } => SharedRetainedUiUpdate::Full(
                PreparedRetainedUiScene { text_data, ui_data },
            ),
            FixedUi2dSceneUpdate::Partial { ui_patches, text_patch } => {
                let (text, ui) = split_scene_update(
                    FixedUi2dSceneUpdate::<T, U, TP, P>::Partial { ui_patches, text_patch },
                );
                SharedRetainedUiUpdate::Partial { text, ui }
            },
        }
    }
}

impl<T, U, TP, P> vstd::std_specs::convert::FromSpecImpl<FixedUi2dSceneUpdate<T, U, TP, P>> for SharedRetainedUiUpdate<T, U, TP, Vec<P>> {
    open spec fn obeys_from_spec() -> bool {
        true
    }

    open spec fn from_spec(update: FixedUi2dSceneUpdate<T, U, TP, P>) -> Self {
        match update {
            FixedUi2dSceneUpdate::Full { text_data, ui_data } => SharedRetainedUiUpdate::Full(
                PreparedRetainedUiScene { text_data, ui_data },
            ),
            FixedUi2dSceneUpdate::Partial { .. } => SharedRetainedUiUpdate::Partial {
                text: text_update_of(update),
                ui: ui_update_of(update),
            },
        }
    }
}

/// A retained UI scene that both runtimes can drive.
pub trait SharedRetainedUiSceneState {
    type TextData;
    type UiData;
    type TextPatch;
    type UiPatch;

    fn build_prepared_retained_ui_scene(&self, colors: &TextColors) -> PreparedRetainedUiScene<Self::TextData, Self::UiData>;

    fn take_prepared_retained_ui_update(&mut self, colors: &TextColors) -> Option<
        SharedRetainedUiUpdate<Self::TextData, Self::UiData, Self::TextPatch, Self::UiPatch>,
    >;

    fn ui2d_scene_init_capacities(
        &self,
        prepared: &PreparedRetainedUiScene<Self::TextData, Self::UiData>,
    ) -> Ui2dSceneInitCapacities;

    fn mark_retained_ui_view_transform_dirty(&mut self);

    fn set_retained_ui_viewport_size(&mut self, width: u32, height: u32);

    fn shared_scene(&self) -> &RetainedScene;

    fn shared_scene_mut(&mut self) -> &mut RetainedScene;
}

} // verus!
