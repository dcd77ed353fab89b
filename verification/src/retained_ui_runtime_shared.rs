//! The sizes a retained UI runtime's GPU buffers were made for, and the
//! test of whether a scene still fits them.
use crate::ui_physical_runtime::UiPhysicalSceneCounts;
use vstd::prelude::*;

verus! {

/// Glyph and primitive counts of a retained UI runtime and the capacities
/// of its buffers. The grid cell capacity is the cell count of the scene the
/// buffers were made for.
#[derive(Clone, Copy, Debug, PartialEq, Eq)]
pub struct RetainedUiRuntimeState {
    pub char_count: u32,
    pub ui_prim_count: u32,
    pub text_capacity: usize,
    pub grid_cell_capacity: usize,
    pub grid_index_capacity: usize,
    pub primitive_capacity: usize,
}

impl RetainedUiRuntimeState {
    /// The runtime of a scene of sizes `scene`, with `char_count` glyphs
    /// shown.
    pub fn new(
        scene: &UiPhysicalSceneCounts,
        char_count: u32,
        text_capacity: usize,
        grid_index_capacity: usize,
        primitive_capacity: usize,
    ) -> (r: Self)
        ensures
            r.char_count == char_count,
            r.ui_prim_count == scene.ui_primitives as u32,
            r.text_capacity == text_capacity,
            r.grid_cell_capacity == scene.grid_cells,
            r.grid_index_capacity == grid_index_capacity,
            r.primitive_capacity == primitive_capacity,
    {
        RetainedUiRuntimeState {
            char_count,
            ui_prim_count: scene.ui_primitives as u32,
            text_capacity,
            grid_cell_capacity: scene.grid_cells,
            grid_index_capacity,
            primitive_capacity,
        }
    }

    /// Whether a scene of sizes `scene` fits the buffers as they are.
    pub fn can_fit_scene_data(&self, scene: &UiPhysicalSceneCounts) -> (r: bool)
        ensures
            r == (scene.char_instances <= self.text_capacity && scene.grid_cells <= self.grid_cell_capacity
                && scene.grid_indices <= self.grid_index_capacity && scene.ui_primitives <= self.primitive_capacity),
    {
        scene.char_instances <= self.text_capacity && scene.grid_cells <= self.grid_cell_capacity
            && scene.grid_indices <= self.grid_index_capacity && scene.ui_primitives <= self.primitive_capacity
    }
}

} // verus!
