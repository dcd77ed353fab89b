use raybox::retained_ui_runtime_shared::RetainedUiRuntimeState;
use raybox::ui_physical_runtime::UiPhysicalSceneCounts;

fn sample_text_data(cell_count: usize, index_count: usize, ui_primitives: usize) -> UiPhysicalSceneCounts {
    UiPhysicalSceneCounts { char_instances: 4, grid_indices: index_count, grid_cells: cell_count, ui_primitives }
}

#[test]
fn can_fit_scene_data_uses_actual_grid_cell_capacity() {
    let text_data = sample_text_data(4, 16, 2);
    let state = RetainedUiRuntimeState::new(&text_data, 4, 8, 32, 4);

    let larger_grid = sample_text_data(5, 16, 2);
    assert!(!state.can_fit_scene_data(&larger_grid));
}

#[test]
fn can_fit_scene_data_accepts_scene_within_current_buffer_sizes() {
    let text_data = sample_text_data(4, 16, 2);
    let state = RetainedUiRuntimeState::new(&text_data, 4, 8, 32, 4);

    let smaller_scene = sample_text_data(3, 12, 1);
    assert!(state.can_fit_scene_data(&smaller_scene));
}

#[test]
fn runtime_state_records_scene_sizes() {
    let state = RetainedUiRuntimeState::new(&sample_text_data(4, 16, 2), 3, 8, 32, 4);
    assert_eq!(state.char_count, 3);
    assert_eq!(state.ui_prim_count, 2);
    assert_eq!(state.grid_cell_capacity, 4);
    assert!(!state.can_fit_scene_data(&UiPhysicalSceneCounts {
        char_instances: 9,
        grid_indices: 1,
        grid_cells: 1,
        ui_primitives: 1,
    }));
    assert!(!state.can_fit_scene_data(&UiPhysicalSceneCounts {
        char_instances: 1,
        grid_indices: 33,
        grid_cells: 1,
        ui_primitives: 1,
    }));
    assert!(!state.can_fit_scene_data(&UiPhysicalSceneCounts {
        char_instances: 1,
        grid_indices: 1,
        grid_cells: 1,
        ui_primitives: 5,
    }));
}
