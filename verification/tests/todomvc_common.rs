use raybox::demo_core::ListFilter;
use raybox::retained::SceneMode;
use raybox::todomvc_common::{
    build_scene_resource_update, build_text_resource_update, build_ui_resource_update, classic_text_colors,
    todo_item_ui_slot_for_index, todo_text_run_capacity, todo_text_run_index_for_node, todo_text_run_layout,
    todo_text_run_offset, TodoMvcRetainedState, TODO_TEXT_RUN_ITEMS_LEFT_COUNT, TODO_UI_SLOT_FILTER_ALL,
};
use raybox::todomvc_retained::TodoMvcResourceDirty;
use raybox::ui2d_runtime::RuntimeResourceUpdate;
use std::collections::BTreeSet;

#[test]
fn text_runs_have_fixed_capacities_and_offsets() {
    assert_eq!(todo_text_run_capacity(0), 8);
    assert_eq!(todo_text_run_capacity(14), 20);
    assert_eq!(todo_text_run_offset(0), 0);
    assert_eq!(todo_text_run_offset(3), 88);
    assert_eq!(todo_text_run_offset(15), 384);
    assert_eq!(todo_text_run_layout().run_capacities.len(), 15);
    assert_eq!(todo_item_ui_slot_for_index(3), 3);
    assert_eq!(classic_text_colors().completed, [148, 148, 148]);
}

#[test]
fn nodes_map_to_their_text_runs() {
    let state = TodoMvcRetainedState::new(SceneMode::Ui2D, 700, 700);
    let scene = state.scene();
    let count = scene.node_named("items_left_count").unwrap().id;
    assert_eq!(todo_text_run_index_for_node(scene, count), Some(TODO_TEXT_RUN_ITEMS_LEFT_COUNT as usize));
    let card = scene.node_named("card").unwrap().id;
    assert_eq!(todo_text_run_index_for_node(scene, card), None);
    assert_eq!(todo_text_run_index_for_node(scene, 100_000), None);
}

#[test]
fn resource_updates_are_planned_from_dirty_sets() {
    let state = TodoMvcRetainedState::new(SceneMode::Ui2D, 700, 700);
    let scene = state.scene();
    let label = scene.node_named("item_finish_label").unwrap().id;
    let nodes: BTreeSet<u64> = [label].into_iter().collect();
    match build_text_resource_update(scene, false, &nodes) {
        Some(RuntimeResourceUpdate::Partial(runs)) => assert_eq!(runs, [3u16].into_iter().collect()),
        _ => panic!("expected a partial text update"),
    }
    assert!(matches!(build_text_resource_update(scene, true, &nodes), Some(RuntimeResourceUpdate::Full(()))));
    assert!(build_text_resource_update(scene, false, &BTreeSet::new()).is_none());
    let slots: BTreeSet<u16> = [TODO_UI_SLOT_FILTER_ALL].into_iter().collect();
    match build_ui_resource_update(false, &slots) {
        Some(RuntimeResourceUpdate::Partial(s)) => assert_eq!(s, slots),
        _ => panic!("expected a partial ui update"),
    }
    let update = build_scene_resource_update(scene, &TodoMvcResourceDirty::all());
    assert!(update.needs_full_rebuild());
}

#[test]
fn state_plans_updates_for_page_changes() {
    let mut state = TodoMvcRetainedState::new(SceneMode::Ui2D, 700, 700);
    assert!(state.take_scene_resource_update().is_none());
    assert!(state.set_filter(ListFilter::Active));
    let update = state.take_scene_resource_update().expect("an update");
    assert!(update.needs_full_rebuild());
    assert!(state.take_scene_resource_update().is_none());
    assert!(state.set_item_label(0, "Read more"));
    let update = state.take_scene_resource_update().expect("an update");
    assert!(!update.needs_full_rebuild());
    assert!(update.ui.is_none());
    match update.text {
        Some(RuntimeResourceUpdate::Partial(runs)) => assert_eq!(runs, [2u16].into_iter().collect()),
        _ => panic!("expected a partial text update"),
    }
    state.set_viewport_size(640, 480);
    assert!(state.take_scene_resource_update().is_none());
}

#[test]
fn state_keeps_its_page_across_updates() {
    let mut state = TodoMvcRetainedState::new(SceneMode::Ui2D, 700, 700);
    assert!(state.take_scene_resource_update().is_none());
    state.mark_view_transform_dirty();
    assert!(!state.retained_scene().scene().dirty().is_empty());
    assert!(state.take_scene_resource_update().is_none());
    assert!(state.toggle_item(0));
    assert_eq!(state.retained_scene().item(0).map(|item| item.completed), Some(true));
    let update = state.take_scene_resource_update().expect("an update");
    assert!(update.ui.is_some());
    assert!(update.text.is_some());
    assert!(state.set_filter(ListFilter::Completed));
    let update = state.take_scene_resource_update().expect("an update");
    assert!(update.ui.is_some());
    assert!(update.text.is_some());
}
