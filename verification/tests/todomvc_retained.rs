use raybox::demo_core::ListFilter;
use raybox::retained::{ElementKind, NodeId, Rect, SceneMode, TextNode, ToggleState};
use raybox::todomvc_common::{
    todo_item_ui_slot_for_index, TODO_UI_SLOT_FILTER_ACTIVE, TODO_UI_SLOT_FILTER_ALL,
    TODO_UI_SLOT_FILTER_COMPLETED,
};
use raybox::todomvc_retained::{
    TodoMvcResourceDirty, TodoMvcRetainedScene, CARD_W, CARD_X, ITEM_H, LIST_BOTTOM, LIST_TOP,
};
use std::collections::BTreeSet;

fn ui_slots(slots: impl IntoIterator<Item = u16>) -> BTreeSet<u16> {
    slots.into_iter().collect()
}

fn node_text(scene: &TodoMvcRetainedScene, name: &str) -> String {
    scene
        .scene()
        .node_named(name)
        .and_then(|node| node.text.as_ref())
        .map(|text| text.text.clone())
        .expect("text node")
}

fn node_id(scene: &TodoMvcRetainedScene, name: &str) -> NodeId {
    scene.scene().node_named(name).map(|node| node.id).expect("named node")
}

fn labels(scene: &TodoMvcRetainedScene) -> BTreeSet<NodeId> {
    (0..scene.todo_count()).map(|i| scene.item(i).unwrap().label).collect()
}

#[test]
fn creates_scroll_aware_todomvc_scene() {
    let scene = TodoMvcRetainedScene::new(SceneMode::Ui2D, 800, 600);
    let nodes = scene.scene().nodes();

    assert!(nodes.iter().any(|node| node.element == ElementKind::ScrollContainer));
    assert!(nodes.iter().any(|node| node.name.as_deref() == Some("card")));
    assert!(nodes
        .iter()
        .any(|node| node.text.as_ref().map(|text| text.text.as_str()) == Some("Finish TodoMVC renderer")));
}

#[test]
fn resizing_marks_viewport_dirty() {
    let mut scene = TodoMvcRetainedScene::new(SceneMode::UiPhysical, 700, 700);
    scene.scene_mut().clear_dirty();

    scene.set_viewport_size(1024, 768);

    assert!(!scene.scene().dirty().is_empty());
}

#[test]
fn viewport_only_dirty_does_not_require_resource_rebuild() {
    let mut scene = TodoMvcRetainedScene::new(SceneMode::Ui2D, 700, 700);
    scene.scene_mut().clear_dirty();

    scene.set_viewport_size(800, 600);

    assert!(!scene.scene().dirty().is_empty());
    assert_eq!(scene.take_resource_dirty(), TodoMvcResourceDirty::none());
}

#[test]
fn checkbox_toggle_marks_checkbox_slot_dirty() {
    let mut scene = TodoMvcRetainedScene::new(SceneMode::Ui2D, 700, 700);
    scene.scene_mut().clear_dirty();

    let checkbox = scene
        .scene()
        .nodes()
        .iter()
        .find(|node| node.name.as_deref() == Some("item_read_checkbox"))
        .map(|node| node.id)
        .expect("checkbox node");
    scene.scene_mut().set_toggle_state(checkbox, Some(ToggleState::On));

    let dirty = scene.take_resource_dirty();
    assert!(dirty.ui);
    assert!(!dirty.full_ui);
    assert_eq!(dirty.ui_slots, ui_slots([todo_item_ui_slot_for_index(0)]));
}

#[test]
fn text_update_requires_only_text_rebuild() {
    let mut scene = TodoMvcRetainedScene::new(SceneMode::Ui2D, 700, 700);
    scene.scene_mut().clear_dirty();

    let info = scene
        .scene()
        .nodes()
        .iter()
        .find(|node| node.name.as_deref() == Some("info_author"))
        .map(|node| node.id)
        .expect("info text node");
    scene
        .scene_mut()
        .set_text(info, Some(TextNode::new("Created by retained".to_string(), 110)));

    assert_eq!(
        scene.take_resource_dirty(),
        TodoMvcResourceDirty {
            ui: false,
            text: true,
            full_ui: false,
            full_text: true,
            ui_slots: BTreeSet::new(),
            text_style_nodes: BTreeSet::new(),
            text_layout_nodes: BTreeSet::new(),
        }
    );
}

#[test]
fn selecting_filter_reflows_items_and_text() {
    let mut scene = TodoMvcRetainedScene::new(SceneMode::Ui2D, 700, 700);
    scene.scene_mut().clear_dirty();

    assert!(scene.set_filter(ListFilter::Completed));

    let expected_labels = labels(&scene);
    assert_eq!(
        scene.take_resource_dirty(),
        TodoMvcResourceDirty {
            ui: true,
            text: true,
            full_ui: true,
            full_text: true,
            ui_slots: ui_slots(
                (0..scene.todo_count())
                    .map(todo_item_ui_slot_for_index)
                    .chain([
                        TODO_UI_SLOT_FILTER_ALL,
                        TODO_UI_SLOT_FILTER_ACTIVE,
                        TODO_UI_SLOT_FILTER_COMPLETED,
                    ]),
            ),
            text_style_nodes: BTreeSet::new(),
            text_layout_nodes: expected_labels,
        }
    );
}

#[test]
fn completed_filter_compacts_visible_item_to_top_row() {
    let mut scene = TodoMvcRetainedScene::new(SceneMode::Ui2D, 700, 700);
    scene.scene_mut().clear_dirty();

    assert!(scene.set_filter(ListFilter::Completed));

    let visible_item_bounds = scene
        .scene()
        .node(scene.item(1).unwrap().item)
        .expect("visible item")
        .bounds;
    let hidden_item_bounds = scene
        .scene()
        .node(scene.item(0).unwrap().item)
        .expect("hidden item")
        .bounds;

    assert_eq!(visible_item_bounds, Rect::new(CARD_X, LIST_TOP, CARD_W, ITEM_H));
    assert!(hidden_item_bounds.y > LIST_BOTTOM + 9000);
}

// Rows are placed in exact tenths of a pixel, so every row of the freshly
// built list already sits where the layout puts it: toggling an item under
// the All filter moves no row, and only the toggled item's primitives are
// pending.
#[test]
fn toggling_item_updates_footer_count_and_pending_changes() {
    let mut scene = TodoMvcRetainedScene::new(SceneMode::Ui2D, 700, 700);
    scene.scene_mut().clear_dirty();
    let item_label = node_id(&scene, "item_read_label");
    let items_left_count = node_id(&scene, "items_left_count");

    assert!(scene.toggle_item(0));

    assert_eq!(node_text(&scene, "items_left_count"), "2");
    let dirty = scene.take_resource_dirty();
    assert!(dirty.ui);
    assert!(dirty.text);
    assert!(!dirty.full_ui);
    assert!(!dirty.full_text);
    assert_eq!(dirty.ui_slots, ui_slots([todo_item_ui_slot_for_index(0)]));
    assert_eq!(dirty.text_style_nodes, [item_label].into_iter().collect());
    assert!(dirty.text_layout_nodes.contains(&items_left_count));
}

#[test]
fn toggling_twice_restores_items_and_counter() {
    let mut scene = TodoMvcRetainedScene::new(SceneMode::Ui2D, 700, 700);
    let before: Vec<bool> = (0..4).map(|i| scene.item(i).unwrap().completed).collect();
    assert!(scene.toggle_item(2));
    assert_eq!(node_text(&scene, "items_left_count"), "2");
    assert!(scene.toggle_item(2));
    let after: Vec<bool> = (0..4).map(|i| scene.item(i).unwrap().completed).collect();
    assert_eq!(before, after);
    assert_eq!(node_text(&scene, "items_left_count"), "3");
    assert!(!scene.toggle_item(4));
}

#[test]
fn taking_resource_changes_twice_finds_nothing_the_second_time() {
    let mut scene = TodoMvcRetainedScene::new(SceneMode::Ui2D, 700, 700);
    assert!(scene.set_item_label(3, "Buy milk"));
    let first = scene.take_resource_dirty();
    assert!(first.any());
    assert_eq!(scene.take_resource_dirty(), TodoMvcResourceDirty::none());
}

#[test]
fn fresh_scene_is_entirely_dirty() {
    let mut scene = TodoMvcRetainedScene::new(SceneMode::Ui2D, 700, 700);
    assert_eq!(scene.take_resource_dirty(), TodoMvcResourceDirty::all());
}

#[test]
fn relabeling_records_label_layout_and_updates_text() {
    let mut scene = TodoMvcRetainedScene::new(SceneMode::Ui2D, 700, 700);
    scene.scene_mut().clear_dirty();
    let label = node_id(&scene, "item_walk_label");
    assert!(scene.set_item_label(2, "Walk the cat"));
    assert!(!scene.set_item_label(2, "Walk the cat"));
    assert!(!scene.set_item_label(9, "nothing"));
    assert_eq!(node_text(&scene, "item_walk_label"), "Walk the cat");
    let dirty = scene.take_resource_dirty();
    assert_eq!(
        dirty,
        TodoMvcResourceDirty {
            ui: false,
            text: true,
            full_ui: false,
            full_text: false,
            ui_slots: BTreeSet::new(),
            text_style_nodes: BTreeSet::new(),
            text_layout_nodes: [label].into_iter().collect(),
        }
    );
}

#[test]
fn selecting_the_current_filter_changes_nothing() {
    let mut scene = TodoMvcRetainedScene::new(SceneMode::Ui2D, 700, 700);
    scene.scene_mut().clear_dirty();
    assert!(!scene.set_filter(ListFilter::All));
    assert_eq!(scene.take_resource_dirty(), TodoMvcResourceDirty::none());
    assert_eq!(scene.filter(), ListFilter::All);
}

#[test]
fn active_filter_hides_completed_item_and_keeps_order() {
    let mut scene = TodoMvcRetainedScene::new(SceneMode::Ui2D, 700, 700);
    assert!(scene.set_filter(ListFilter::Active));
    let y = |scene: &TodoMvcRetainedScene, i: usize| {
        scene.scene().node(scene.item(i).unwrap().item).unwrap().bounds.y
    };
    assert_eq!(y(&scene, 0), LIST_TOP);
    assert_eq!(y(&scene, 2), LIST_TOP + ITEM_H);
    assert_eq!(y(&scene, 3), LIST_TOP + 2 * ITEM_H);
    assert!(y(&scene, 1) > LIST_BOTTOM);
}

#[test]
fn scroll_dirty_requires_resource_rebuild() {
    let mut scene = TodoMvcRetainedScene::new(SceneMode::Ui2D, 700, 700);
    scene.scene_mut().clear_dirty();
    let expected_text_layout_nodes = labels(&scene);

    scene.set_scroll_offset(480);

    assert_eq!(
        scene.take_resource_dirty(),
        TodoMvcResourceDirty {
            ui: true,
            text: true,
            full_ui: false,
            full_text: false,
            ui_slots: ui_slots((0..scene.todo_count()).map(todo_item_ui_slot_for_index)),
            text_style_nodes: BTreeSet::new(),
            text_layout_nodes: expected_text_layout_nodes,
        }
    );
}

#[test]
fn scroll_dirty_tracks_union_of_old_and_new_visible_items() {
    let mut scene = TodoMvcRetainedScene::new(SceneMode::Ui2D, 700, 700);
    scene.scene_mut().clear_dirty();

    scene.set_scroll_offset(1200);
    let _ = scene.take_resource_dirty();

    scene.set_scroll_offset(1600);

    assert_eq!(
        scene.take_resource_dirty(),
        TodoMvcResourceDirty {
            ui: true,
            text: true,
            full_ui: false,
            full_text: false,
            ui_slots: ui_slots([2, 3].into_iter().map(todo_item_ui_slot_for_index)),
            text_style_nodes: BTreeSet::new(),
            text_layout_nodes: [2, 3].into_iter().map(|i| scene.item(i).unwrap().label).collect(),
        }
    );
}

#[test]
fn scrolling_moves_only_the_list_scroll_state() {
    let mut scene = TodoMvcRetainedScene::new(SceneMode::Ui2D, 700, 700);
    scene.scene_mut().clear_dirty();
    let list = node_id(&scene, "list_scroll");
    let before = scene.scene().node(list).unwrap().scroll.unwrap();

    scene.set_scroll_offset(300);

    let after = scene.scene().node(list).unwrap().scroll.unwrap();
    assert_eq!(after.offset_y, 300);
    assert_eq!(after.offset_x, 0);
    assert_eq!(after.content_height, before.content_height);
    assert_eq!(node_text(&scene, "items_left_count"), "3");
}

#[test]
fn view_transform_mark_after_take_plans_nothing() {
    let mut scene = TodoMvcRetainedScene::new(SceneMode::Ui2D, 700, 700);
    let _ = scene.take_resource_dirty();
    scene.mark_view_transform_dirty();
    assert!(!scene.scene().dirty().is_empty());
    assert_eq!(scene.take_resource_dirty(), TodoMvcResourceDirty::none());
}

#[test]
fn resource_plans_hang_together() {
    let mut scene = TodoMvcRetainedScene::new(SceneMode::Ui2D, 700, 700);
    let _ = scene.take_resource_dirty();
    assert!(scene.set_filter(ListFilter::Active));
    assert!(scene.toggle_item(2));
    let dirty = scene.take_resource_dirty();
    let page_slots = ui_slots([0, 1, 2, 3, 100, 101, 102]);
    assert!(!dirty.full_ui || dirty.ui);
    assert!(!dirty.full_text || dirty.text);
    assert!(dirty.ui_slots.is_empty() || dirty.ui);
    assert!((dirty.text_style_nodes.is_empty() && dirty.text_layout_nodes.is_empty()) || dirty.text);
    assert!(dirty.ui_slots.is_subset(&page_slots));
}

#[test]
fn completion_after_take_updates_checkbox_role_and_counter() {
    let mut scene = TodoMvcRetainedScene::new(SceneMode::Ui2D, 700, 700);
    let _ = scene.take_resource_dirty();
    assert!(scene.set_item_completed(3, true));
    assert!(!scene.set_item_completed(3, true));
    assert_eq!(node_text(&scene, "items_left_count"), "2");
    let checkbox = scene.item(3).unwrap().checkbox;
    assert_eq!(scene.scene().node(checkbox).unwrap().toggle_state, Some(ToggleState::On));
    let dirty = scene.take_resource_dirty();
    assert!(dirty.ui_slots.contains(&todo_item_ui_slot_for_index(3)));
}
