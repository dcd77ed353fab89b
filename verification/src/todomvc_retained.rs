//! The TodoMVC page as a retained scene: four list items, a filter bar and an
//! items-left counter, with the bookkeeping that tells the renderer which GPU
//! resources a change invalidates.
use crate::demo_core::{filter_admits, ListFilter};
use crate::retained::{
    flags_after_move, flags_grow, opt_string_view, root_node, lemma_dirty_ids_bounded, lemma_dirty_ids_flagged, node_from_descriptor, opt_text_view, Color, ElementKind, NodeId, Rect, RenderNode,
    RenderNodeDescriptor, RenderNodeKind, RetainedScene, SceneMode, ScrollState, SelectionState,
    TextNode, TextRole, ToggleState, UiVisualRole, UiVisualStyle,
};
use crate::text_util::{concat_str, decimal, decimal_string};
use crate::todomvc_common::{
    item_label_run, item_ui_slot, todo_item_ui_slot_for_index, TODO_TEXT_RUN_CLEAR_COMPLETED,
    TODO_TEXT_RUN_FILTER_ACTIVE, TODO_TEXT_RUN_FILTER_ALL, TODO_TEXT_RUN_FILTER_COMPLETED,
    TODO_TEXT_RUN_HEADING, TODO_TEXT_RUN_INFO_AUTHOR, TODO_TEXT_RUN_INFO_BRAND,
    TODO_TEXT_RUN_INFO_EDIT, TODO_TEXT_RUN_ITEMS_LEFT_COUNT, TODO_TEXT_RUN_ITEMS_LEFT_SUFFIX,
    TODO_TEXT_RUN_ITEM_BUY_LABEL, TODO_TEXT_RUN_ITEM_FINISH_LABEL, TODO_TEXT_RUN_ITEM_READ_LABEL,
    TODO_TEXT_RUN_ITEM_WALK_LABEL, TODO_TEXT_RUN_PLACEHOLDER, TODO_UI_PRIMS_PER_ITEM,
    TODO_UI_SLOT_FILTER_ACTIVE, TODO_UI_SLOT_FILTER_ALL, TODO_UI_SLOT_FILTER_COMPLETED,
    TODO_UI_SLOT_ITEM_BUY, TODO_UI_SLOT_ITEM_FINISH, TODO_UI_SLOT_ITEM_READ, TODO_UI_SLOT_ITEM_WALK,
};
use std::collections::{BTreeMap, BTreeSet};
use vstd::prelude::*;

verus! {

// Geometry, in tenths of a pixel.
pub const CARD_X: i64 = 750;
pub const CARD_Y: i64 = 1300;
pub const CARD_W: i64 = 5500;
pub const CARD_H: i64 = 3442;
pub const INPUT_H: i64 = 658;
pub const LIST_TOP: i64 = 1958;
pub const LIST_BOTTOM: i64 = 4334;
pub const FOOTER_H: i64 = 408;
pub const ITEM_H: i64 = 596;
pub const CHECKBOX_X: i64 = 840;
pub const CHECKBOX_Y_OFFSET: i64 = 128;
pub const CHECKBOX_SIZE: i64 = 340;
pub const LABEL_X: i64 = 1350;
pub const LABEL_Y_OFFSET: i64 = 158;
pub const LABEL_W: i64 = 2800;
pub const LABEL_H: i64 = 280;
pub const HIDDEN_ITEM_Y_OFFSET: i64 = 10000;
/// Number of list items of the page.
pub const TODO_ITEM_COUNT: usize = 4;

pub open spec fn rgb(r: u8, g: u8, b: u8) -> Color {
    Color { r, g, b, alpha_percent: 100 }
}

pub open spec fn clear_color() -> Color {
    Color { r: 0, g: 0, b: 0, alpha_percent: 0 }
}

fn color(r: u8, g: u8, b: u8, alpha_percent: u8) -> (c: Color)
    ensures
        c == (Color { r, g, b, alpha_percent }),
{
    Color { r, g, b, alpha_percent }
}

fn flat_style(base: Color, stroke_width: i32) -> (s: UiVisualStyle)
    ensures
        s == (UiVisualStyle {
            base_color: base,
            accent_color: clear_color(),
            detail_color: clear_color(),
            stroke_width,
            corner_radius: 0,
            offset: (0, 0),
            extra_size: (0, 0),
        }),
{
    UiVisualStyle {
        base_color: base,
        accent_color: color(0, 0, 0, 0),
        detail_color: color(0, 0, 0, 0),
        stroke_width,
        corner_radius: 0,
        offset: (0, 0),
        extra_size: (0, 0),
    }
}

pub fn todo_checkbox_style() -> (s: UiVisualStyle)
    ensures
        s == (UiVisualStyle {
            base_color: rgb(0x94, 0x94, 0x94),
            accent_color: rgb(0x59, 0xA1, 0x93),
            detail_color: rgb(0x3E, 0xA3, 0x90),
            stroke_width: 12,
            corner_radius: 0,
            offset: (0, 0),
            extra_size: (0, 0),
        }),
{
    UiVisualStyle {
        base_color: color(0x94, 0x94, 0x94, 100),
        accent_color: color(0x59, 0xA1, 0x93, 100),
        detail_color: color(0x3E, 0xA3, 0x90, 100),
        stroke_width: 12,
        corner_radius: 0,
        offset: (0, 0),
        extra_size: (0, 0),
    }
}

pub fn todo_completed_text_style() -> (s: UiVisualStyle)
    ensures
        s == (UiVisualStyle {
            base_color: rgb(0x94, 0x94, 0x94),
            accent_color: clear_color(),
            detail_color: clear_color(),
            stroke_width: 20,
            corner_radius: 0,
            offset: (0, 0),
            extra_size: (0, 0),
        }),
{
    flat_style(color(0x94, 0x94, 0x94, 100), 20)
}

pub fn todo_filter_outline_style() -> (s: UiVisualStyle)
    ensures
        s == (UiVisualStyle {
            base_color: rgb(0xCE, 0x46, 0x46),
            accent_color: clear_color(),
            detail_color: clear_color(),
            stroke_width: 8,
            corner_radius: 30,
            offset: (-78i32, -38i32),
            extra_size: (83i32, 94i32),
        }),
{
    UiVisualStyle {
        base_color: color(0xCE, 0x46, 0x46, 100),
        accent_color: color(0, 0, 0, 0),
        detail_color: color(0, 0, 0, 0),
        stroke_width: 8,
        corner_radius: 30,
        offset: (-78, -38),
        extra_size: (83, 94),
    }
}

/// A drop shadow of the given opacity, blur radius and vertical offset.
pub fn todo_box_shadow_style(alpha_percent: u8, blur: i32, offset_y: i32) -> (s: UiVisualStyle)
    ensures
        s == (UiVisualStyle {
            base_color: Color { r: 0, g: 0, b: 0, alpha_percent },
            accent_color: clear_color(),
            detail_color: clear_color(),
            stroke_width: 0,
            corner_radius: blur,
            offset: (0, offset_y),
            extra_size: (0, 0),
        }),
{
    UiVisualStyle {
        base_color: color(0, 0, 0, alpha_percent),
        accent_color: color(0, 0, 0, 0),
        detail_color: color(0, 0, 0, 0),
        stroke_width: 0,
        corner_radius: blur,
        offset: (0, offset_y),
        extra_size: (0, 0),
    }
}

pub fn todo_fill_style(r: u8, g: u8, b: u8, alpha_percent: u8) -> (s: UiVisualStyle)
    ensures
        s == (UiVisualStyle {
            base_color: Color { r, g, b, alpha_percent },
            accent_color: clear_color(),
            detail_color: clear_color(),
            stroke_width: 0,
            corner_radius: 0,
            offset: (0, 0),
            extra_size: (0, 0),
        }),
{
    flat_style(color(r, g, b, alpha_percent), 0)
}

pub fn todo_separator_style(r: u8, g: u8, b: u8) -> (s: UiVisualStyle)
    ensures
        s == (UiVisualStyle {
            base_color: rgb(r, g, b),
            accent_color: clear_color(),
            detail_color: clear_color(),
            stroke_width: 8,
            corner_radius: 0,
            offset: (0, 0),
            extra_size: (0, 0),
        }),
{
    flat_style(color(r, g, b, 100), 8)
}

pub fn todo_chevron_style() -> (s: UiVisualStyle)
    ensures
        s == (UiVisualStyle {
            base_color: rgb(0x94, 0x94, 0x94),
            accent_color: clear_color(),
            detail_color: clear_color(),
            stroke_width: 40,
            corner_radius: 0,
            offset: (0, 0),
            extra_size: (0, 0),
        }),
{
    flat_style(color(0x94, 0x94, 0x94, 100), 40)
}

pub fn todo_input_outline_style() -> (s: UiVisualStyle)
    ensures
        s == (UiVisualStyle {
            base_color: Color { r: 0xCE, g: 0x46, b: 0x46, alpha_percent: 60 },
            accent_color: clear_color(),
            detail_color: clear_color(),
            stroke_width: 8,
            corner_radius: 0,
            offset: (0, 0),
            extra_size: (0, 0),
        }),
{
    flat_style(color(0xCE, 0x46, 0x46, 60), 8)
}

/// Node ids and state of one list item.
#[derive(Debug)]
pub struct TodoItemNodeIds {
    pub item: NodeId,
    pub checkbox: NodeId,
    pub label: NodeId,
    pub label_text: String,
    pub completed: bool,
}

/// Changes that the scene's own dirty flags do not express precisely
/// enough: primitive slots and text nodes already known to need an update.
#[derive(Debug)]
struct PendingResourceChanges {
    ui_slots: BTreeSet<u16>,
    text_style_nodes: BTreeSet<NodeId>,
    text_layout_nodes: BTreeSet<NodeId>,
}

impl PendingResourceChanges {
    fn new() -> (r: Self)
        ensures
            r.ui_slots@ == Set::<u16>::empty(),
            r.text_style_nodes@ == Set::<NodeId>::empty(),
            r.text_layout_nodes@ == Set::<NodeId>::empty(),
    {
        PendingResourceChanges {
            ui_slots: BTreeSet::new(),
            text_style_nodes: BTreeSet::new(),
            text_layout_nodes: BTreeSet::new(),
        }
    }
}

/// Which GPU resources must be rebuilt: the UI primitives and/or the text,
/// either fully or only for the listed primitive slots and text nodes.
#[derive(Debug, PartialEq, Eq)]
pub struct TodoMvcResourceDirty {
    pub ui: bool,
    pub text: bool,
    pub full_ui: bool,
    pub full_text: bool,
    pub ui_slots: BTreeSet<u16>,
    pub text_style_nodes: BTreeSet<NodeId>,
    pub text_layout_nodes: BTreeSet<NodeId>,
}

/// Mathematical value of a `TodoMvcResourceDirty`.
pub struct DirtyView {
    pub ui: bool,
    pub text: bool,
    pub full_ui: bool,
    pub full_text: bool,
    pub ui_slots: Set<u16>,
    pub text_style_nodes: Set<NodeId>,
    pub text_layout_nodes: Set<NodeId>,
}

impl View for TodoMvcResourceDirty {
    type V = DirtyView;

    open spec fn view(&self) -> DirtyView {
        DirtyView {
            ui: self.ui,
            text: self.text,
            full_ui: self.full_ui,
            full_text: self.full_text,
            ui_slots: self.ui_slots@,
            text_style_nodes: self.text_style_nodes@,
            text_layout_nodes: self.text_layout_nodes@,
        }
    }
}

/// The primitive slots of the page: the four item rows and the three filter
/// buttons.
pub open spec fn page_ui_slots() -> Set<u16> {
    set![
        TODO_UI_SLOT_ITEM_READ,
        TODO_UI_SLOT_ITEM_FINISH,
        TODO_UI_SLOT_ITEM_WALK,
        TODO_UI_SLOT_ITEM_BUY,
        TODO_UI_SLOT_FILTER_ALL,
        TODO_UI_SLOT_FILTER_ACTIVE,
        TODO_UI_SLOT_FILTER_COMPLETED,
    ]
}

/// A plan of resource rebuilds hangs together: a full rebuild, a primitive
/// slot or a text node to rebuild each come with the rebuild of their kind,
/// and every slot is one of the page's.
pub open spec fn dirty_coherent(d: DirtyView) -> bool {
    &&& d.full_ui ==> d.ui
    &&& d.full_text ==> d.text
    &&& !d.ui_slots.is_empty() ==> d.ui
    &&& !d.text_style_nodes.is_empty() || !d.text_layout_nodes.is_empty() ==> d.text
    &&& d.ui_slots.subset_of(page_ui_slots())
}

pub open spec fn dirty_none() -> DirtyView {
    DirtyView {
        ui: false,
        text: false,
        full_ui: false,
        full_text: false,
        ui_slots: Set::empty(),
        text_style_nodes: Set::empty(),
        text_layout_nodes: Set::empty(),
    }
}

pub open spec fn dirty_all() -> DirtyView {
    DirtyView {
        ui: true,
        text: true,
        full_ui: true,
        full_text: true,
        ui_slots: Set::empty(),
        text_style_nodes: Set::empty(),
        text_layout_nodes: Set::empty(),
    }
}

impl TodoMvcResourceDirty {
    /// Nothing to rebuild.
    pub fn none() -> (r: Self)
        ensures
            r@ == dirty_none(),
    {
        TodoMvcResourceDirty {
            ui: false,
            text: false,
            full_ui: false,
            full_text: false,
            ui_slots: BTreeSet::new(),
            text_style_nodes: BTreeSet::new(),
            text_layout_nodes: BTreeSet::new(),
        }
    }

    /// Everything must be rebuilt.
    pub fn all() -> (r: Self)
        ensures
            r@ == dirty_all(),
    {
        TodoMvcResourceDirty {
            ui: true,
            text: true,
            full_ui: true,
            full_text: true,
            ui_slots: BTreeSet::new(),
            text_style_nodes: BTreeSet::new(),
            text_layout_nodes: BTreeSet::new(),
        }
    }

    /// Whether anything must be rebuilt.
    pub fn any(&self) -> (r: bool)
        ensures
            r == (self.ui || self.text),
    {
        self.ui || self.text
    }
}

/// Whether `after` extends `before` by `added` nodes, all of them dirty,
/// leaving the earlier nodes, their flags and the scene-wide state alone.
pub open spec fn scene_extends(before: RetainedScene, after: RetainedScene, added: nat) -> bool {
    &&& after.wf()
    &&& after.spec_nodes().len() == before.spec_nodes().len() + added
    &&& after.spec_dirty_flags().len() == before.spec_dirty_flags().len() + added
    &&& forall|k: int| 0 <= k < before.spec_nodes().len() ==> #[trigger] after.spec_nodes()[k] == before.spec_nodes()[k]
    &&& forall|k: int| 0 <= k < before.spec_dirty_flags().len() ==> #[trigger] after.spec_dirty_flags()[k] == before.spec_dirty_flags()[k]
    &&& after.spec_mode() == before.spec_mode()
    &&& after.spec_full_dirty() == before.spec_full_dirty()
}

/// Appends a node under a parent known to exist.
fn append(scene: &mut RetainedScene, parent: NodeId, descriptor: RenderNodeDescriptor) -> (id: NodeId)
    requires
        old(scene).wf(),
        parent < old(scene).spec_nodes().len(),
        old(scene).spec_nodes().len() < 1000,
    ensures
        id == old(scene).spec_nodes().len(),
        final(scene).spec_nodes() == old(scene).spec_nodes().push(node_from_descriptor(id, parent, descriptor)),
        final(scene).spec_dirty_flags() == old(scene).spec_dirty_flags().push(true),
        scene_extends(*old(scene), *final(scene), 1),
{
    let r = scene.append_node(parent, descriptor);
    match r {
        Some(id) => id,
        None => 0,
    }
}

pub open spec fn toggle_for(completed: bool) -> ToggleState {
    if completed {
        ToggleState::On
    } else {
        ToggleState::Off
    }
}

pub open spec fn role_for(completed: bool) -> TextRole {
    if completed {
        TextRole::Completed
    } else {
        TextRole::Active
    }
}

pub open spec fn selection_for(selected: bool) -> SelectionState {
    if selected {
        SelectionState::Selected
    } else {
        SelectionState::Unselected
    }
}

/// Number of items before `i` that pass `filter`.
pub open spec fn visible_before(flags: Seq<bool>, filter: ListFilter, i: int) -> nat
    decreases i,
{
    if i <= 0 {
        0
    } else if filter_admits(filter, flags[i - 1]) {
        visible_before(flags, filter, i - 1) + 1
    } else {
        visible_before(flags, filter, i - 1)
    }
}

/// Number of items that are not completed.
pub open spec fn active_count(flags: Seq<bool>) -> nat
    decreases flags.len(),
{
    if flags.len() == 0 {
        0
    } else {
        active_count(flags.drop_last()) + if flags.last() {
            0nat
        } else {
            1nat
        }
    }
}

/// Top edge of item `i`: items that pass the filter are stacked from the top
/// of the list in their order; the others are parked far below the list.
pub open spec fn item_row_y(flags: Seq<bool>, filter: ListFilter, i: int) -> i64 {
    if filter_admits(filter, flags[i]) {
        (LIST_TOP + visible_before(flags, filter, i) * ITEM_H) as i64
    } else {
        (LIST_BOTTOM + HIDDEN_ITEM_Y_OFFSET + i * ITEM_H) as i64
    }
}

pub open spec fn item_rect(y: i64) -> Rect {
    Rect { x: CARD_X, y, width: CARD_W, height: ITEM_H }
}

pub open spec fn checkbox_rect(y: i64) -> Rect {
    Rect { x: CHECKBOX_X, y: (y + CHECKBOX_Y_OFFSET) as i64, width: CHECKBOX_SIZE, height: CHECKBOX_SIZE }
}

pub open spec fn label_rect(y: i64) -> Rect {
    Rect { x: LABEL_X, y: (y + LABEL_Y_OFFSET) as i64, width: LABEL_W, height: LABEL_H }
}

/// The TodoMVC page as a retained scene.
pub struct TodoMvcRetainedScene {
    scene: RetainedScene,
    viewport: NodeId,
    list_scroll: NodeId,
    items_left_count: NodeId,
    filter_all: NodeId,
    filter_active: NodeId,
    filter_completed: NodeId,
    items: Vec<TodoItemNodeIds>,
    item_node_indices: BTreeMap<NodeId, usize>,
    filter: ListFilter,
    pending_changes: PendingResourceChanges,
}

impl TodoMvcRetainedScene {
    pub closed spec fn spec_scene(&self) -> RetainedScene {
        self.scene
    }

    pub closed spec fn spec_items(&self) -> Seq<TodoItemNodeIds> {
        self.items@
    }

    pub closed spec fn spec_filter(&self) -> ListFilter {
        self.filter
    }

    pub closed spec fn viewport_id(&self) -> NodeId {
        self.viewport
    }

    pub closed spec fn list_scroll_id(&self) -> NodeId {
        self.list_scroll
    }

    pub closed spec fn items_left_count_id(&self) -> NodeId {
        self.items_left_count
    }

    pub closed spec fn filter_ids(&self) -> (NodeId, NodeId, NodeId) {
        (self.filter_all, self.filter_active, self.filter_completed)
    }

    pub closed spec fn item_index_map(&self) -> Map<NodeId, usize> {
        self.item_node_indices@
    }

    pub closed spec fn pending_ui_slots(&self) -> Set<u16> {
        self.pending_changes.ui_slots@
    }

    pub closed spec fn pending_text_style_nodes(&self) -> Set<NodeId> {
        self.pending_changes.text_style_nodes@
    }

    pub closed spec fn pending_text_layout_nodes(&self) -> Set<NodeId> {
        self.pending_changes.text_layout_nodes@
    }

    /// Completion state of each item.
    pub open spec fn completed_flags(&self) -> Seq<bool> {
        Seq::new(self.spec_items().len(), |i: int| self.spec_items()[i].completed)
    }

    /// Node `k` of item `i`: 0 the row, 1 the checkbox, 2 the label.
    pub open spec fn item_node(&self, i: int, k: int) -> NodeId {
        if k == 0 {
            self.spec_items()[i].item
        } else if k == 1 {
            self.spec_items()[i].checkbox
        } else {
            self.spec_items()[i].label
        }
    }

    /// Shape invariant, kept by every operation.
    pub open spec fn wf(&self) -> bool {
        &&& self.spec_scene().wf()
        &&& self.spec_items().len() == TODO_ITEM_COUNT
        &&& forall|id: NodeId| #[trigger] self.item_index_map().contains_key(id) ==> self.item_index_map()[id]
            < TODO_ITEM_COUNT
        &&& self.pending_ui_slots().subset_of(page_ui_slots())
    }

    /// The remembered node ids denote distinct nodes of the scene, and the
    /// node index maps every item node to its item.
    pub open spec fn linked(&self) -> bool {
        let n = self.spec_scene().spec_nodes().len();
        &&& self.viewport_id() < n
        &&& self.list_scroll_id() < n
        &&& self.items_left_count_id() < n
        &&& self.filter_ids().0 < n
        &&& self.filter_ids().1 < n
        &&& self.filter_ids().2 < n
        &&& forall|i: int, k: int| 0 <= i < 4 && 0 <= k < 3 ==> #[trigger] self.item_node(i, k) < n
        &&& forall|i: int, k: int| 0 <= i < 4 && 0 <= k < 3 ==> #[trigger] self.item_node(i, k) != self.items_left_count_id()
        &&& forall|i: int, k: int| 0 <= i < 4 && 0 <= k < 3 ==> {
            &&& #[trigger] self.item_node(i, k) != self.filter_ids().0
            &&& self.item_node(i, k) != self.filter_ids().1
            &&& self.item_node(i, k) != self.filter_ids().2
        }
        &&& self.filter_ids().0 != self.filter_ids().1
        &&& self.filter_ids().0 != self.filter_ids().2
        &&& self.filter_ids().1 != self.filter_ids().2
        &&& self.items_left_count_id() != self.filter_ids().0
        &&& self.items_left_count_id() != self.filter_ids().1
        &&& self.items_left_count_id() != self.filter_ids().2
        &&& forall|i: int, k: int, j: int, l: int|
            0 <= i < 4 && 0 <= k < 3 && 0 <= j < 4 && 0 <= l < 3 && (i != j || k != l)
                ==> #[trigger] self.item_node(i, k) != #[trigger] self.item_node(j, l)
        &&& forall|i: int, k: int| 0 <= i < 4 && 0 <= k < 3 ==> #[trigger] self.item_index_map().contains_key(self.item_node(i, k))
            && self.item_index_map()[self.item_node(i, k)] == i
    }

    /// The scene shows the model: row positions follow the filter, checkbox,
    /// text role and label follow each item, the counter shows the number of
    /// active items and the filter buttons show the selected filter.
    pub open spec fn consistent(&self) -> bool {
        &&& self.consistent_content()
        &&& forall|i: int| 0 <= i < 4 ==> #[trigger] self.item_in_place(i)
    }

    /// Everything `consistent` asks but the row positions.
    pub open spec fn consistent_content(&self) -> bool {
        let nodes = self.spec_scene().spec_nodes();
        let flags = self.completed_flags();
        &&& forall|i: int| 0 <= i < 4 ==> {
            let item = #[trigger] self.spec_items()[i];
            &&& nodes[item.checkbox as int].toggle_state == Some(toggle_for(item.completed))
            &&& nodes[item.label as int].text_role == Some(role_for(item.completed))
            &&& opt_text_view(nodes[item.label as int].text) == Some((item.label_text@, 240u32))
        }
        &&& opt_text_view(nodes[self.items_left_count_id() as int].text) == Some((decimal(active_count(flags)), 150u32))
        &&& nodes[self.filter_ids().0 as int].selection_state == Some(selection_for(self.spec_filter() == ListFilter::All))
        &&& nodes[self.filter_ids().1 as int].selection_state == Some(selection_for(self.spec_filter() == ListFilter::Active))
        &&& nodes[self.filter_ids().2 as int].selection_state == Some(selection_for(self.spec_filter() == ListFilter::Completed))
    }
}

/// The page as `TodoMvcRetainedScene::new` builds it: "Read documentation",
/// "Finish TodoMVC renderer" (completed), "Walk the dog" and "Buy
/// groceries", all shown, a `width` by `height` viewport, nothing pending.
pub open spec fn fresh_page(r: TodoMvcRetainedScene, mode: SceneMode, width: u32, height: u32) -> bool {
    &&& r.wf()
    &&& r.linked()
    &&& r.consistent()
    &&& r.spec_filter() == ListFilter::All
    &&& r.completed_flags() == seq![false, true, false, false]
    &&& r.spec_items()[0].label_text@ == "Read documentation"@
    &&& r.spec_items()[1].label_text@ == "Finish TodoMVC renderer"@
    &&& r.spec_items()[2].label_text@ == "Walk the dog"@
    &&& r.spec_items()[3].label_text@ == "Buy groceries"@
    &&& r.spec_scene().spec_mode() == mode
    &&& r.spec_scene().spec_nodes()[r.viewport_id() as int].bounds == (Rect {
        x: 0,
        y: 0,
        width: (width * 10) as i64,
        height: (height * 10) as i64,
    })
    &&& r.pending_ui_slots().is_empty()
    &&& r.pending_text_style_nodes().is_empty()
    &&& r.pending_text_layout_nodes().is_empty()
}

/// Only the dirty flags of the scene differ between `a` and `b`.
pub open spec fn same_but_dirty_flags(a: TodoMvcRetainedScene, b: TodoMvcRetainedScene) -> bool {
    &&& b.spec_scene().wf()
    &&& b.spec_scene().spec_nodes() == a.spec_scene().spec_nodes()
    &&& b.spec_scene().spec_mode() == a.spec_scene().spec_mode()
    &&& b.same_model_but_dirty(&a)
}

/// A fresh page stays fresh when only its dirty flags change.
pub(crate) proof fn lemma_fresh_page_dirty_free(
    a: TodoMvcRetainedScene,
    b: TodoMvcRetainedScene,
    mode: SceneMode,
    width: u32,
    height: u32,
)
    requires
        fresh_page(a, mode, width, height),
        same_but_dirty_flags(a, b),
    ensures
        fresh_page(b, mode, width, height),
{
    assert forall|i: int, k: int| 0 <= i < 4 && 0 <= k < 3 implies #[trigger] b.item_node(i, k) == a.item_node(i, k) by {}
    assert(b.completed_flags() =~= a.completed_flags());
    assert forall|i: int| 0 <= i < 4 implies #[trigger] b.item_in_place(i) by {
        assert(a.item_in_place(i));
    }
}

/// Node `id` of `nodes` hangs from `parent`, is a `kind` node showing
/// `element`, is named `name`, and carries `text`, `text_slot` and
/// `ui_slot`; it has a toggle state when `toggles` and a selection state
/// when `selects`, clips exactly when it is a clip and scrolls exactly when
/// it is a scroll container.
pub open spec fn node_is(
    nodes: Seq<RenderNode>,
    id: int,
    parent: int,
    kind: RenderNodeKind,
    element: ElementKind,
    name: Seq<char>,
    text: Option<(Seq<char>, u32)>,
    text_slot: Option<u16>,
    ui_slot: Option<u16>,
    toggles: bool,
    selects: bool,
) -> bool {
    let n = nodes[id];
    &&& n.id == id
    &&& n.parent == Some(parent as NodeId)
    &&& n.kind == kind
    &&& n.element == element
    &&& opt_string_view(n.name) == Some(name)
    &&& opt_text_view(n.text) == text
    &&& n.text_slot == text_slot
    &&& n.ui_slot == ui_slot
    &&& (n.toggle_state is Some) == toggles
    &&& (n.selection_state is Some) == selects
    &&& n.clip == (element == ElementKind::Clip)
    &&& (n.scroll is Some) == (element == ElementKind::ScrollContainer)
}

/// A plain node: no text, no slots, no toggle or selection state.
pub open spec fn plain_node_is(
    nodes: Seq<RenderNode>,
    id: int,
    parent: int,
    kind: RenderNodeKind,
    element: ElementKind,
    name: Seq<char>,
) -> bool {
    node_is(nodes, id, parent, kind, element, name, None, None, None, false, false)
}

/// The nodes of the page frame, ids 1 to 20: viewport, heading, card with
/// its shadows and fills, input row with chevron and placeholder, list clip,
/// list scroll root and the separators.
pub open spec fn frame_nodes_are(nodes: Seq<RenderNode>) -> bool {
    let prim = RenderNodeKind::Primitive;
    &&& node_is(nodes, 1, 0, RenderNodeKind::Viewport, ElementKind::Viewport, "viewport"@, None, None, None, false, false)
    &&& node_is(nodes, 2, 1, prim, ElementKind::Heading, "heading"@, Some(("todos"@, 800u32)), Some(TODO_TEXT_RUN_HEADING), None, false, false)
    &&& plain_node_is(nodes, 3, 1, prim, ElementKind::Shadow, "card_shadow"@)
    &&& plain_node_is(nodes, 4, 1, prim, ElementKind::Shadow, "stack_back_shadow"@)
    &&& plain_node_is(nodes, 5, 1, prim, ElementKind::Panel, "stack_back_fill"@)
    &&& plain_node_is(nodes, 6, 1, prim, ElementKind::Shadow, "stack_mid_shadow"@)
    &&& plain_node_is(nodes, 7, 1, prim, ElementKind::Panel, "stack_mid_fill"@)
    &&& plain_node_is(nodes, 8, 1, prim, ElementKind::Panel, "card"@)
    &&& plain_node_is(nodes, 9, 1, prim, ElementKind::Shadow, "card_edge_shadow"@)
    &&& plain_node_is(nodes, 10, 8, prim, ElementKind::Panel, "card_top_highlight"@)
    &&& plain_node_is(nodes, 11, 8, prim, ElementKind::Input, "input"@)
    &&& plain_node_is(nodes, 12, 11, prim, ElementKind::Separator, "input_chevron"@)
    &&& node_is(nodes, 13, 11, prim, ElementKind::Text, "placeholder"@, Some(("What needs to be done?"@, 240u32)), Some(TODO_TEXT_RUN_PLACEHOLDER), None, false, false)
    &&& plain_node_is(nodes, 14, 8, RenderNodeKind::Clip, ElementKind::Clip, "list_clip"@)
    &&& plain_node_is(nodes, 15, 14, RenderNodeKind::ScrollRoot, ElementKind::ScrollContainer, "list_scroll"@)
    &&& plain_node_is(nodes, 16, 8, prim, ElementKind::Separator, "sep_finish"@)
    &&& plain_node_is(nodes, 17, 8, prim, ElementKind::Separator, "sep_walk"@)
    &&& plain_node_is(nodes, 18, 8, prim, ElementKind::Separator, "sep_buy"@)
    &&& plain_node_is(nodes, 19, 8, prim, ElementKind::Separator, "sep_footer"@)
    &&& plain_node_is(nodes, 20, 8, prim, ElementKind::Separator, "sep_input"@)
}

/// The row, checkbox and label of a list item, ids `base` to `base + 2`,
/// under the list scroll root `list`.
pub open spec fn item_nodes_are(
    nodes: Seq<RenderNode>,
    base: int,
    list: int,
    name: Seq<char>,
    label: Seq<char>,
    completed: bool,
    ui_slot: u16,
    label_slot: u16,
) -> bool {
    let prim = RenderNodeKind::Primitive;
    &&& node_is(nodes, base, list, RenderNodeKind::Group, ElementKind::Group, name, None, None, Some(ui_slot), false, false)
    &&& node_is(
        nodes,
        base + 1,
        base,
        prim,
        ElementKind::Checkbox,
        name + "_checkbox"@,
        Some((if completed { "checkbox_checked"@ } else { "checkbox"@ }, 0u32)),
        None,
        None,
        true,
        false,
    )
    &&& node_is(nodes, base + 2, base, prim, ElementKind::Text, name + "_label"@, Some((label, 240u32)), Some(label_slot), None, false, false)
}

/// The footer, ids `base` to `base + 6`, under `card`: the counter, its
/// suffix, the three filter buttons and the clear-completed button.
pub open spec fn footer_nodes_are(nodes: Seq<RenderNode>, base: int, card: int) -> bool {
    let prim = RenderNodeKind::Primitive;
    &&& plain_node_is(nodes, base, card, prim, ElementKind::Footer, "footer"@)
    &&& node_is(nodes, base + 1, base, prim, ElementKind::Text, "items_left_count"@, Some(("3"@, 150u32)), Some(TODO_TEXT_RUN_ITEMS_LEFT_COUNT), None, false, true)
    &&& node_is(nodes, base + 2, base, prim, ElementKind::Text, "items_left_suffix"@, Some((" items left"@, 150u32)), Some(TODO_TEXT_RUN_ITEMS_LEFT_SUFFIX), None, false, true)
    &&& node_is(nodes, base + 3, base, prim, ElementKind::Button, "filter_all"@, Some(("All"@, 150u32)), Some(TODO_TEXT_RUN_FILTER_ALL), Some(TODO_UI_SLOT_FILTER_ALL), false, true)
    &&& node_is(nodes, base + 4, base, prim, ElementKind::Button, "filter_active"@, Some(("Active"@, 150u32)), Some(TODO_TEXT_RUN_FILTER_ACTIVE), Some(TODO_UI_SLOT_FILTER_ACTIVE), false, true)
    &&& node_is(nodes, base + 5, base, prim, ElementKind::Button, "filter_completed"@, Some(("Completed"@, 150u32)), Some(TODO_TEXT_RUN_FILTER_COMPLETED), Some(TODO_UI_SLOT_FILTER_COMPLETED), false, true)
    &&& node_is(nodes, base + 6, base, prim, ElementKind::Button, "clear_completed"@, Some(("Clear completed"@, 150u32)), Some(TODO_TEXT_RUN_CLEAR_COMPLETED), None, false, true)
}

/// The credits, ids `base` to `base + 3`, under `viewport`.
pub open spec fn info_nodes_are(nodes: Seq<RenderNode>, base: int, viewport: int) -> bool {
    let prim = RenderNodeKind::Primitive;
    &&& plain_node_is(nodes, base, viewport, RenderNodeKind::Group, ElementKind::Info, "info"@)
    &&& node_is(nodes, base + 1, base, prim, ElementKind::Text, "info_edit"@, Some(("Double-click to edit a todo"@, 110u32)), Some(TODO_TEXT_RUN_INFO_EDIT), None, false, false)
    &&& node_is(nodes, base + 2, base, prim, ElementKind::Text, "info_author"@, Some(("Created by Martin Kav\u{00ED}k"@, 110u32)), Some(TODO_TEXT_RUN_INFO_AUTHOR), None, false, false)
    &&& node_is(nodes, base + 3, base, prim, ElementKind::Text, "info_brand"@, Some(("Part of TodoMVC"@, 110u32)), Some(TODO_TEXT_RUN_INFO_BRAND), None, false, false)
}

/// The page's node list as the constructor builds it: the root, the frame,
/// the four items, the footer and the credits, 44 nodes in all.
pub open spec fn page_nodes_are(nodes: Seq<RenderNode>) -> bool {
    &&& nodes.len() == 44
    &&& nodes[0] == root_node()
    &&& frame_nodes_are(nodes)
    &&& item_nodes_are(nodes, 21, 15, "item_read"@, "Read documentation"@, false, TODO_UI_SLOT_ITEM_READ, TODO_TEXT_RUN_ITEM_READ_LABEL)
    &&& item_nodes_are(nodes, 24, 15, "item_finish"@, "Finish TodoMVC renderer"@, true, TODO_UI_SLOT_ITEM_FINISH, TODO_TEXT_RUN_ITEM_FINISH_LABEL)
    &&& item_nodes_are(nodes, 27, 15, "item_walk"@, "Walk the dog"@, false, TODO_UI_SLOT_ITEM_WALK, TODO_TEXT_RUN_ITEM_WALK_LABEL)
    &&& item_nodes_are(nodes, 30, 15, "item_buy"@, "Buy groceries"@, false, TODO_UI_SLOT_ITEM_BUY, TODO_TEXT_RUN_ITEM_BUY_LABEL)
    &&& footer_nodes_are(nodes, 33, 8)
    &&& info_nodes_are(nodes, 40, 1)
}

/// Ids of the nodes of the page frame that the list and footer hang from.
struct FrameIds {
    viewport: NodeId,
    heading: NodeId,
    card_shadow: NodeId,
    card: NodeId,
    list_scroll: NodeId,
}

fn shadow_node(x: i64, y: i64, w: i64, h: i64, name: &str) -> (d: RenderNodeDescriptor)
    ensures
        d.kind == RenderNodeKind::Primitive,
        d.element == ElementKind::Shadow,
        opt_string_view(d.name) == Some(name@),
        d.ui_slot is None,
        d.text_slot is None,
        d.text is None,
        d.toggle_state is None,
        d.selection_state is None,
        !d.clip,
        d.scroll is None,
{
    RenderNodeDescriptor::new(RenderNodeKind::Primitive, ElementKind::Shadow, Rect::new(x, y, w, h))
        .named(name)
        .with_key(name)
        .with_ui_visual_role(UiVisualRole::BoxShadow)
        .with_ui_visual_style(todo_box_shadow_style(20, 10, -10))
}

fn fill_node(x: i64, y: i64, w: i64, h: i64, name: &str, style: UiVisualStyle) -> (d: RenderNodeDescriptor)
    ensures
        d.kind == RenderNodeKind::Primitive,
        d.element == ElementKind::Panel,
        opt_string_view(d.name) == Some(name@),
        d.ui_slot is None,
        d.text_slot is None,
        d.text is None,
        d.toggle_state is None,
        d.selection_state is None,
        !d.clip,
        d.scroll is None,
{
    RenderNodeDescriptor::new(RenderNodeKind::Primitive, ElementKind::Panel, Rect::new(x, y, w, h))
        .named(name)
        .with_key(name)
        .with_ui_visual_role(UiVisualRole::FilledSurface)
        .with_ui_visual_style(style)
}

/// The viewport, heading, card with its shadows, the input row, the
/// clipped scrolling list and the row separators.
fn build_frame(scene: &mut RetainedScene, mode: SceneMode, width: u32, height: u32) -> (ids: FrameIds)
    requires
        old(scene).wf(),
        old(scene).spec_nodes().len() == 1,
    ensures
        scene_extends(*old(scene), *final(scene), 20),
        ids.viewport == 1,
        ids.heading == 2,
        ids.card_shadow == 3,
        ids.card == 8,
        ids.list_scroll == 15,
        final(scene).spec_nodes()[1].bounds == (Rect { x: 0, y: 0, width: (width * 10) as i64, height: (height * 10) as i64 }),
        final(scene).spec_nodes()[1].kind == RenderNodeKind::Viewport,
        final(scene).spec_nodes()[15].kind == RenderNodeKind::ScrollRoot,
        final(scene).spec_nodes()[15].scroll is Some,
        final(scene).spec_nodes()[14].clip,
        frame_nodes_are(final(scene).spec_nodes()),
{
    let root = scene.root();
    let viewport = append(
        scene,
        root,
        RenderNodeDescriptor::new(
            RenderNodeKind::Viewport,
            ElementKind::Viewport,
            Rect::new(0, 0, width as i64 * 10, height as i64 * 10),
        ).named("viewport").with_key("viewport"),
    );
    let heading = append(
        scene,
        viewport,
        RenderNodeDescriptor::new(RenderNodeKind::Primitive, ElementKind::Heading, Rect::new(2521, 84, 1957, 896))
            .named("heading")
            .with_key("heading")
            .with_text_slot(TODO_TEXT_RUN_HEADING)
            .with_text("todos", 800)
            .with_text_role(TextRole::Heading),
    );
    let card_shadow = append(
        scene,
        viewport,
        RenderNodeDescriptor::new(RenderNodeKind::Primitive, ElementKind::Shadow, Rect::new(CARD_X, CARD_Y, CARD_W, CARD_H))
            .named("card_shadow")
            .with_key("card_shadow")
            .with_ui_visual_role(UiVisualRole::BoxShadow)
            .with_ui_visual_style(todo_box_shadow_style(10, 500, -250))
            .with_material(0, 0, 0),
    );
    let _stack_back_shadow = append(scene, viewport, shadow_node(CARD_X + 40, CARD_Y + CARD_H, CARD_W - 80, 80, "stack_back_shadow"));
    let _stack_back_fill = append(
        scene,
        viewport,
        fill_node(CARD_X + 40, CARD_Y + CARD_H, CARD_W - 80, 80, "stack_back_fill", todo_fill_style(252, 252, 252, 100)),
    );
    let _stack_mid_shadow = append(scene, viewport, shadow_node(CARD_X + 20, CARD_Y + CARD_H, CARD_W - 40, 40, "stack_mid_shadow"));
    let _stack_mid_fill = append(
        scene,
        viewport,
        fill_node(CARD_X + 20, CARD_Y + CARD_H, CARD_W - 40, 40, "stack_mid_fill", todo_fill_style(252, 252, 252, 100)),
    );
    let card_material = match mode {
        SceneMode::UiPhysical => 100,
        SceneMode::Ui2D => 0,
    };
    let card = append(
        scene,
        viewport,
        fill_node(CARD_X, CARD_Y, CARD_W, CARD_H, "card", todo_fill_style(255, 255, 255, 100)).with_material(card_material, 0, 0),
    );
    let _card_edge_shadow = append(scene, viewport, shadow_node(CARD_X, CARD_Y, CARD_W, CARD_H, "card_edge_shadow"));
    let _card_top_highlight = append(
        scene,
        card,
        fill_node(CARD_X, CARD_Y, CARD_W, 20, "card_top_highlight", todo_fill_style(0, 0, 0, 3)),
    );
    let input = append(
        scene,
        card,
        RenderNodeDescriptor::new(RenderNodeKind::Primitive, ElementKind::Input, Rect::new(CARD_X, CARD_Y, CARD_W, INPUT_H))
            .named("input")
            .with_key("input")
            .with_ui_visual_role(UiVisualRole::OutlineRect)
            .with_ui_visual_style(todo_input_outline_style()),
    );
    let _chevron = append(
        scene,
        input,
        RenderNodeDescriptor::new(RenderNodeKind::Primitive, ElementKind::Separator, Rect::new(CARD_X + 160, 1588, 200, 90))
            .named("input_chevron")
            .with_key("input_chevron")
            .with_ui_visual_role(UiVisualRole::ChevronMark)
            .with_ui_visual_style(todo_chevron_style()),
    );
    let _placeholder = append(
        scene,
        input,
        RenderNodeDescriptor::new(RenderNodeKind::Primitive, ElementKind::Text, Rect::new(1350, 1484, 2680, 336))
            .named("placeholder")
            .with_key("placeholder")
            .with_text_slot(TODO_TEXT_RUN_PLACEHOLDER)
            .with_text("What needs to be done?", 240)
            .with_text_role(TextRole::Placeholder),
    );
    let list_clip = append(
        scene,
        card,
        RenderNodeDescriptor::new(RenderNodeKind::Clip, ElementKind::Clip, Rect::new(CARD_X, LIST_TOP, CARD_W, LIST_BOTTOM - LIST_TOP))
            .named("list_clip")
            .with_key("list_clip")
            .with_clip(),
    );
    let list_scroll = append(
        scene,
        list_clip,
        RenderNodeDescriptor::new(
            RenderNodeKind::ScrollRoot,
            ElementKind::ScrollContainer,
            Rect::new(CARD_X, LIST_TOP, CARD_W, LIST_BOTTOM - LIST_TOP),
        ).named("list_scroll").with_key("list_scroll").with_scroll(
            ScrollState::new(CARD_W, LIST_BOTTOM - LIST_TOP, CARD_W, LIST_BOTTOM - LIST_TOP),
        ),
    );
    append(scene, card, separator_node("sep_finish", 2554, 237, 237, 237));
    append(scene, card, separator_node("sep_walk", 3150, 237, 237, 237));
    append(scene, card, separator_node("sep_buy", 3746, 237, 237, 237));
    append(scene, card, separator_node("sep_footer", 4334, 230, 230, 230));
    append(scene, card, separator_node("sep_input", 1958, 237, 237, 237));
    FrameIds { viewport, heading, card_shadow, card, list_scroll }
}

fn separator_node(name: &str, y: i64, r: u8, g: u8, b: u8) -> (d: RenderNodeDescriptor)
    ensures
        d.kind == RenderNodeKind::Primitive,
        d.element == ElementKind::Separator,
        opt_string_view(d.name) == Some(name@),
        d.ui_slot is None,
        d.text_slot is None,
        d.text is None,
        d.toggle_state is None,
        d.selection_state is None,
        !d.clip,
        d.scroll is None,
{
    RenderNodeDescriptor::new(RenderNodeKind::Primitive, ElementKind::Separator, Rect::new(CARD_X, y, CARD_W, 0))
        .named(name)
        .with_key(name)
        .with_ui_visual_role(UiVisualRole::SeparatorLine)
        .with_ui_visual_style(todo_separator_style(r, g, b))
}

/// Appends the row, checkbox and label of one list item under `list_scroll`.
fn append_todo_item(
    scene: &mut RetainedScene,
    list_scroll: NodeId,
    mode: SceneMode,
    name: &str,
    label: &str,
    y: i64,
    completed: bool,
    role: TextRole,
    ui_slot: u16,
    label_slot: u16,
) -> (ids: TodoItemNodeIds)
    requires
        old(scene).wf(),
        list_scroll < old(scene).spec_nodes().len(),
        old(scene).spec_nodes().len() < 900,
        -100000 <= y <= 100000,
    ensures
        scene_extends(*old(scene), *final(scene), 3),
        ids.item == old(scene).spec_nodes().len(),
        ids.checkbox == ids.item + 1,
        ids.label == ids.item + 2,
        ids.completed == completed,
        ids.label_text@ == label@,
        final(scene).spec_nodes()[ids.item as int].bounds == item_rect(y),
        final(scene).spec_nodes()[ids.checkbox as int].bounds == checkbox_rect(y),
        final(scene).spec_nodes()[ids.label as int].bounds == label_rect(y),
        final(scene).spec_nodes()[ids.checkbox as int].toggle_state == Some(toggle_for(completed)),
        final(scene).spec_nodes()[ids.label as int].text_role == Some(role),
        opt_text_view(final(scene).spec_nodes()[ids.label as int].text) == Some((label@, 240u32)),
        item_nodes_are(final(scene).spec_nodes(), ids.item as int, list_scroll as int, name@, label@, completed, ui_slot, label_slot),
{
    let item_material = match mode {
        SceneMode::UiPhysical => 20,
        SceneMode::Ui2D => 0,
    };
    let item = append(
        scene,
        list_scroll,
        RenderNodeDescriptor::new(RenderNodeKind::Group, ElementKind::Group, Rect::new(CARD_X, y, CARD_W, ITEM_H))
            .named(name)
            .with_key(name)
            .with_ui_slot(ui_slot)
            .with_ui_primitive_count(TODO_UI_PRIMS_PER_ITEM as u16)
            .with_material(item_material, 0, 0),
    );
    let checkbox_name = concat_str(name, "_checkbox");
    let label_name = concat_str(name, "_label");
    let checkbox_label = if completed {
        "checkbox_checked"
    } else {
        "checkbox"
    };
    let toggle = if completed {
        ToggleState::On
    } else {
        ToggleState::Off
    };
    let checkbox = append(
        scene,
        item,
        RenderNodeDescriptor::new(
            RenderNodeKind::Primitive,
            ElementKind::Checkbox,
            Rect::new(CHECKBOX_X, y + CHECKBOX_Y_OFFSET, CHECKBOX_SIZE, CHECKBOX_SIZE),
        )
            .named(checkbox_name.as_str())
            .with_key(checkbox_name.as_str())
            .with_text(checkbox_label, 0)
            .with_ui_visual_role(UiVisualRole::CheckboxControl)
            .with_ui_visual_style(todo_checkbox_style())
            .with_toggle_state(toggle),
    );
    let label_node = append(
        scene,
        item,
        RenderNodeDescriptor::new(
            RenderNodeKind::Primitive,
            ElementKind::Text,
            Rect::new(LABEL_X, y + LABEL_Y_OFFSET, LABEL_W, LABEL_H),
        )
            .named(label_name.as_str())
            .with_key(label_name.as_str())
            .with_text_slot(label_slot)
            .with_text(label, 240)
            .with_ui_visual_role(UiVisualRole::CompletedTextDecoration)
            .with_ui_visual_style(todo_completed_text_style())
            .with_text_role(role),
    );
    TodoItemNodeIds { item, checkbox, label: label_node, label_text: String::from_str(label), completed }
}

/// Ids of the footer nodes the scene updates later.
struct FooterIds {
    items_left_count: NodeId,
    filter_all: NodeId,
    filter_active: NodeId,
    filter_completed: NodeId,
}

fn footer_text(
    name: &str,
    text: &str,
    bounds: Rect,
    element: ElementKind,
    text_slot: u16,
    selection: SelectionState,
    filter_slot: Option<u16>,
) -> (d: RenderNodeDescriptor)
    ensures
        d.kind == RenderNodeKind::Primitive,
        d.element == element,
        opt_string_view(d.name) == Some(name@),
        d.ui_slot == filter_slot,
        d.text matches Some(t) && t.text@ == text@ && t.font_size == 150,
        d.selection_state == Some(selection),
        d.text_slot == Some(text_slot),
        d.toggle_state is None,
        !d.clip,
        d.scroll is None,
{
    let descriptor = RenderNodeDescriptor::new(RenderNodeKind::Primitive, element, bounds)
        .named(name)
        .with_key(name)
        .with_text_slot(text_slot)
        .with_text(text, 150)
        .with_text_role(TextRole::Body)
        .with_selection_state(selection);
    match filter_slot {
        Some(slot) => descriptor
            .with_ui_slot(slot)
            .with_ui_primitive_count(1)
            .with_ui_visual_role(UiVisualRole::SelectionOutline)
            .with_ui_visual_style(todo_filter_outline_style()),
        None => descriptor,
    }
}

/// The footer: items-left counter, the three filter buttons and the
/// clear-completed button.
fn build_footer(scene: &mut RetainedScene, card: NodeId) -> (ids: FooterIds)
    requires
        old(scene).wf(),
        card < old(scene).spec_nodes().len(),
        old(scene).spec_nodes().len() < 900,
    ensures
        scene_extends(*old(scene), *final(scene), 7),
        ids.items_left_count == old(scene).spec_nodes().len() + 1,
        ids.filter_all == old(scene).spec_nodes().len() + 3,
        ids.filter_active == old(scene).spec_nodes().len() + 4,
        ids.filter_completed == old(scene).spec_nodes().len() + 5,
        opt_text_view(final(scene).spec_nodes()[ids.items_left_count as int].text) == Some(("3"@, 150u32)),
        final(scene).spec_nodes()[ids.filter_all as int].selection_state == Some(SelectionState::Selected),
        final(scene).spec_nodes()[ids.filter_active as int].selection_state == Some(SelectionState::Unselected),
        final(scene).spec_nodes()[ids.filter_completed as int].selection_state == Some(SelectionState::Unselected),
        footer_nodes_are(final(scene).spec_nodes(), old(scene).spec_nodes().len() as int, card as int),
{
    let footer = append(
        scene,
        card,
        RenderNodeDescriptor::new(RenderNodeKind::Primitive, ElementKind::Footer, Rect::new(CARD_X, LIST_BOTTOM, CARD_W, FOOTER_H))
            .named("footer")
            .with_key("footer"),
    );
    let items_left_count = append(
        scene,
        footer,
        footer_text(
            "items_left_count",
            "3",
            Rect::new(900, 4450, 83, 150),
            ElementKind::Text,
            TODO_TEXT_RUN_ITEMS_LEFT_COUNT,
            SelectionState::Unselected,
            None,
        ),
    );
    append(
        scene,
        footer,
        footer_text(
            "items_left_suffix",
            " items left",
            Rect::new(983, 4450, 797, 150),
            ElementKind::Text,
            TODO_TEXT_RUN_ITEMS_LEFT_SUFFIX,
            SelectionState::Unselected,
            None,
        ),
    );
    let filter_all = append(
        scene,
        footer,
        footer_text(
            "filter_all",
            "All",
            Rect::new(2634, 4450, 240, 150),
            ElementKind::Button,
            TODO_TEXT_RUN_FILTER_ALL,
            SelectionState::Selected,
            Some(TODO_UI_SLOT_FILTER_ALL),
        ),
    );
    let filter_active = append(
        scene,
        footer,
        footer_text(
            "filter_active",
            "Active",
            Rect::new(3016, 4450, 440, 150),
            ElementKind::Button,
            TODO_TEXT_RUN_FILTER_ACTIVE,
            SelectionState::Unselected,
            Some(TODO_UI_SLOT_FILTER_ACTIVE),
        ),
    );
    let filter_completed = append(
        scene,
        footer,
        footer_text(
            "filter_completed",
            "Completed",
            Rect::new(3641, 4450, 750, 150),
            ElementKind::Button,
            TODO_TEXT_RUN_FILTER_COMPLETED,
            SelectionState::Unselected,
            Some(TODO_UI_SLOT_FILTER_COMPLETED),
        ),
    );
    append(
        scene,
        footer,
        footer_text(
            "clear_completed",
            "Clear completed",
            Rect::new(5008, 4450, 1030, 150),
            ElementKind::Button,
            TODO_TEXT_RUN_CLEAR_COMPLETED,
            SelectionState::Unselected,
            None,
        ),
    );
    FooterIds { items_left_count, filter_all, filter_active, filter_completed }
}

fn info_line(name: &str, text: &str, bounds: Rect, text_slot: u16) -> (d: RenderNodeDescriptor)
    ensures
        d.kind == RenderNodeKind::Primitive,
        d.element == ElementKind::Text,
        opt_string_view(d.name) == Some(name@),
        opt_text_view(d.text) == Some((text@, 110u32)),
        d.text_slot == Some(text_slot),
        d.ui_slot is None,
        d.toggle_state is None,
        d.selection_state is None,
        !d.clip,
        d.scroll is None,
{
    RenderNodeDescriptor::new(RenderNodeKind::Primitive, ElementKind::Text, bounds)
        .named(name)
        .with_key(name)
        .with_text_slot(text_slot)
        .with_text(text, 110)
        .with_text_role(TextRole::Info)
}

/// The credits under the card.
fn build_info(scene: &mut RetainedScene, viewport: NodeId)
    requires
        old(scene).wf(),
        viewport < old(scene).spec_nodes().len(),
        old(scene).spec_nodes().len() < 900,
    ensures
        scene_extends(*old(scene), *final(scene), 4),
        info_nodes_are(final(scene).spec_nodes(), old(scene).spec_nodes().len() as int, viewport as int),
{
    let info = append(
        scene,
        viewport,
        RenderNodeDescriptor::new(RenderNodeKind::Group, ElementKind::Info, Rect::new(2867, 5384, 1400, 550))
            .named("info")
            .with_key("info"),
    );
    append(scene, info, info_line("info_edit", "Double-click to edit a todo", Rect::new(2867, 5384, 1600, 110), TODO_TEXT_RUN_INFO_EDIT));
    append(scene, info, info_line("info_author", "Created by Martin Kav\u{00ED}k", Rect::new(2915, 5604, 1400, 110), TODO_TEXT_RUN_INFO_AUTHOR));
    append(scene, info, info_line("info_brand", "Part of TodoMVC", Rect::new(3081, 5824, 900, 110), TODO_TEXT_RUN_INFO_BRAND));
}

impl TodoMvcRetainedScene {
    /// The initial page: "Read documentation", "Finish TodoMVC renderer"
    /// (completed), "Walk the dog" and "Buy groceries", all shown, and a
    /// viewport of `width` by `height` pixels.
    pub fn new(mode: SceneMode, width: u32, height: u32) -> (r: Self)
        ensures
            fresh_page(r, mode, width, height),
            r.spec_scene().wf(),
            page_nodes_are(r.spec_scene().spec_nodes()),
            r.viewport_id() == 1,
            r.list_scroll_id() == 15,
            r.items_left_count_id() == 34,
            r.filter_ids() == (36u64, 37u64, 38u64),
            forall|i: int, k: int| 0 <= i < 4 && 0 <= k < 3 ==> #[trigger] r.item_node(i, k) == 21 + 3 * i + k,
    {
        let mut scene = RetainedScene::new(mode);
        let frame = build_frame(&mut scene, mode, width, height);
        let ghost after_frame = scene;
        let read = append_todo_item(
            &mut scene,
            frame.list_scroll,
            mode,
            "item_read",
            "Read documentation",
            LIST_TOP,
            false,
            TextRole::Active,
            TODO_UI_SLOT_ITEM_READ,
            TODO_TEXT_RUN_ITEM_READ_LABEL,
        );
        let ghost after_read = scene;
        let finish = append_todo_item(
            &mut scene,
            frame.list_scroll,
            mode,
            "item_finish",
            "Finish TodoMVC renderer",
            LIST_TOP + ITEM_H,
            true,
            TextRole::Completed,
            TODO_UI_SLOT_ITEM_FINISH,
            TODO_TEXT_RUN_ITEM_FINISH_LABEL,
        );
        let ghost after_finish = scene;
        let walk = append_todo_item(
            &mut scene,
            frame.list_scroll,
            mode,
            "item_walk",
            "Walk the dog",
            LIST_TOP + 2 * ITEM_H,
            false,
            TextRole::Active,
            TODO_UI_SLOT_ITEM_WALK,
            TODO_TEXT_RUN_ITEM_WALK_LABEL,
        );
        let ghost after_walk = scene;
        let buy = append_todo_item(
            &mut scene,
            frame.list_scroll,
            mode,
            "item_buy",
            "Buy groceries",
            LIST_TOP + 3 * ITEM_H,
            false,
            TextRole::Active,
            TODO_UI_SLOT_ITEM_BUY,
            TODO_TEXT_RUN_ITEM_BUY_LABEL,
        );
        let ghost after_buy = scene;
        let footer = build_footer(&mut scene, frame.card);
        let ghost after_footer = scene;
        build_info(&mut scene, frame.viewport);
        scene.mark_node_dirty(frame.heading);
        scene.mark_node_dirty(frame.card_shadow);
        scene.mark_node_dirty(frame.card);

        let mut item_node_indices: BTreeMap<NodeId, usize> = BTreeMap::new();
        item_node_indices.insert(read.item, 0);
        item_node_indices.insert(read.checkbox, 0);
        item_node_indices.insert(read.label, 0);
        item_node_indices.insert(finish.item, 1);
        item_node_indices.insert(finish.checkbox, 1);
        item_node_indices.insert(finish.label, 1);
        item_node_indices.insert(walk.item, 2);
        item_node_indices.insert(walk.checkbox, 2);
        item_node_indices.insert(walk.label, 2);
        item_node_indices.insert(buy.item, 3);
        item_node_indices.insert(buy.checkbox, 3);
        item_node_indices.insert(buy.label, 3);

        let mut items: Vec<TodoItemNodeIds> = Vec::new();
        items.push(read);
        items.push(finish);
        items.push(walk);
        items.push(buy);

        let r = TodoMvcRetainedScene {
            scene,
            viewport: frame.viewport,
            list_scroll: frame.list_scroll,
            items_left_count: footer.items_left_count,
            filter_all: footer.filter_all,
            filter_active: footer.filter_active,
            filter_completed: footer.filter_completed,
            items,
            item_node_indices,
            filter: ListFilter::All,
            pending_changes: PendingResourceChanges::new(),
        };
        proof {
            let flags = r.completed_flags();
            assert(flags =~= seq![false, true, false, false]);
            reveal_with_fuel(visible_before, 5);
            assert(visible_before(flags, ListFilter::All, 1) == 1);
            assert(visible_before(flags, ListFilter::All, 2) == 2);
            assert(visible_before(flags, ListFilter::All, 3) == 3);
            reveal_with_fuel(active_count, 5);
            assert(flags.drop_last() =~= seq![false, true, false]);
            assert(flags.drop_last().drop_last() =~= seq![false, true]);
            assert(flags.drop_last().drop_last().drop_last() =~= seq![false]);
            assert(active_count(flags) == 3);
            reveal_strlit("3");
            assert(decimal(3) =~= "3"@);
        }
        r
    }
}

/// `a` and `b` agree on everything but their rectangle and scroll state.
pub open spec fn same_but_layout(a: RenderNode, b: RenderNode) -> bool {
    b == RenderNode { bounds: b.bounds, scroll: b.scroll, ..a }
}

/// `a` and `b` agree on everything the page's model does not drive: all
/// but rectangle, scroll state, toggle, text role, text and selection.
pub open spec fn same_but_model(a: RenderNode, b: RenderNode) -> bool {
    b == RenderNode {
        bounds: b.bounds,
        scroll: b.scroll,
        toggle_state: b.toggle_state,
        text_role: b.text_role,
        text: b.text,
        selection_state: b.selection_state,
        ..a
    }
}

/// `b` has the nodes of `a` with the same rectangles.
pub open spec fn same_bounds(a: Seq<RenderNode>, b: Seq<RenderNode>) -> bool {
    &&& a.len() == b.len()
    &&& forall|j: int| 0 <= j < a.len() ==> (#[trigger] b[j]).bounds == a[j].bounds
}

/// `a` and `b` agree on everything but their text.
pub open spec fn same_but_text(a: RenderNode, b: RenderNode) -> bool {
    b == RenderNode { text: b.text, ..a }
}

/// `a` and `b` agree on everything but their rectangle.
pub open spec fn same_but_bounds(a: RenderNode, b: RenderNode) -> bool {
    b == RenderNode { bounds: b.bounds, ..a }
}

pub open spec fn with_bounds(n: RenderNode, r: Rect) -> RenderNode {
    RenderNode { bounds: r, ..n }
}

/// `nodes` with the row, checkbox and label of a list item moved to row `y`.
pub open spec fn move_row(nodes: Seq<RenderNode>, item: NodeId, checkbox: NodeId, label: NodeId, y: i64) -> Seq<RenderNode> {
    let n1 = nodes.update(item as int, with_bounds(nodes[item as int], item_rect(y)));
    let n2 = n1.update(checkbox as int, with_bounds(n1[checkbox as int], checkbox_rect(y)));
    n2.update(label as int, with_bounds(n2[label as int], label_rect(y)))
}

/// The row, checkbox and label of a list item already sit at row `y`.
pub open spec fn row_placed(nodes: Seq<RenderNode>, item: NodeId, checkbox: NodeId, label: NodeId, y: i64) -> bool {
    &&& nodes[item as int].bounds == item_rect(y)
    &&& nodes[checkbox as int].bounds == checkbox_rect(y)
    &&& nodes[label as int].bounds == label_rect(y)
}

/// The scroll state after the list was laid out with `visible` rows: the
/// content is at least as tall as the viewport and the offset stays in range.
pub open spec fn relaid_scroll(sc: ScrollState, visible: nat) -> ScrollState {
    let content_h = if visible * ITEM_H > sc.viewport_height {
        visible * ITEM_H
    } else {
        sc.viewport_height as int
    };
    let max_scroll = if content_h - sc.viewport_height > 0 {
        content_h - sc.viewport_height
    } else {
        0
    };
    let offset = if sc.offset_y < 0 {
        0
    } else if sc.offset_y > max_scroll {
        max_scroll
    } else {
        sc.offset_y as int
    };
    ScrollState { content_height: content_h as i64, offset_y: offset as i64, ..sc }
}

impl TodoMvcRetainedScene {
    /// The three rectangles of item `i` already are where the layout puts them.
    pub open spec fn item_in_place(&self, i: int) -> bool {
        self.row_placed_in(self.spec_scene().spec_nodes(), i)
    }

    /// In `nodes`, the three rectangles of item `i` are where the layout for
    /// completion states `flags` and filter `filter` puts them.
    pub open spec fn row_at(&self, nodes: Seq<RenderNode>, flags: Seq<bool>, filter: ListFilter, i: int) -> bool {
        row_placed(nodes, self.item_node(i, 0), self.item_node(i, 1), self.item_node(i, 2), item_row_y(flags, filter, i))
    }

    /// In `nodes`, the three rectangles of item `i` are where the layout puts them.
    pub open spec fn row_placed_in(&self, nodes: Seq<RenderNode>, i: int) -> bool {
        self.row_at(nodes, self.completed_flags(), self.spec_filter(), i)
    }

    /// Items whose rows a layout for `flags` and `filter` would move.
    pub open spec fn rows_off(&self, flags: Seq<bool>, filter: ListFilter) -> Set<int> {
        Set::new(|i: int| 0 <= i < 4 && !self.row_at(self.spec_scene().spec_nodes(), flags, filter, i))
    }

    /// `nodes` is the scene's node list with the rows before `n` laid out.
    pub open spec fn rows_relaid_before(&self, nodes: Seq<RenderNode>, n: int) -> bool {
        let old_nodes = self.spec_scene().spec_nodes();
        &&& nodes.len() == old_nodes.len()
        &&& forall|j: int| 0 <= j < nodes.len() ==> same_but_bounds(old_nodes[j], #[trigger] nodes[j])
        &&& forall|j: int| 0 <= j < nodes.len() && !self.is_item_node(j as NodeId) ==> #[trigger] nodes[j] == old_nodes[j]
        &&& forall|i: int| 0 <= i < n ==> #[trigger] self.row_placed_in(nodes, i)
        &&& forall|i: int, k: int| n <= i < 4 && 0 <= k < 3 ==> nodes[#[trigger] self.item_node(i, k) as int]
            == old_nodes[self.item_node(i, k) as int]
    }

    /// Indices of the items whose rectangles a relayout moves.
    pub open spec fn misplaced_items(&self) -> Set<int> {
        self.misplaced_before(4)
    }

    pub open spec fn misplaced_before(&self, n: int) -> Set<int> {
        Set::new(|i: int| 0 <= i < n && !self.item_in_place(i))
    }

    pub open spec fn is_item_node(&self, id: NodeId) -> bool {
        exists|i: int, k: int| 0 <= i < 4 && 0 <= k < 3 && #[trigger] self.item_node(i, k) == id
    }

    /// `after` is `self` with the list laid out again: only rectangles of
    /// item nodes and the list's scroll state differ, every item sits at its
    /// row, and the moved items are recorded as pending.
    pub open spec fn relaid_out(&self, after: &Self) -> bool {
        let old_nodes = self.spec_scene().spec_nodes();
        let nodes = after.spec_scene().spec_nodes();
        &&& after.spec_scene().wf()
        &&& nodes.len() == old_nodes.len()
        &&& forall|j: int| 0 <= j < nodes.len() ==> same_but_layout(old_nodes[j], #[trigger] nodes[j])
        &&& forall|j: int| 0 <= j < nodes.len() && !self.is_item_node(j as NodeId) ==> (#[trigger] nodes[j]).bounds
            == old_nodes[j].bounds
        &&& forall|j: int| 0 <= j < nodes.len() && j != self.list_scroll_id() ==> (#[trigger] nodes[j]).scroll
            == old_nodes[j].scroll
        &&& forall|i: int| 0 <= i < 4 ==> #[trigger] after.item_in_place(i)
        &&& nodes[self.list_scroll_id() as int].scroll == match old_nodes[self.list_scroll_id() as int].scroll {
            Some(sc) => Some(relaid_scroll(sc, visible_before(self.completed_flags(), self.spec_filter(), 4))),
            None => None,
        }
        &&& after.pending_ui_slots() == self.pending_ui_slots().union(
            self.misplaced_items().map(|i: int| item_ui_slot(i)),
        )
        &&& after.pending_text_layout_nodes() == self.pending_text_layout_nodes().union(
            self.misplaced_items().map(|i: int| self.item_node(i, 2)),
        )
        &&& after.pending_text_style_nodes() == self.pending_text_style_nodes()
    }

    /// The items, the filter, the remembered ids, the scene's mode and its
    /// nodes agree.
    pub open spec fn same_page(&self, after: &Self) -> bool {
        &&& after.spec_items() == self.spec_items()
        &&& after.spec_filter() == self.spec_filter()
        &&& after.viewport_id() == self.viewport_id()
        &&& after.list_scroll_id() == self.list_scroll_id()
        &&& after.items_left_count_id() == self.items_left_count_id()
        &&& after.filter_ids() == self.filter_ids()
        &&& after.item_index_map() == self.item_index_map()
        &&& after.spec_scene().spec_mode() == self.spec_scene().spec_mode()
        &&& after.spec_scene().spec_nodes() == self.spec_scene().spec_nodes()
    }

    /// Only the scene and the pending changes differ.
    pub open spec fn same_model(&self, after: &Self) -> bool {
        &&& after.spec_items() == self.spec_items()
        &&& after.spec_filter() == self.spec_filter()
        &&& self.same_frame(after)
    }

    /// The remembered node ids and the scene-wide state agree.
    pub open spec fn same_frame(&self, after: &Self) -> bool {
        &&& after.viewport_id() == self.viewport_id()
        &&& after.list_scroll_id() == self.list_scroll_id()
        &&& after.items_left_count_id() == self.items_left_count_id()
        &&& after.filter_ids() == self.filter_ids()
        &&& after.item_index_map() == self.item_index_map()
        &&& after.spec_scene().spec_mode() == self.spec_scene().spec_mode()
        &&& after.spec_scene().spec_full_dirty() == self.spec_scene().spec_full_dirty()
    }

    pub fn scene(&self) -> (r: &RetainedScene)
        ensures
            *r == self.spec_scene(),
    {
        &self.scene
    }

    pub fn scene_mut(&mut self) -> (r: &mut RetainedScene)
        ensures
            *r == old(self).spec_scene(),
            final(self).spec_scene() == *final(r),
            final(self).spec_items() == old(self).spec_items(),
            final(self).spec_filter() == old(self).spec_filter(),
            final(self).viewport_id() == old(self).viewport_id(),
            final(self).list_scroll_id() == old(self).list_scroll_id(),
            final(self).items_left_count_id() == old(self).items_left_count_id(),
            final(self).filter_ids() == old(self).filter_ids(),
            final(self).item_index_map() == old(self).item_index_map(),
            final(self).pending_ui_slots() == old(self).pending_ui_slots(),
            final(self).pending_text_style_nodes() == old(self).pending_text_style_nodes(),
            final(self).pending_text_layout_nodes() == old(self).pending_text_layout_nodes(),
    {
        &mut self.scene
    }

    pub fn todo_count(&self) -> (r: usize)
        ensures
            r == self.spec_items().len(),
    {
        self.items.len()
    }

    pub fn filter(&self) -> (r: ListFilter)
        ensures
            r == self.spec_filter(),
    {
        self.filter
    }

    /// The node ids and state of the item at `index`.
    pub fn item(&self, index: usize) -> (r: Option<&TodoItemNodeIds>)
        ensures
            r == (if index < self.spec_items().len() {
                Some(&self.spec_items()[index as int])
            } else {
                None
            }),
    {
        if index < self.items.len() {
            Some(&self.items[index])
        } else {
            None
        }
    }

    /// The item that node `id` belongs to.
    pub fn item_index_for_node(&self, id: NodeId) -> (r: Option<usize>)
        ensures
            r == (if self.item_index_map().contains_key(id) {
                Some(self.item_index_map()[id])
            } else {
                None
            }),
    {
        match self.item_node_indices.get(&id) {
            Some(index) => Some(*index),
            None => None,
        }
    }

    pub fn item_matches_filter(&self, item: &TodoItemNodeIds) -> (r: bool)
        ensures
            r == filter_admits(self.spec_filter(), item.completed),
    {
        match self.filter {
            ListFilter::All => true,
            ListFilter::Active => !item.completed,
            ListFilter::Completed => item.completed,
        }
    }

    /// Resizes the viewport node to `width` by `height` pixels.
    pub fn set_viewport_size(&mut self, width: u32, height: u32)
        requires
            old(self).wf(),
        ensures
            final(self).wf(),
            old(self).same_model(&*final(self)),
            final(self).pending_ui_slots() == old(self).pending_ui_slots(),
            final(self).pending_text_style_nodes() == old(self).pending_text_style_nodes(),
            final(self).pending_text_layout_nodes() == old(self).pending_text_layout_nodes(),
            final(self).spec_scene().spec_dirty_flags() == flags_after_move(
                old(self).spec_scene().spec_nodes(),
                old(self).spec_scene().spec_dirty_flags(),
                old(self).viewport_id(),
                Rect { x: 0, y: 0, width: (width * 10) as i64, height: (height * 10) as i64 },
            ),
            final(self).spec_scene().spec_nodes() == if old(self).spec_scene().valid_id(old(self).viewport_id()) {
                old(self).spec_scene().spec_nodes().update(
                    old(self).viewport_id() as int,
                    RenderNode {
                        bounds: Rect { x: 0, y: 0, width: (width * 10) as i64, height: (height * 10) as i64 },
                        ..old(self).spec_scene().spec_nodes()[old(self).viewport_id() as int]
                    },
                )
            } else {
                old(self).spec_scene().spec_nodes()
            },
    {
        self.scene.set_bounds(self.viewport, Rect::new(0, 0, width as i64 * 10, height as i64 * 10));
        assert(self.item_index_map() == old(self).item_index_map());
    }

    /// What marking the view transform does: the viewport's dirty flag is
    /// set, and nothing else changes.
    pub open spec fn view_transform_marked(&self, after: &Self) -> bool {
        &&& self.same_model(after)
        &&& after.spec_scene().spec_nodes() == self.spec_scene().spec_nodes()
        &&& after.spec_scene().spec_dirty_flags() == if self.spec_scene().valid_id(self.viewport_id()) {
            self.spec_scene().spec_dirty_flags().update(self.viewport_id() as int, true)
        } else {
            self.spec_scene().spec_dirty_flags()
        }
        &&& after.pending_ui_slots() == self.pending_ui_slots()
        &&& after.pending_text_style_nodes() == self.pending_text_style_nodes()
        &&& after.pending_text_layout_nodes() == self.pending_text_layout_nodes()
    }

    /// Records that the view transform changed, which only concerns the viewport.
    pub fn mark_view_transform_dirty(&mut self)
        requires
            old(self).wf(),
        ensures
            final(self).wf(),
            old(self).view_transform_marked(&*final(self)),
    {
        self.scene.mark_node_dirty(self.viewport);
        assert(self.item_index_map() == old(self).item_index_map());
    }

    /// Records a change of appearance that concerns the whole scene.
    pub fn mark_visual_change(&mut self)
        requires
            old(self).wf(),
        ensures
            final(self).wf(),
            final(self).spec_scene().spec_nodes() == old(self).spec_scene().spec_nodes(),
            final(self).spec_scene().spec_dirty_flags() == old(self).spec_scene().spec_dirty_flags(),
            final(self).spec_scene().spec_full_dirty(),
            final(self).spec_items() == old(self).spec_items(),
            final(self).spec_filter() == old(self).spec_filter(),
            final(self).pending_ui_slots() == old(self).pending_ui_slots(),
            final(self).pending_text_style_nodes() == old(self).pending_text_style_nodes(),
            final(self).pending_text_layout_nodes() == old(self).pending_text_layout_nodes(),
    {
        self.scene.mark_full_scene_dirty();
        assert(self.item_index_map() == old(self).item_index_map());
    }
}


/// `r`, moved up by `offset_y` as a scroll root scrolled down by `offset_y`
/// shows it, meets `view`.
pub open spec fn scrolled_overlaps(r: Rect, offset_y: i64, view: Rect) -> bool {
    &&& r.x < view.x + view.width
    &&& view.x < r.x + r.width
    &&& r.y - offset_y < view.y + view.height
    &&& view.y < r.y - offset_y + r.height
}

fn scrolled_overlaps_exec(r: &Rect, offset_y: i64, view: &Rect) -> (b: bool)
    ensures
        b == scrolled_overlaps(*r, offset_y, *view),
{
    let ry = r.y as i128 - offset_y as i128;
    (r.x as i128) < view.x as i128 + view.width as i128 && (view.x as i128) < r.x as i128 + r.width as i128 && ry
        < view.y as i128 + view.height as i128 && (view.y as i128) < ry + r.height as i128
}

impl TodoMvcRetainedScene {
    /// The list's scroll state, if the list has one.
    pub open spec fn list_scroll_state(&self) -> Option<ScrollState> {
        if self.spec_scene().valid_id(self.list_scroll_id()) {
            self.spec_scene().spec_nodes()[self.list_scroll_id() as int].scroll
        } else {
            None
        }
    }

    /// Node `id` shows in the list when the list is scrolled by `offset_y`:
    /// its moved rectangle meets the list's.
    pub open spec fn node_shows_at(&self, id: NodeId, offset_y: i64) -> bool {
        let scene = self.spec_scene();
        &&& scene.valid_id(id)
        &&& scene.valid_id(self.list_scroll_id())
        &&& scrolled_overlaps(
            scene.spec_nodes()[id as int].bounds,
            offset_y,
            scene.spec_nodes()[self.list_scroll_id() as int].bounds,
        )
    }

    /// Item `i` shows in the list scrolled by `offset_y`: its row, checkbox
    /// or label does.
    pub open spec fn item_shows_at(&self, i: int, offset_y: i64) -> bool {
        ||| self.node_shows_at(self.item_node(i, 0), offset_y)
        ||| self.node_shows_at(self.item_node(i, 1), offset_y)
        ||| self.node_shows_at(self.item_node(i, 2), offset_y)
    }

    /// Items among the first `n` that show before or after the list scrolls
    /// from `from` to `to`.
    pub open spec fn scroll_touched_before(&self, from: i64, to: i64, n: int) -> Set<int> {
        Set::new(|i: int| 0 <= i < n && (self.item_shows_at(i, from) || self.item_shows_at(i, to)))
    }

    /// Items that show before or after the list scrolls from `from` to `to`.
    pub open spec fn scroll_touched(&self, from: i64, to: i64) -> Set<int> {
        self.scroll_touched_before(from, to, 4)
    }

    fn node_shows_exec(&self, id: NodeId, offset_y: i64) -> (b: bool)
        ensures
            b == self.node_shows_at(id, offset_y),
    {
        match (self.scene.node(id), self.scene.node(self.list_scroll)) {
            (Some(node), Some(list)) => scrolled_overlaps_exec(&node.bounds, offset_y, &list.bounds),
            _ => false,
        }
    }

    fn item_shows_exec(&self, index: usize, offset_y: i64) -> (b: bool)
        requires
            self.wf(),
            index < 4,
        ensures
            b == self.item_shows_at(index as int, offset_y),
    {
        let item = &self.items[index];
        self.node_shows_exec(item.item, offset_y) || self.node_shows_exec(item.checkbox, offset_y)
            || self.node_shows_exec(item.label, offset_y)
    }

    /// Scrolls the list to `y` (in tenths of a pixel, horizontally back to
    /// zero). The items that show before or after the scroll are recorded
    /// as pending: their primitive slots and label layouts. Without a
    /// scroll state nothing changes.
    pub fn set_scroll_offset(&mut self, y: i64)
        requires
            old(self).wf(),
        ensures
            final(self).wf(),
            old(self).same_model(&*final(self)),
            final(self).pending_text_style_nodes() == old(self).pending_text_style_nodes(),
            match old(self).list_scroll_state() {
                None => *final(self) == *old(self),
                Some(sc) => {
                    let ls = old(self).list_scroll_id() as int;
                    let nodes = old(self).spec_scene().spec_nodes();
                    let new_sc = ScrollState { offset_x: 0, offset_y: y, ..sc };
                    let touched = old(self).scroll_touched(sc.offset_y, y);
                    &&& final(self).spec_scene().spec_nodes() == nodes.update(ls, RenderNode { scroll: Some(new_sc), ..nodes[ls] })
                    &&& final(self).spec_scene().spec_dirty_flags() == if new_sc != sc {
                        old(self).spec_scene().spec_dirty_flags().update(ls, true)
                    } else {
                        old(self).spec_scene().spec_dirty_flags()
                    }
                    &&& final(self).pending_ui_slots() == old(self).pending_ui_slots().union(
                        touched.map(|i: int| item_ui_slot(i)),
                    )
                    &&& final(self).pending_text_layout_nodes() == old(self).pending_text_layout_nodes().union(
                        touched.map(|i: int| old(self).item_node(i, 2)),
                    )
                },
            },
            old(self).linked() ==> final(self).linked(),
            old(self).linked() && old(self).consistent() ==> final(self).consistent(),
    {
        let list_scroll = self.list_scroll;
        let scroll = match self.scene.node(list_scroll) {
            Some(node) => node.scroll,
            None => None,
        };
        let sc = match scroll {
            Some(sc) => sc,
            None => {
                return;
            },
        };
        let ghost pre = *self;
        let mut index: usize = 0;
        while index < self.items.len()
            invariant
                self.wf(),
                pre.wf(),
                pre.same_model(&*self),
                self.spec_scene() == pre.spec_scene(),
                self.pending_text_style_nodes() == pre.pending_text_style_nodes(),
                self.list_scroll == list_scroll,
                list_scroll == pre.list_scroll_id(),
                pre.list_scroll_state() == Some(sc),
                0 <= index <= 4,
                self.pending_ui_slots() == pre.pending_ui_slots().union(
                    pre.scroll_touched_before(sc.offset_y, y, index as int).map(|i: int| item_ui_slot(i)),
                ),
                self.pending_text_layout_nodes() == pre.pending_text_layout_nodes().union(
                    pre.scroll_touched_before(sc.offset_y, y, index as int).map(|i: int| pre.item_node(i, 2)),
                ),
            decreases 4 - index,
        {
            let shows = self.item_shows_exec(index, sc.offset_y) || self.item_shows_exec(index, y);
            let label_id = self.items[index].label;
            proof {
                assert(self.item_node(index as int, 2) == pre.item_node(index as int, 2));
                assert(self.item_shows_at(index as int, sc.offset_y) == pre.item_shows_at(index as int, sc.offset_y));
                assert(self.item_shows_at(index as int, y) == pre.item_shows_at(index as int, y));
            }
            if shows {
                let slot = todo_item_ui_slot_for_index(index);
                self.pending_changes.ui_slots.insert(slot);
                self.pending_changes.text_layout_nodes.insert(label_id);
            }
            proof {
                let s0 = pre.scroll_touched_before(sc.offset_y, y, index as int);
                let s1 = pre.scroll_touched_before(sc.offset_y, y, index as int + 1);
                if shows {
                    assert(s1 =~= s0.insert(index as int));
                    s0.lemma_set_map_insert_commute(index as int, |i: int| item_ui_slot(i));
                    s0.lemma_set_map_insert_commute(index as int, |i: int| pre.item_node(i, 2));
                } else {
                    assert(s1 =~= s0);
                }
                assert(self.pending_ui_slots() =~= pre.pending_ui_slots().union(s1.map(|i: int| item_ui_slot(i))));
                assert(self.pending_text_layout_nodes() =~= pre.pending_text_layout_nodes().union(
                    s1.map(|i: int| pre.item_node(i, 2)),
                ));
            }
            index += 1;
        }
        let new_sc = ScrollState { offset_x: 0, offset_y: y, ..sc };
        self.scene.set_scroll_state(list_scroll, Some(new_sc));
        proof {
            let ls = list_scroll as int;
            let nodes = pre.spec_scene().spec_nodes();
            let after = self.spec_scene().spec_nodes();
            assert(after =~= nodes.update(ls, RenderNode { scroll: Some(new_sc), ..nodes[ls] }));
            assert(pre.scroll_touched_before(sc.offset_y, y, 4) == pre.scroll_touched(sc.offset_y, y));
            assert(self.item_index_map() == pre.item_index_map());
            assert forall|i: int, k: int| 0 <= i < 4 && 0 <= k < 3 implies #[trigger] self.item_node(i, k) == pre.item_node(i, k) by {}
            assert(self.completed_flags() =~= pre.completed_flags());
            if pre.linked() && pre.consistent() {
                assert forall|i: int| 0 <= i < 4 implies #[trigger] self.item_in_place(i) by {
                    assert(pre.item_in_place(i));
                    assert(after[pre.item_node(i, 0) as int].bounds == nodes[pre.item_node(i, 0) as int].bounds);
                    assert(after[pre.item_node(i, 1) as int].bounds == nodes[pre.item_node(i, 1) as int].bounds);
                    assert(after[pre.item_node(i, 2) as int].bounds == nodes[pre.item_node(i, 2) as int].bounds);
                }
                assert forall|i: int| 0 <= i < 4 implies {
                    let item = #[trigger] self.spec_items()[i];
                    &&& after[item.checkbox as int].toggle_state == Some(toggle_for(item.completed))
                    &&& after[item.label as int].text_role == Some(role_for(item.completed))
                    &&& opt_text_view(after[item.label as int].text) == Some((item.label_text@, 240u32))
                } by {
                    let item = self.spec_items()[i];
                    assert(pre.spec_items()[i] == item);
                    assert(pre.item_node(i, 1) < nodes.len() && pre.item_node(i, 2) < nodes.len());
                    assert(after[item.checkbox as int].toggle_state == nodes[item.checkbox as int].toggle_state);
                    assert(after[item.label as int].text_role == nodes[item.label as int].text_role);
                    assert(after[item.label as int].text == nodes[item.label as int].text);
                }
            }
        }
    }
}

/// Moves one node; the scene reports whether its rectangle changed.
fn move_node(scene: &mut RetainedScene, id: NodeId, bounds: Rect) -> (changed: bool)
    requires
        old(scene).wf(),
    ensures
        final(scene).wf(),
        final(scene).spec_mode() == old(scene).spec_mode(),
        final(scene).spec_full_dirty() == old(scene).spec_full_dirty(),
        flags_grow(old(scene).spec_dirty_flags(), final(scene).spec_dirty_flags()),
        final(scene).spec_nodes() == if old(scene).valid_id(id) {
            old(scene).spec_nodes().update(id as int, with_bounds(old(scene).spec_nodes()[id as int], bounds))
        } else {
            old(scene).spec_nodes()
        },
        changed == (old(scene).valid_id(id) && old(scene).spec_nodes()[id as int].bounds != bounds),
{
    let changed = scene.set_bounds(id, bounds);
    proof {
        if !changed && old(scene).valid_id(id) {
            assert(old(scene).spec_nodes().update(id as int, with_bounds(old(scene).spec_nodes()[id as int], bounds))
                =~= old(scene).spec_nodes());
        }
    }
    changed
}

/// Moves the row, checkbox and label nodes of an item to row `row_y`;
/// reports whether any of the three rectangles changed.
fn move_item_nodes(scene: &mut RetainedScene, item: NodeId, checkbox: NodeId, label: NodeId, row_y: i64) -> (changed: bool)
    requires
        old(scene).wf(),
        -1000000 <= row_y <= 1000000,
    ensures
        final(scene).wf(),
        final(scene).spec_mode() == old(scene).spec_mode(),
        final(scene).spec_full_dirty() == old(scene).spec_full_dirty(),
        final(scene).spec_nodes().len() == old(scene).spec_nodes().len(),
        flags_grow(old(scene).spec_dirty_flags(), final(scene).spec_dirty_flags()),
        (old(scene).valid_id(item) && old(scene).valid_id(checkbox) && old(scene).valid_id(label) && item != checkbox
            && item != label && checkbox != label) ==> {
            &&& final(scene).spec_nodes() == move_row(old(scene).spec_nodes(), item, checkbox, label, row_y)
            &&& changed == !row_placed(old(scene).spec_nodes(), item, checkbox, label, row_y)
        },
{
    let item_changed = move_node(scene, item, Rect::new(CARD_X, row_y, CARD_W, ITEM_H));
    let checkbox_changed = move_node(
        scene,
        checkbox,
        Rect::new(CHECKBOX_X, row_y + CHECKBOX_Y_OFFSET, CHECKBOX_SIZE, CHECKBOX_SIZE),
    );
    let label_changed = move_node(scene, label, Rect::new(LABEL_X, row_y + LABEL_Y_OFFSET, LABEL_W, LABEL_H));
    item_changed || checkbox_changed || label_changed
}

fn relaid_scroll_exec(sc: ScrollState, visible: usize) -> (r: ScrollState)
    requires
        visible <= 4,
    ensures
        r == relaid_scroll(sc, visible as nat),
{
    let rows = visible as i64 * ITEM_H;
    let content_h: i64 = if rows > sc.viewport_height {
        rows
    } else {
        sc.viewport_height
    };
    let diff: i128 = content_h as i128 - sc.viewport_height as i128;
    let max_scroll: i128 = if diff > 0 {
        diff
    } else {
        0
    };
    let offset: i64 = if sc.offset_y < 0 {
        0
    } else if sc.offset_y as i128 > max_scroll {
        max_scroll as i64
    } else {
        sc.offset_y
    };
    ScrollState { content_height: content_h, offset_y: offset, ..sc }
}

impl TodoMvcRetainedScene {
    /// Laying out row `index` keeps the earlier rows in place, touches no
    /// other node, and moves something exactly when the row was misplaced.
    proof fn lemma_relayout_step(&self, nodes: Seq<RenderNode>, index: int)
        requires
            self.wf(),
            self.linked(),
            0 <= index < 4,
            self.rows_relaid_before(nodes, index),
        ensures
            self.rows_relaid_before(
                move_row(
                    nodes,
                    self.item_node(index, 0),
                    self.item_node(index, 1),
                    self.item_node(index, 2),
                    item_row_y(self.completed_flags(), self.spec_filter(), index),
                ),
                index + 1,
            ),
            row_placed(
                nodes,
                self.item_node(index, 0),
                self.item_node(index, 1),
                self.item_node(index, 2),
                item_row_y(self.completed_flags(), self.spec_filter(), index),
            ) == self.item_in_place(index),
    {
        let old_nodes = self.spec_scene().spec_nodes();
        let y = item_row_y(self.completed_flags(), self.spec_filter(), index);
        let a = self.item_node(index, 0);
        let b = self.item_node(index, 1);
        let c = self.item_node(index, 2);
        let n2 = move_row(nodes, a, b, c, y);
        assert(a != b && a != c && b != c);
        assert(nodes[a as int] == old_nodes[a as int]);
        assert(nodes[b as int] == old_nodes[b as int]);
        assert(nodes[c as int] == old_nodes[c as int]);
        assert forall|j: int| 0 <= j < n2.len() implies same_but_bounds(old_nodes[j], #[trigger] n2[j]) by {
            assert(same_but_bounds(old_nodes[j], nodes[j]));
        }
        assert forall|j: int| 0 <= j < n2.len() && !self.is_item_node(j as NodeId) implies #[trigger] n2[j]
            == old_nodes[j] by {
            if j == a as int {
                assert(self.item_node(index, 0) == j as NodeId);
            }
            if j == b as int {
                assert(self.item_node(index, 1) == j as NodeId);
            }
            if j == c as int {
                assert(self.item_node(index, 2) == j as NodeId);
            }
            assert(nodes[j] == old_nodes[j]);
        }
        assert forall|i: int| 0 <= i < index + 1 implies #[trigger] self.row_placed_in(n2, i) by {
            if i < index {
                assert(self.row_placed_in(nodes, i));
                assert forall|k: int| 0 <= k < 3 implies n2[#[trigger] self.item_node(i, k) as int]
                    == nodes[self.item_node(i, k) as int] by {
                    assert(self.item_node(i, k) != self.item_node(index, 0));
                    assert(self.item_node(i, k) != self.item_node(index, 1));
                    assert(self.item_node(i, k) != self.item_node(index, 2));
                }
                assert(n2[self.item_node(i, 0) as int] == nodes[self.item_node(i, 0) as int]);
                assert(n2[self.item_node(i, 1) as int] == nodes[self.item_node(i, 1) as int]);
                assert(n2[self.item_node(i, 2) as int] == nodes[self.item_node(i, 2) as int]);
            }
        }
        assert forall|i: int, k: int| index + 1 <= i < 4 && 0 <= k < 3 implies n2[#[trigger] self.item_node(i, k) as int]
            == old_nodes[self.item_node(i, k) as int] by {
            assert(self.item_node(i, k) != self.item_node(index, 0));
            assert(self.item_node(i, k) != self.item_node(index, 1));
            assert(self.item_node(i, k) != self.item_node(index, 2));
        }
    }

    /// Stacks the rows that pass the filter from the top of the list, parks
    /// the others below it, records every moved row as pending and fits the
    /// list's scroll extent to the visible rows.
    fn relayout_items(&mut self)
        requires
            old(self).wf(),
        ensures
            final(self).wf(),
            old(self).same_model(&*final(self)),
            final(self).spec_scene().spec_nodes().len() == old(self).spec_scene().spec_nodes().len(),
            flags_grow(old(self).spec_scene().spec_dirty_flags(), final(self).spec_scene().spec_dirty_flags()),
            old(self).linked() ==> old(self).relaid_out(&*final(self)),
    {
        let ghost pre = *self;
        let mut visible_index: usize = 0;
        let mut index: usize = 0;
        while index < self.items.len()
            invariant
                self.wf(),
                pre.wf(),
                pre.same_model(&*self),
                0 <= index <= 4,
                visible_index <= index,
                visible_index == visible_before(pre.completed_flags(), pre.spec_filter(), index as int),
                self.spec_scene().spec_nodes().len() == pre.spec_scene().spec_nodes().len(),
                flags_grow(pre.spec_scene().spec_dirty_flags(), self.spec_scene().spec_dirty_flags()),
                pre.linked() ==> {
                    &&& pre.rows_relaid_before(self.spec_scene().spec_nodes(), index as int)
                    &&& self.pending_ui_slots() == pre.pending_ui_slots().union(
                        pre.misplaced_before(index as int).map(|i: int| item_ui_slot(i)),
                    )
                    &&& self.pending_text_layout_nodes() == pre.pending_text_layout_nodes().union(
                        pre.misplaced_before(index as int).map(|i: int| pre.item_node(i, 2)),
                    )
                    &&& self.pending_text_style_nodes() == pre.pending_text_style_nodes()
                },
            decreases 4 - index,
        {
            let item_id = self.items[index].item;
            let checkbox_id = self.items[index].checkbox;
            let label_id = self.items[index].label;
            let is_visible = self.item_matches_filter(&self.items[index]);
            proof {
                assert(pre.completed_flags()[index as int] == self.items@[index as int].completed);
            }
            let row_y: i64 = if is_visible {
                let y = LIST_TOP + visible_index as i64 * ITEM_H;
                visible_index += 1;
                y
            } else {
                LIST_BOTTOM + HIDDEN_ITEM_Y_OFFSET + index as i64 * ITEM_H
            };
            proof {
                assert(row_y == item_row_y(pre.completed_flags(), pre.spec_filter(), index as int));
                if pre.linked() {
                    assert(item_id == pre.item_node(index as int, 0));
                    assert(checkbox_id == pre.item_node(index as int, 1));
                    assert(label_id == pre.item_node(index as int, 2));
                    assert(pre.item_node(index as int, 0) != pre.item_node(index as int, 1));
                    assert(pre.item_node(index as int, 0) != pre.item_node(index as int, 2));
                    assert(pre.item_node(index as int, 1) != pre.item_node(index as int, 2));
                    pre.lemma_relayout_step(self.spec_scene().spec_nodes(), index as int);
                }
            }
            let ghost before_move = self.spec_scene().spec_nodes();
            let changed = move_item_nodes(&mut self.scene, item_id, checkbox_id, label_id, row_y);
            if changed {
                let slot = todo_item_ui_slot_for_index(index);
                self.pending_changes.ui_slots.insert(slot);
                self.pending_changes.text_layout_nodes.insert(label_id);
            }
            proof {
                assert(self.item_index_map() == pre.item_index_map());
                if pre.linked() {
                    assert(changed == !pre.item_in_place(index as int));
                    let s0 = pre.misplaced_before(index as int);
                    let s1 = pre.misplaced_before(index as int + 1);
                    if changed {
                        assert(s1 =~= s0.insert(index as int));
                        s0.lemma_set_map_insert_commute(index as int, |i: int| item_ui_slot(i));
                        s0.lemma_set_map_insert_commute(index as int, |i: int| pre.item_node(i, 2));
                    } else {
                        assert(s1 =~= s0);
                    }
                    assert(self.pending_ui_slots() =~= pre.pending_ui_slots().union(
                        s1.map(|i: int| item_ui_slot(i)),
                    ));
                    assert(self.pending_text_layout_nodes() =~= pre.pending_text_layout_nodes().union(
                        s1.map(|i: int| pre.item_node(i, 2)),
                    ));
                }
            }
            index += 1;
        }
        let ghost laid = self.spec_scene().spec_nodes();
        let list_scroll = self.list_scroll;
        let scroll = match self.scene.node(list_scroll) {
            Some(node) => node.scroll,
            None => None,
        };
        if let Some(sc) = scroll {
            let relaid = relaid_scroll_exec(sc, visible_index);
            self.scene.set_scroll_state(list_scroll, Some(relaid));
        }
        proof {
            assert(self.item_index_map() == pre.item_index_map());
            if pre.linked() {
                assert(pre.misplaced_before(4) == pre.misplaced_items());
                let nodes = self.spec_scene().spec_nodes();
                let old_nodes = pre.spec_scene().spec_nodes();
                assert forall|j: int| 0 <= j < nodes.len() implies (#[trigger] nodes[j]).bounds == laid[j].bounds
                    && (j != list_scroll ==> nodes[j] == laid[j]) by {}
                assert forall|i: int| 0 <= i < 4 implies #[trigger] self.item_in_place(i) by {
                    assert(pre.row_placed_in(laid, i));
                    assert(nodes[pre.item_node(i, 0) as int].bounds == laid[pre.item_node(i, 0) as int].bounds);
                    assert(nodes[pre.item_node(i, 1) as int].bounds == laid[pre.item_node(i, 1) as int].bounds);
                    assert(nodes[pre.item_node(i, 2) as int].bounds == laid[pre.item_node(i, 2) as int].bounds);
                }
                assert forall|j: int| 0 <= j < nodes.len() implies same_but_layout(old_nodes[j], #[trigger] nodes[j]) by {
                    assert(same_but_bounds(old_nodes[j], laid[j]));
                }
                assert forall|j: int| 0 <= j < nodes.len() && !pre.is_item_node(j as NodeId) implies (#[trigger] nodes[j]).bounds
                    == old_nodes[j].bounds by {
                    assert(laid[j] == old_nodes[j]);
                }
                assert forall|j: int| 0 <= j < nodes.len() && j != pre.list_scroll_id() implies (#[trigger] nodes[j]).scroll
                    == old_nodes[j].scroll by {
                    assert(same_but_bounds(old_nodes[j], laid[j]));
                }
                assert(same_but_bounds(old_nodes[list_scroll as int], laid[list_scroll as int]));
            }
        }
    }
}

impl TodoMvcRetainedScene {
    /// Writes the number of active items into the counter and records the
    /// counter's text as pending.
    fn update_items_left_count(&mut self)
        requires
            old(self).wf(),
        ensures
            final(self).wf(),
            old(self).same_model(&*final(self)),
            flags_grow(old(self).spec_scene().spec_dirty_flags(), final(self).spec_scene().spec_dirty_flags()),
            final(self).spec_scene().spec_nodes().len() == old(self).spec_scene().spec_nodes().len(),
            forall|j: int| 0 <= j < old(self).spec_scene().spec_nodes().len() && j != old(self).items_left_count_id()
                ==> #[trigger] final(self).spec_scene().spec_nodes()[j] == old(self).spec_scene().spec_nodes()[j],
            old(self).spec_scene().valid_id(old(self).items_left_count_id()) ==> {
                let c = old(self).items_left_count_id() as int;
                &&& same_but_text(old(self).spec_scene().spec_nodes()[c], final(self).spec_scene().spec_nodes()[c])
                &&& opt_text_view(final(self).spec_scene().spec_nodes()[c].text) == Some(
                    (decimal(active_count(old(self).completed_flags())), 150u32),
                )
            },
            final(self).pending_ui_slots() == old(self).pending_ui_slots(),
            final(self).pending_text_style_nodes() == old(self).pending_text_style_nodes(),
            final(self).pending_text_layout_nodes() == old(self).pending_text_layout_nodes().insert(
                old(self).items_left_count_id(),
            ),
    {
        let ghost flags = self.completed_flags();
        let mut active: usize = 0;
        let mut i: usize = 0;
        while i < self.items.len()
            invariant
                self.wf(),
                flags == self.completed_flags(),
                0 <= i <= 4,
                active <= i,
                active == active_count(flags.take(i as int)),
            decreases 4 - i,
        {
            proof {
                assert(flags.take(i as int + 1).drop_last() =~= flags.take(i as int));
            }
            if !self.items[i].completed {
                active += 1;
            }
            i += 1;
        }
        proof {
            assert(flags.take(4) =~= flags);
        }
        let text = decimal_string(active);
        let count_id = self.items_left_count;
        self.scene.set_text(count_id, Some(TextNode::new(text, 150)));
        self.pending_changes.text_layout_nodes.insert(count_id);
        proof {
            assert(self.item_index_map() == old(self).item_index_map());
        }
    }

    /// What renaming item `index` to `label` does: the item's label text,
    /// the label node's text, its dirty flag and the pending text layout.
    pub open spec fn label_changed(&self, after: &Self, index: int, label: Seq<char>) -> bool {
        let label_id = self.spec_items()[index].label;
        let old_nodes = self.spec_scene().spec_nodes();
        let nodes = after.spec_scene().spec_nodes();
        &&& self.same_frame(after)
        &&& after.spec_filter() == self.spec_filter()
        &&& after.spec_items() == self.spec_items().update(
            index,
            TodoItemNodeIds {
                label_text: after.spec_items()[index].label_text,
                ..self.spec_items()[index]
            },
        )
        &&& after.spec_items()[index].label_text@ == label
        &&& nodes.len() == old_nodes.len()
        &&& forall|j: int| 0 <= j < nodes.len() && j != label_id ==> #[trigger] nodes[j] == old_nodes[j]
        &&& self.spec_scene().valid_id(label_id) ==> {
            &&& same_but_text(old_nodes[label_id as int], nodes[label_id as int])
            &&& opt_text_view(nodes[label_id as int].text) == Some((label, 240u32))
        }
        &&& after.spec_scene().spec_dirty_flags() == if self.spec_scene().valid_id(label_id)
            && opt_text_view(old_nodes[label_id as int].text) != Some((label, 240u32)) {
            self.spec_scene().spec_dirty_flags().update(label_id as int, true)
        } else {
            self.spec_scene().spec_dirty_flags()
        }
        &&& after.pending_ui_slots() == self.pending_ui_slots()
        &&& after.pending_text_style_nodes() == self.pending_text_style_nodes()
        &&& after.pending_text_layout_nodes() == self.pending_text_layout_nodes().insert(label_id)
        &&& self.linked() ==> after.linked()
        &&& self.linked() && self.consistent() ==> after.consistent()
    }

    /// Renames item `index`. Returns whether the label changed; a new label is
    /// written into the label node and recorded as pending text layout.
    pub fn set_item_label(&mut self, index: usize, label: &str) -> (changed: bool)
        requires
            old(self).wf(),
        ensures
            final(self).wf(),
            changed == (index < TODO_ITEM_COUNT && old(self).spec_items()[index as int].label_text@ != label@),
            !changed ==> *final(self) == *old(self),
            changed ==> old(self).label_changed(&*final(self), index as int, label@),
    {
        if index >= self.items.len() {
            return false;
        }
        let new_label = String::from_str(label);
        if self.items[index].label_text.eq(&new_label) {
            return false;
        }
        let label_id = self.items[index].label;
        self.items[index].label_text = new_label;
        self.pending_changes.text_layout_nodes.insert(label_id);
        self.scene.set_text(label_id, Some(TextNode::new(String::from_str(label), 240)));
        proof {
            assert(self.item_index_map() == old(self).item_index_map());
            assert(self.spec_items() =~= old(self).spec_items().update(
                index as int,
                TodoItemNodeIds { label_text: self.spec_items()[index as int].label_text, ..old(self).spec_items()[index as int] },
            ));
            if old(self).linked() {
                assert forall|i: int, k: int| 0 <= i < 4 && 0 <= k < 3 implies #[trigger] self.item_node(i, k)
                    == old(self).item_node(i, k) by {}
                if old(self).consistent() {
                    assert(self.completed_flags() =~= old(self).completed_flags());
                    let old_nodes = old(self).spec_scene().spec_nodes();
                    let nodes = self.spec_scene().spec_nodes();
                    assert forall|i: int| 0 <= i < 4 implies {
                        let item = #[trigger] self.spec_items()[i];
                        &&& nodes[item.checkbox as int].toggle_state == Some(toggle_for(item.completed))
                        &&& nodes[item.label as int].text_role == Some(role_for(item.completed))
                        &&& opt_text_view(nodes[item.label as int].text) == Some((item.label_text@, 240u32))
                    } by {
                        let item = self.spec_items()[i];
                        let old_item = old(self).spec_items()[i];
                        assert(old(self).item_node(i, 1) != old(self).item_node(index as int, 2));
                        assert(nodes[item.checkbox as int] == old_nodes[old_item.checkbox as int]);
                        if i != index {
                            assert(old(self).item_node(i, 2) != old(self).item_node(index as int, 2));
                            assert(nodes[item.label as int] == old_nodes[old_item.label as int]);
                        }
                    }
                    assert forall|i: int| 0 <= i < 4 implies #[trigger] self.item_in_place(i) by {
                        assert(old(self).item_in_place(i));
                        assert(nodes[self.item_node(i, 0) as int].bounds == old_nodes[self.item_node(i, 0) as int].bounds);
                        assert(nodes[self.item_node(i, 1) as int].bounds == old_nodes[self.item_node(i, 1) as int].bounds);
                        assert(nodes[self.item_node(i, 2) as int].bounds == old_nodes[self.item_node(i, 2) as int].bounds);
                    }
                    assert(old(self).item_node(index as int, 2) != old(self).items_left_count_id());
                }
            }
        }
        true
    }
}

impl TodoMvcRetainedScene {
    /// What changing the completion state of item `index` to `completed`
    /// does: the item's state, its checkbox, text role and row, the other
    /// rows the layout moves, the counter, and the pending changes.
    pub open spec fn completion_changed(&self, after: &Self, index: int, completed: bool) -> bool {
        let old_nodes = self.spec_scene().spec_nodes();
        let nodes = after.spec_scene().spec_nodes();
        &&& self.same_frame(after)
        &&& after.spec_filter() == self.spec_filter()
        &&& after.spec_items() == self.spec_items().update(index, TodoItemNodeIds { completed, ..self.spec_items()[index] })
        &&& nodes.len() == old_nodes.len()
        &&& flags_grow(self.spec_scene().spec_dirty_flags(), after.spec_scene().spec_dirty_flags())
        &&& self.linked() ==> {
            &&& after.linked()
            &&& forall|j: int| 0 <= j < nodes.len() ==> same_but_model(old_nodes[j], #[trigger] nodes[j])
            &&& forall|j: int|
                0 <= j < nodes.len() && !self.is_item_node(j as NodeId) && j != self.items_left_count_id() && j
                    != self.list_scroll_id() ==> #[trigger] nodes[j] == old_nodes[j]
            &&& after.pending_ui_slots() == self.pending_ui_slots().insert(item_ui_slot(index)).union(
                self.rows_off(after.completed_flags(), self.spec_filter()).map(|i: int| item_ui_slot(i)),
            )
            &&& nodes[self.item_node(index, 1) as int].toggle_state == Some(toggle_for(completed))
            &&& nodes[self.item_node(index, 2) as int].text_role == Some(role_for(completed))
            &&& opt_text_view(nodes[self.items_left_count_id() as int].text) == Some(
                (decimal(active_count(after.completed_flags())), 150u32),
            )
            &&& after.pending_text_style_nodes() == self.pending_text_style_nodes().insert(self.item_node(index, 2))
            &&& after.pending_text_layout_nodes() == self.pending_text_layout_nodes().insert(
                self.items_left_count_id(),
            ).union(self.rows_off(after.completed_flags(), self.spec_filter()).map(|i: int| self.item_node(i, 2)))
            &&& forall|i: int| 0 <= i < 4 ==> #[trigger] after.item_in_place(i)
            &&& self.consistent() ==> after.consistent()
        }
    }

    /// What selecting `filter` does: the filter, the three filter buttons,
    /// the rows the layout moves, and the pending changes.
    pub open spec fn filter_changed(&self, after: &Self, filter: ListFilter) -> bool {
        let old_nodes = self.spec_scene().spec_nodes();
        let nodes = after.spec_scene().spec_nodes();
        &&& self.same_frame(after)
        &&& after.spec_filter() == filter
        &&& after.spec_items() == self.spec_items()
        &&& nodes.len() == old_nodes.len()
        &&& flags_grow(self.spec_scene().spec_dirty_flags(), after.spec_scene().spec_dirty_flags())
        &&& self.linked() ==> {
            &&& after.linked()
            &&& forall|j: int| 0 <= j < nodes.len() ==> same_but_model(old_nodes[j], #[trigger] nodes[j])
            &&& forall|j: int|
                0 <= j < nodes.len() && !self.is_item_node(j as NodeId) && j != self.filter_ids().0 && j
                    != self.filter_ids().1 && j != self.filter_ids().2 && j != self.list_scroll_id()
                    ==> #[trigger] nodes[j] == old_nodes[j]
            &&& after.pending_ui_slots() == self.pending_ui_slots().insert(TODO_UI_SLOT_FILTER_ALL).insert(
                TODO_UI_SLOT_FILTER_ACTIVE,
            ).insert(TODO_UI_SLOT_FILTER_COMPLETED).union(
                self.rows_off(self.completed_flags(), filter).map(|i: int| item_ui_slot(i)),
            )
            &&& after.pending_text_style_nodes() == self.pending_text_style_nodes()
            &&& after.pending_text_layout_nodes() == self.pending_text_layout_nodes().union(
                self.rows_off(self.completed_flags(), filter).map(|i: int| self.item_node(i, 2)),
            )
            &&& forall|i: int| 0 <= i < 4 ==> #[trigger] after.item_in_place(i)
            &&& self.consistent() ==> after.consistent()
        }
    }

    /// A relayout completes a scene whose content already shows the model.
    proof fn lemma_relaid_consistent(&self, after: &Self)
        requires
            self.wf(),
            self.linked(),
            self.consistent_content(),
            self.same_model(after),
            self.relaid_out(after),
        ensures
            after.linked(),
            after.consistent(),
    {
        let nodes = after.spec_scene().spec_nodes();
        let old_nodes = self.spec_scene().spec_nodes();
        lemma_links_kept(*self, *after);
        assert forall|i: int, k: int| 0 <= i < 4 && 0 <= k < 3 implies #[trigger] after.item_node(i, k)
            == self.item_node(i, k) by {}
        assert(after.completed_flags() =~= self.completed_flags());
        assert forall|i: int| 0 <= i < 4 implies {
            let item = #[trigger] after.spec_items()[i];
            &&& nodes[item.checkbox as int].toggle_state == Some(toggle_for(item.completed))
            &&& nodes[item.label as int].text_role == Some(role_for(item.completed))
            &&& opt_text_view(nodes[item.label as int].text) == Some((item.label_text@, 240u32))
        } by {
            let item = self.spec_items()[i];
            assert(self.item_node(i, 1) < nodes.len());
            assert(self.item_node(i, 2) < nodes.len());
            assert(same_but_layout(old_nodes[item.checkbox as int], nodes[item.checkbox as int]));
            assert(same_but_layout(old_nodes[item.label as int], nodes[item.label as int]));
        }
        assert(same_but_layout(old_nodes[self.items_left_count_id() as int], nodes[self.items_left_count_id() as int]));
        assert(same_but_layout(old_nodes[self.filter_ids().0 as int], nodes[self.filter_ids().0 as int]));
        assert(same_but_layout(old_nodes[self.filter_ids().1 as int], nodes[self.filter_ids().1 as int]));
        assert(same_but_layout(old_nodes[self.filter_ids().2 as int], nodes[self.filter_ids().2 as int]));
    }

    /// Rows are misplaced in `other` exactly where they would be misplaced in
    /// `self` under `other`'s model, when both have the same rectangles.
    proof fn lemma_misplaced_same_bounds(&self, other: &Self)
        requires
            self.wf(),
            self.linked(),
            other.wf(),
            forall|i: int, k: int| 0 <= i < 4 && 0 <= k < 3 ==> #[trigger] other.item_node(i, k) == self.item_node(i, k),
            same_bounds(self.spec_scene().spec_nodes(), other.spec_scene().spec_nodes()),
        ensures
            other.misplaced_items() == self.rows_off(other.completed_flags(), other.spec_filter()),
    {
        let a = self.spec_scene().spec_nodes();
        let b = other.spec_scene().spec_nodes();
        assert forall|i: int| 0 <= i < 4 implies other.item_in_place(i) == self.row_at(
            a,
            other.completed_flags(),
            other.spec_filter(),
            i,
        ) by {
            assert(other.item_node(i, 0) < a.len());
            assert(other.item_node(i, 1) < a.len());
            assert(other.item_node(i, 2) < a.len());
            assert(b[other.item_node(i, 0) as int].bounds == a[self.item_node(i, 0) as int].bounds);
            assert(b[other.item_node(i, 1) as int].bounds == a[self.item_node(i, 1) as int].bounds);
            assert(b[other.item_node(i, 2) as int].bounds == a[self.item_node(i, 2) as int].bounds);
        }
        assert(other.misplaced_items() =~= self.rows_off(other.completed_flags(), other.spec_filter()));
    }

    /// Sets the state of item `index` and updates its checkbox, its label's
    /// text role and the counter, without moving any row.
    #[verifier::spinoff_prover]
    #[verifier::rlimit(100)]
    fn apply_completion(&mut self, index: usize, completed: bool)
        requires
            old(self).wf(),
            index < TODO_ITEM_COUNT,
        ensures
            final(self).wf(),
            old(self).same_frame(&*final(self)),
            final(self).spec_filter() == old(self).spec_filter(),
            final(self).spec_items() == old(self).spec_items().update(
                index as int,
                TodoItemNodeIds { completed, ..old(self).spec_items()[index as int] },
            ),
            flags_grow(old(self).spec_scene().spec_dirty_flags(), final(self).spec_scene().spec_dirty_flags()),
            same_bounds(old(self).spec_scene().spec_nodes(), final(self).spec_scene().spec_nodes()),
            forall|j: int| 0 <= j < old(self).spec_scene().spec_nodes().len() ==> same_but_model(
                old(self).spec_scene().spec_nodes()[j],
                #[trigger] final(self).spec_scene().spec_nodes()[j],
            ),
            forall|j: int|
                0 <= j < old(self).spec_scene().spec_nodes().len() && j != old(self).item_node(index as int, 1) && j
                    != old(self).item_node(index as int, 2) && j != old(self).items_left_count_id()
                    ==> #[trigger] final(self).spec_scene().spec_nodes()[j] == old(self).spec_scene().spec_nodes()[j],
            final(self).pending_ui_slots() == old(self).pending_ui_slots().insert(item_ui_slot(index as int)),
            final(self).pending_text_style_nodes() == old(self).pending_text_style_nodes().insert(
                old(self).item_node(index as int, 2),
            ),
            final(self).pending_text_layout_nodes() == old(self).pending_text_layout_nodes().insert(
                old(self).items_left_count_id(),
            ),
            old(self).linked() ==> final(self).linked(),
            old(self).linked() ==> {
                let nodes = final(self).spec_scene().spec_nodes();
                &&& nodes[old(self).item_node(index as int, 1) as int].toggle_state == Some(toggle_for(completed))
                &&& nodes[old(self).item_node(index as int, 2) as int].text_role == Some(role_for(completed))
                &&& opt_text_view(nodes[old(self).items_left_count_id() as int].text) == Some(
                    (decimal(active_count(final(self).completed_flags())), 150u32),
                )
            },
            old(self).linked() && old(self).consistent() ==> final(self).consistent_content(),
    {
        let ghost s0 = *self;
        self.items[index].completed = completed;
        let checkbox = self.items[index].checkbox;
        let label = self.items[index].label;
        let toggle = if completed {
            ToggleState::On
        } else {
            ToggleState::Off
        };
        let role = if completed {
            TextRole::Completed
        } else {
            TextRole::Active
        };
        self.scene.set_toggle_state(checkbox, Some(toggle));
        let ghost s2 = self.spec_scene().spec_nodes();
        self.scene.set_text_role(label, Some(role));
        let ghost s3 = self.spec_scene().spec_nodes();
        self.pending_changes.ui_slots.insert(todo_item_ui_slot_for_index(index));
        self.pending_changes.text_style_nodes.insert(label);
        proof {
            assert(self.item_index_map() == s0.item_index_map());
            assert(self.spec_items() =~= s0.spec_items().update(
                index as int,
                TodoItemNodeIds { completed, ..s0.spec_items()[index as int] },
            ));
        }
        let ghost s4 = *self;
        self.update_items_left_count();
        proof {
            let n0 = s0.spec_scene().spec_nodes();
            let n5 = self.spec_scene().spec_nodes();
            assert(checkbox == s0.item_node(index as int, 1));
            assert(label == s0.item_node(index as int, 2));
            assert forall|i: int, k: int| 0 <= i < 4 && 0 <= k < 3 implies #[trigger] self.item_node(i, k)
                == s0.item_node(i, k) by {}
            assert forall|j: int| 0 <= j < n0.len() implies same_but_model(n0[j], #[trigger] n5[j]) && n5[j].bounds
                == n0[j].bounds by {
                assert(same_but_model(n0[j], s2[j]));
                assert(same_but_model(s2[j], s3[j]));
            }
            if s0.linked() {
                assert(s0.item_node(index as int, 1) != s0.items_left_count_id());
                assert(s0.item_node(index as int, 2) != s0.items_left_count_id());
                assert(s0.item_node(index as int, 1) != s0.item_node(index as int, 2));
                assert(s0.item_node(index as int, 1) < n0.len());
                assert(s0.item_node(index as int, 2) < n0.len());
                assert(n5[checkbox as int] == s3[checkbox as int]);
                assert(n5[label as int] == s3[label as int]);
                assert(s4.completed_flags() =~= self.completed_flags());
                assert(s4.items_left_count_id() == s0.items_left_count_id());
            }
            if s0.linked() && s0.consistent() {
                assert forall|i: int| 0 <= i < 4 implies {
                    let item = #[trigger] self.spec_items()[i];
                    &&& n5[item.checkbox as int].toggle_state == Some(toggle_for(item.completed))
                    &&& n5[item.label as int].text_role == Some(role_for(item.completed))
                    &&& opt_text_view(n5[item.label as int].text) == Some((item.label_text@, 240u32))
                } by {
                    let item = s0.spec_items()[i];
                    assert(s0.item_node(i, 1) != s0.item_node(index as int, 2));
                    assert(s0.item_node(i, 2) != s0.item_node(index as int, 1));
                    assert(s0.item_node(i, 1) < n0.len());
                    assert(s0.item_node(i, 2) < n0.len());
                    if i != index {
                        assert(s0.item_node(i, 1) != s0.item_node(index as int, 1));
                        assert(s0.item_node(i, 2) != s0.item_node(index as int, 2));
                        assert(n5[item.checkbox as int] == n0[item.checkbox as int]);
                        assert(n5[item.label as int] == n0[item.label as int]);
                    } else {
                        assert(n5[item.checkbox as int] == s3[item.checkbox as int]);
                        assert(n5[item.label as int] == s3[item.label as int]);
                    }
                }
                assert(s0.item_node(index as int, 1) != s0.filter_ids().0);
                assert(s0.item_node(index as int, 1) != s0.filter_ids().1);
                assert(s0.item_node(index as int, 1) != s0.filter_ids().2);
                assert(s0.item_node(index as int, 2) != s0.filter_ids().0);
                assert(s0.item_node(index as int, 2) != s0.filter_ids().1);
                assert(s0.item_node(index as int, 2) != s0.filter_ids().2);
                assert(n5[s0.filter_ids().0 as int] == n0[s0.filter_ids().0 as int]);
                assert(n5[s0.filter_ids().1 as int] == n0[s0.filter_ids().1 as int]);
                assert(n5[s0.filter_ids().2 as int] == n0[s0.filter_ids().2 as int]);
            }
        }
    }

    /// Marks item `index` completed or active. Returns whether its state
    /// changed; a change updates the checkbox, the label's text role and the
    /// counter, lays the list out again and records the affected primitives
    /// and text as pending.
    pub fn set_item_completed(&mut self, index: usize, completed: bool) -> (changed: bool)
        requires
            old(self).wf(),
        ensures
            final(self).wf(),
            changed == (index < TODO_ITEM_COUNT && old(self).spec_items()[index as int].completed != completed),
            !changed ==> *final(self) == *old(self),
            changed ==> old(self).completion_changed(&*final(self), index as int, completed),
    {
        if index >= self.items.len() {
            return false;
        }
        if self.items[index].completed == completed {
            return false;
        }
        let ghost s0 = *self;
        self.apply_completion(index, completed);
        let ghost s5 = *self;
        self.relayout_items();
        proof {
            let n0 = s0.spec_scene().spec_nodes();
            let n5 = s5.spec_scene().spec_nodes();
            let n6 = self.spec_scene().spec_nodes();
            if s0.linked() {
                assert forall|i: int, k: int| 0 <= i < 4 && 0 <= k < 3 implies #[trigger] s5.item_node(i, k)
                    == s0.item_node(i, k) by {}
                s0.lemma_misplaced_same_bounds(&s5);
                assert(self.completed_flags() =~= s5.completed_flags());
                assert forall|i: int, k: int| 0 <= i < 4 && 0 <= k < 3 implies #[trigger] self.item_node(i, k)
                    == s5.item_node(i, k) by {}
                assert(self.linked());
                assert(same_but_layout(n5[s0.items_left_count_id() as int], n6[s0.items_left_count_id() as int]));
                let off = s0.rows_off(s5.completed_flags(), s0.spec_filter());
                let m1 = off.map(|i: int| s0.item_node(i, 2));
                let m2 = s5.misplaced_items().map(|i: int| s5.item_node(i, 2));
                assert forall|x: NodeId| #[trigger] m1.contains(x) <==> m2.contains(x) by {
                    if m1.contains(x) {
                        let i = choose|i: int| off.contains(i) && s0.item_node(i, 2) == x;
                        assert(s5.item_node(i, 2) == x);
                    }
                    if m2.contains(x) {
                        let i = choose|i: int| s5.misplaced_items().contains(i) && s5.item_node(i, 2) == x;
                        assert(s0.item_node(i, 2) == x);
                    }
                }
                assert(m1 =~= m2);
                assert forall|j: int| 0 <= j < n0.len() implies same_but_model(n0[j], #[trigger] n6[j]) by {
                    assert(same_but_model(n0[j], n5[j]));
                    assert(same_but_layout(n5[j], n6[j]));
                }
                assert forall|j: int|
                    0 <= j < n6.len() && !s0.is_item_node(j as NodeId) && j != s0.items_left_count_id() && j
                        != s0.list_scroll_id() implies #[trigger] n6[j] == n0[j] by {
                    if j == s0.item_node(index as int, 1) as int {
                        assert(s0.is_item_node(j as NodeId));
                    }
                    if j == s0.item_node(index as int, 2) as int {
                        assert(s0.is_item_node(j as NodeId));
                    }
                    assert(n5[j] == n0[j]);
                    assert(same_but_layout(n5[j], n6[j]));
                }
                if s0.consistent() {
                    s5.lemma_relaid_consistent(&*self);
                }
            }
        }
        true
    }

    /// Flips the completion state of item `index`; false when there is no
    /// such item.
    pub fn toggle_item(&mut self, index: usize) -> (changed: bool)
        requires
            old(self).wf(),
        ensures
            final(self).wf(),
            changed == (index < TODO_ITEM_COUNT),
            !changed ==> *final(self) == *old(self),
            changed ==> old(self).completion_changed(
                &*final(self),
                index as int,
                !old(self).spec_items()[index as int].completed,
            ),
    {
        if index >= self.items.len() {
            return false;
        }
        let completed = self.items[index].completed;
        self.set_item_completed(index, !completed)
    }
}

impl TodoMvcRetainedScene {
    /// Records `filter` and updates the selection of the three filter
    /// buttons, without moving any row.
    #[verifier::spinoff_prover]
    #[verifier::rlimit(100)]
    fn apply_filter(&mut self, filter: ListFilter)
        requires
            old(self).wf(),
        ensures
            final(self).wf(),
            old(self).same_frame(&*final(self)),
            final(self).spec_filter() == filter,
            final(self).spec_items() == old(self).spec_items(),
            flags_grow(old(self).spec_scene().spec_dirty_flags(), final(self).spec_scene().spec_dirty_flags()),
            same_bounds(old(self).spec_scene().spec_nodes(), final(self).spec_scene().spec_nodes()),
            forall|j: int| 0 <= j < old(self).spec_scene().spec_nodes().len() ==> same_but_model(
                old(self).spec_scene().spec_nodes()[j],
                #[trigger] final(self).spec_scene().spec_nodes()[j],
            ),
            forall|j: int|
                0 <= j < old(self).spec_scene().spec_nodes().len() && j != old(self).filter_ids().0 && j
                    != old(self).filter_ids().1 && j != old(self).filter_ids().2
                    ==> #[trigger] final(self).spec_scene().spec_nodes()[j] == old(self).spec_scene().spec_nodes()[j],
            final(self).pending_ui_slots() == old(self).pending_ui_slots().insert(TODO_UI_SLOT_FILTER_ALL).insert(
                TODO_UI_SLOT_FILTER_ACTIVE,
            ).insert(TODO_UI_SLOT_FILTER_COMPLETED),
            final(self).pending_text_style_nodes() == old(self).pending_text_style_nodes(),
            final(self).pending_text_layout_nodes() == old(self).pending_text_layout_nodes(),
            old(self).linked() ==> final(self).linked(),
            old(self).linked() && old(self).consistent() ==> final(self).consistent_content(),
    {
        let ghost s0 = *self;
        self.filter = filter;
        let all = match filter {
            ListFilter::All => SelectionState::Selected,
            _ => SelectionState::Unselected,
        };
        let active = match filter {
            ListFilter::Active => SelectionState::Selected,
            _ => SelectionState::Unselected,
        };
        let completed = match filter {
            ListFilter::Completed => SelectionState::Selected,
            _ => SelectionState::Unselected,
        };
        self.scene.set_selection_state(self.filter_all, Some(all));
        let ghost n1 = self.spec_scene().spec_nodes();
        self.scene.set_selection_state(self.filter_active, Some(active));
        let ghost n2 = self.spec_scene().spec_nodes();
        self.scene.set_selection_state(self.filter_completed, Some(completed));
        self.pending_changes.ui_slots.insert(TODO_UI_SLOT_FILTER_ALL);
        self.pending_changes.ui_slots.insert(TODO_UI_SLOT_FILTER_ACTIVE);
        self.pending_changes.ui_slots.insert(TODO_UI_SLOT_FILTER_COMPLETED);
        proof {
            assert(self.item_index_map() == s0.item_index_map());
            let n0 = s0.spec_scene().spec_nodes();
            let n3 = self.spec_scene().spec_nodes();
            assert forall|i: int, k: int| 0 <= i < 4 && 0 <= k < 3 implies #[trigger] self.item_node(i, k)
                == s0.item_node(i, k) by {}
            assert forall|j: int| 0 <= j < n0.len() implies same_but_model(n0[j], #[trigger] n3[j]) && n3[j].bounds
                == n0[j].bounds by {
                assert(same_but_model(n0[j], n1[j]));
                assert(same_but_model(n1[j], n2[j]));
            }
            if s0.linked() && s0.consistent() {
                assert(self.completed_flags() =~= s0.completed_flags());
                assert forall|i: int| 0 <= i < 4 implies {
                    let item = #[trigger] self.spec_items()[i];
                    &&& n3[item.checkbox as int].toggle_state == Some(toggle_for(item.completed))
                    &&& n3[item.label as int].text_role == Some(role_for(item.completed))
                    &&& opt_text_view(n3[item.label as int].text) == Some((item.label_text@, 240u32))
                } by {
                    assert(s0.item_node(i, 1) < n0.len());
                    assert(s0.item_node(i, 2) < n0.len());
                    assert(s0.item_node(i, 1) != s0.filter_ids().0);
                    assert(s0.item_node(i, 2) != s0.filter_ids().0);
                }
                assert(n3[s0.items_left_count_id() as int] == n0[s0.items_left_count_id() as int]);
                assert(n2[s0.filter_ids().0 as int] == n1[s0.filter_ids().0 as int]);
            }
        }
    }

    /// Selects `filter`. Returns whether it changed; a change updates the
    /// filter buttons, lays the list out again and records the affected
    /// primitives and text as pending.
    pub fn set_filter(&mut self, filter: ListFilter) -> (changed: bool)
        requires
            old(self).wf(),
        ensures
            final(self).wf(),
            changed == (old(self).spec_filter() != filter),
            !changed ==> *final(self) == *old(self),
            changed ==> old(self).filter_changed(&*final(self), filter),
    {
        if self.filter == filter {
            return false;
        }
        let ghost s0 = *self;
        self.apply_filter(filter);
        let ghost s5 = *self;
        self.relayout_items();
        proof {
            let n0 = s0.spec_scene().spec_nodes();
            let n5 = s5.spec_scene().spec_nodes();
            let n6 = self.spec_scene().spec_nodes();
            if s0.linked() {
                assert forall|i: int, k: int| 0 <= i < 4 && 0 <= k < 3 implies #[trigger] s5.item_node(i, k)
                    == s0.item_node(i, k) by {}
                s0.lemma_misplaced_same_bounds(&s5);
                assert(self.completed_flags() =~= s0.completed_flags());
                assert(s5.completed_flags() =~= s0.completed_flags());
                assert forall|i: int, k: int| 0 <= i < 4 && 0 <= k < 3 implies #[trigger] self.item_node(i, k)
                    == s5.item_node(i, k) by {}
                assert(self.linked());
                let off = s0.rows_off(s0.completed_flags(), filter);
                let m1 = off.map(|i: int| s0.item_node(i, 2));
                let m2 = s5.misplaced_items().map(|i: int| s5.item_node(i, 2));
                assert forall|x: NodeId| #[trigger] m1.contains(x) <==> m2.contains(x) by {
                    if m1.contains(x) {
                        let i = choose|i: int| off.contains(i) && s0.item_node(i, 2) == x;
                        assert(s5.item_node(i, 2) == x);
                    }
                    if m2.contains(x) {
                        let i = choose|i: int| s5.misplaced_items().contains(i) && s5.item_node(i, 2) == x;
                        assert(s0.item_node(i, 2) == x);
                    }
                }
                assert(m1 =~= m2);
                assert forall|j: int| 0 <= j < n0.len() implies same_but_model(n0[j], #[trigger] n6[j]) by {
                    assert(same_but_model(n0[j], n5[j]));
                    assert(same_but_layout(n5[j], n6[j]));
                }
                assert forall|j: int|
                    0 <= j < n6.len() && !s0.is_item_node(j as NodeId) && j != s0.filter_ids().0 && j
                        != s0.filter_ids().1 && j != s0.filter_ids().2 && j != s0.list_scroll_id() implies #[trigger] n6[j]
                    == n0[j] by {
                    assert(n5[j] == n0[j]);
                    assert(same_but_layout(n5[j], n6[j]));
                }
                if s0.consistent() {
                    s5.lemma_relaid_consistent(&*self);
                }
            }
        }
        true
    }
}

proof fn lemma_take_all<A>(s: Seq<A>)
    ensures
        s.take(s.len() as int) == s,
{
    assert(s.take(s.len() as int) =~= s);
}

/// `dst` gains every element of `src`.
pub(crate) fn extend_set<K: Ord + Copy>(dst: &mut BTreeSet<K>, src: &BTreeSet<K>)
    requires
        vstd::laws_cmp::obeys_cmp::<K>(),
    ensures
        final(dst)@ == old(dst)@.union(src@),
{
    let ghost d0 = dst@;
    for x in it: src.iter()
        invariant
            vstd::laws_cmp::obeys_cmp::<K>(),
            dst@ == d0.union(it.seq().take(it.index()).unref().to_set()),
            it.seq().unref().to_set() == src@,
            it.index() == it.seq().len() ==> dst@ == d0.union(src@),
    {
        proof {
            assert(it.seq().take(it.index() + 1).unref() =~= it.seq().take(it.index()).unref().push(*x));
            it.seq().take(it.index()).unref().lemma_push_to_set_commute(*x);
        }
        dst.insert(*x);
        proof {
            assert(dst@ =~= d0.union(it.seq().take(it.index() + 1).unref().to_set()));
            lemma_take_all(it.seq());
        }
    }
}

/// Text must be rebuilt; all of it unless the node's change is already pending.
pub open spec fn mark_text(r: DirtyView, pending: bool) -> DirtyView {
    DirtyView { text: true, full_text: r.full_text || !pending, ..r }
}

pub open spec fn mark_ui(r: DirtyView) -> DirtyView {
    DirtyView { ui: true, ..r }
}

pub open spec fn mark_full_ui(r: DirtyView) -> DirtyView {
    DirtyView { ui: true, full_ui: true, ..r }
}

/// UI primitives must be rebuilt, at least those of `slots`.
pub open spec fn mark_ui_slots(r: DirtyView, slots: Set<u16>) -> DirtyView {
    DirtyView { ui: true, ui_slots: r.ui_slots.union(slots), ..r }
}

pub open spec fn filter_slots() -> Set<u16> {
    set![TODO_UI_SLOT_FILTER_ALL, TODO_UI_SLOT_FILTER_ACTIVE, TODO_UI_SLOT_FILTER_COMPLETED]
}

impl TodoMvcResourceDirty {
    fn mark_text(&mut self, pending: bool)
        ensures
            final(self)@ == mark_text(old(self)@, pending),
    {
        self.text = true;
        if !pending {
            self.full_text = true;
        }
    }
}

impl TodoMvcRetainedScene {
    /// A change of node `id`'s text is already recorded as pending.
    pub open spec fn text_change_pending(&self, id: NodeId) -> bool {
        self.pending_text_style_nodes().contains(id) || self.pending_text_layout_nodes().contains(id)
    }

    /// What a dirty node `id` adds to the resources to rebuild `r`.
    pub open spec fn classify(&self, id: NodeId, node: RenderNode, r: DirtyView) -> DirtyView {
        if id == self.list_scroll_id() {
            DirtyView { ui: true, text: true, ..r }
        } else if node.kind == RenderNodeKind::ScrollRoot || node.clip || node.scroll is Some {
            dirty_all()
        } else {
            let pending = self.text_change_pending(id);
            let r1 = if self.item_index_map().contains_key(id) {
                let index = self.item_index_map()[id] as int;
                let item = self.spec_items()[index];
                let ra = if id == item.checkbox || id == item.item {
                    mark_ui_slots(r, set![item_ui_slot(index)])
                } else {
                    r
                };
                if id == item.label {
                    mark_text(ra, pending)
                } else {
                    ra
                }
            } else {
                r
            };
            let r2 = if id == self.filter_ids().0 || id == self.filter_ids().1 || id == self.filter_ids().2 {
                mark_ui_slots(r1, filter_slots())
            } else {
                r1
            };
            let r3 = if node.text is Some {
                mark_text(r2, pending)
            } else {
                r2
            };
            let r4 = if node.toggle_state is Some || node.selection_state is Some {
                mark_ui(r3)
            } else {
                r3
            };
            match node.element {
                ElementKind::Text | ElementKind::Heading | ElementKind::Info => mark_text(r4, pending),
                ElementKind::Checkbox | ElementKind::Shadow | ElementKind::Separator | ElementKind::Button => mark_ui(
                    r4,
                ),
                _ => mark_full_ui(r4),
            }
        }
    }

    fn classify_resource_dirty(&self, id: NodeId, node: &RenderNode, resources: &mut TodoMvcResourceDirty)
        requires
            self.wf(),
        ensures
            final(resources)@ == self.classify(id, *node, old(resources)@),
    {
        if id == self.list_scroll {
            resources.ui = true;
            resources.text = true;
            return;
        }
        if node.kind == RenderNodeKind::ScrollRoot || node.clip || node.scroll.is_some() {
            *resources = TodoMvcResourceDirty::all();
            return;
        }
        let pending = self.pending_changes.text_style_nodes.contains(&id)
            || self.pending_changes.text_layout_nodes.contains(&id);
        if let Some(index) = self.item_index_for_node(id) {
            let item = &self.items[index];
            if id == item.checkbox || id == item.item {
                resources.ui = true;
                resources.ui_slots.insert(todo_item_ui_slot_for_index(index));
            }
            if id == item.label {
                resources.mark_text(pending);
            }
        }
        if id == self.filter_all || id == self.filter_active || id == self.filter_completed {
            resources.ui = true;
            resources.ui_slots.insert(TODO_UI_SLOT_FILTER_ALL);
            resources.ui_slots.insert(TODO_UI_SLOT_FILTER_ACTIVE);
            resources.ui_slots.insert(TODO_UI_SLOT_FILTER_COMPLETED);
        }
        if node.text.is_some() {
            resources.mark_text(pending);
        }
        if node.toggle_state.is_some() || node.selection_state.is_some() {
            resources.ui = true;
        }
        match node.element {
            ElementKind::Text | ElementKind::Heading | ElementKind::Info => {
                resources.mark_text(pending);
            },
            ElementKind::Checkbox | ElementKind::Shadow | ElementKind::Separator | ElementKind::Button => {
                resources.ui = true;
            },
            _ => {
                resources.ui = true;
                resources.full_ui = true;
            },
        }
        proof {
            assert(resources.ui_slots@ =~= self.classify(id, *node, old(resources)@).ui_slots);
        }
    }
}

impl TodoMvcRetainedScene {
    /// The resources to rebuild for the dirty nodes `ids[k..]` after `acc` was
    /// gathered from the earlier ones: the viewport is skipped, and the scan
    /// stops as soon as both the UI and the text must be rebuilt.
    pub open spec fn scan_dirty(&self, ids: Seq<NodeId>, k: int, acc: DirtyView) -> DirtyView
        decreases ids.len() - k,
    {
        if k < 0 || k >= ids.len() {
            acc
        } else if ids[k] == self.viewport_id() {
            self.scan_dirty(ids, k + 1, acc)
        } else {
            let next = self.classify(ids[k], self.spec_scene().spec_nodes()[ids[k] as int], acc);
            if next.ui && next.text {
                next
            } else {
                self.scan_dirty(ids, k + 1, next)
            }
        }
    }

    /// `r` with the pending primitive slots and text nodes added.
    pub open spec fn with_pending(&self, r: DirtyView) -> DirtyView {
        let r1 = if self.pending_ui_slots().is_empty() {
            r
        } else {
            DirtyView { ui: true, ui_slots: r.ui_slots.union(self.pending_ui_slots()), ..r }
        };
        let r2 = if self.pending_text_style_nodes().is_empty() {
            r1
        } else {
            DirtyView {
                text: true,
                text_style_nodes: r1.text_style_nodes.union(self.pending_text_style_nodes()),
                ..r1
            }
        };
        if self.pending_text_layout_nodes().is_empty() {
            r2
        } else {
            DirtyView {
                text: true,
                text_layout_nodes: r2.text_layout_nodes.union(self.pending_text_layout_nodes()),
                ..r2
            }
        }
    }

    /// The GPU resources that the recorded changes invalidate: everything
    /// after a scene-wide change, else what the dirty nodes and the pending
    /// changes name.
    pub open spec fn resource_dirty(&self) -> DirtyView {
        if self.spec_scene().spec_full_dirty() {
            dirty_all()
        } else {
            self.with_pending(self.scan_dirty(self.spec_scene().spec_dirty_ids(), 0, dirty_none()))
        }
    }

    /// Returns the GPU resources that the changes recorded since the last
    /// call invalidate, and forgets those changes.
    pub fn take_resource_dirty(&mut self) -> (r: TodoMvcResourceDirty)
        requires
            old(self).wf(),
        ensures
            r@ == old(self).resource_dirty(),
            final(self).wf(),
            final(self).spec_items() == old(self).spec_items(),
            final(self).spec_filter() == old(self).spec_filter(),
            final(self).viewport_id() == old(self).viewport_id(),
            final(self).list_scroll_id() == old(self).list_scroll_id(),
            final(self).items_left_count_id() == old(self).items_left_count_id(),
            final(self).filter_ids() == old(self).filter_ids(),
            final(self).item_index_map() == old(self).item_index_map(),
            final(self).spec_scene().spec_mode() == old(self).spec_scene().spec_mode(),
            final(self).spec_scene().spec_nodes() == old(self).spec_scene().spec_nodes(),
            !final(self).spec_scene().spec_full_dirty(),
            final(self).spec_scene().spec_dirty_flags() == Seq::new(
                old(self).spec_scene().spec_dirty_flags().len(),
                |i: int| false,
            ),
            final(self).pending_ui_slots().is_empty(),
            final(self).pending_text_style_nodes().is_empty(),
            final(self).pending_text_layout_nodes().is_empty(),
            final(self).linked() == old(self).linked(),
            final(self).consistent() == old(self).consistent(),
            dirty_coherent(r@),
    {
        let ghost pre = *self;
        proof {
            lemma_resource_dirty_coherent(pre);
        }
        let dirty = self.scene.take_dirty();
        if dirty.full_scene {
            self.pending_changes = PendingResourceChanges::new();
            proof {
                assert(self.item_index_map() == pre.item_index_map());
                lemma_same_page_links(pre, *self);
            }
            return TodoMvcResourceDirty::all();
        }
        let ghost ids = dirty.nodes@;
        proof {
            lemma_dirty_ids_bounded(pre.spec_scene().spec_dirty_flags(), pre.spec_scene().spec_dirty_flags().len());
            assert(self.item_index_map() == pre.item_index_map());
        }
        let mut resources = TodoMvcResourceDirty::none();
        let n = dirty.nodes.len();
        let mut k: usize = 0;
        while k < n && !(resources.ui && resources.text)
            invariant
                self.wf(),
                pre.wf(),
                ids == dirty.nodes@,
                ids == pre.spec_scene().spec_dirty_ids(),
                n == ids.len(),
                0 <= k <= n,
                forall|m: int| 0 <= m < ids.len() ==> #[trigger] ids[m] < pre.spec_scene().spec_nodes().len(),
                self.spec_scene().spec_nodes() == pre.spec_scene().spec_nodes(),
                self.same_model_but_dirty(&pre),
                pre.scan_dirty(ids, 0, dirty_none()) == if resources.ui && resources.text {
                    resources@
                } else {
                    pre.scan_dirty(ids, k as int, resources@)
                },
            decreases n - k,
        {
            let id = dirty.nodes[k];
            if id != self.viewport {
                match self.scene.node(id) {
                    Some(node) => {
                        self.classify_resource_dirty(id, node, &mut resources);
                    },
                    None => {},
                }
            }
            k += 1;
        }
        let ghost scanned = resources@;
        if !self.pending_changes.ui_slots.is_empty() {
            resources.ui = true;
            extend_set(&mut resources.ui_slots, &self.pending_changes.ui_slots);
        }
        if !self.pending_changes.text_style_nodes.is_empty() {
            resources.text = true;
            extend_set(&mut resources.text_style_nodes, &self.pending_changes.text_style_nodes);
        }
        if !self.pending_changes.text_layout_nodes.is_empty() {
            resources.text = true;
            extend_set(&mut resources.text_layout_nodes, &self.pending_changes.text_layout_nodes);
        }
        proof {
            assert(scanned == pre.scan_dirty(ids, 0, dirty_none()));
            assert(resources@ == pre.with_pending(scanned));
        }
        self.pending_changes = PendingResourceChanges::new();
        proof {
            assert(self.item_index_map() == pre.item_index_map());
            lemma_same_page_links(pre, *self);
        }
        resources
    }

    /// Everything but the dirty flags agrees.
    pub open spec fn same_model_but_dirty(&self, other: &Self) -> bool {
        &&& self.spec_items() == other.spec_items()
        &&& self.spec_filter() == other.spec_filter()
        &&& self.viewport_id() == other.viewport_id()
        &&& self.list_scroll_id() == other.list_scroll_id()
        &&& self.items_left_count_id() == other.items_left_count_id()
        &&& self.filter_ids() == other.filter_ids()
        &&& self.item_index_map() == other.item_index_map()
        &&& self.pending_ui_slots() == other.pending_ui_slots()
        &&& self.pending_text_style_nodes() == other.pending_text_style_nodes()
        &&& self.pending_text_layout_nodes() == other.pending_text_layout_nodes()
    }
}

impl TodoMvcRetainedScene {
    /// Scanning dirty ids that all name the viewport adds nothing.
    proof fn lemma_scan_viewport_only(&self, ids: Seq<NodeId>, k: int, acc: DirtyView)
        requires
            0 <= k <= ids.len(),
            forall|m: int| k <= m < ids.len() ==> #[trigger] ids[m] == self.viewport_id(),
        ensures
            self.scan_dirty(ids, k, acc) == acc,
        decreases ids.len() - k,
    {
        if k < ids.len() {
            self.lemma_scan_viewport_only(ids, k + 1, acc);
        }
    }
}

/// A scene whose only recorded change concerns the viewport, with no
/// scene-wide change and nothing pending, needs no GPU resource rebuilt:
/// moving or resizing the view costs no resource update.
pub proof fn lemma_viewport_change_needs_no_rebuild(s: TodoMvcRetainedScene)
    requires
        s.wf(),
        !s.spec_scene().spec_full_dirty(),
        forall|j: int|
            0 <= j < s.spec_scene().spec_dirty_flags().len() && j != s.viewport_id() ==> !(
            #[trigger] s.spec_scene().spec_dirty_flags()[j]),
        s.pending_ui_slots().is_empty(),
        s.pending_text_style_nodes().is_empty(),
        s.pending_text_layout_nodes().is_empty(),
    ensures
        s.resource_dirty() == dirty_none(),
{
    let flags = s.spec_scene().spec_dirty_flags();
    let ids = s.spec_scene().spec_dirty_ids();
    lemma_dirty_ids_flagged(flags, flags.len());
    lemma_dirty_ids_bounded(flags, flags.len());
    assert forall|m: int| 0 <= m < ids.len() implies #[trigger] ids[m] == s.viewport_id() by {
        assert(flags[ids[m] as int]);
    }
    s.lemma_scan_viewport_only(ids, 0, dirty_none());
}

/// Two scenes with the same items, filter, remembered ids and nodes are
/// linked, and consistent, alike.
proof fn lemma_same_page_links(a: TodoMvcRetainedScene, b: TodoMvcRetainedScene)
    requires
        a.spec_items() == b.spec_items(),
        a.spec_filter() == b.spec_filter(),
        a.viewport_id() == b.viewport_id(),
        a.list_scroll_id() == b.list_scroll_id(),
        a.items_left_count_id() == b.items_left_count_id(),
        a.filter_ids() == b.filter_ids(),
        a.item_index_map() == b.item_index_map(),
        a.spec_scene().spec_nodes() == b.spec_scene().spec_nodes(),
    ensures
        a.linked() == b.linked(),
        a.consistent() == b.consistent(),
{
    lemma_same_page_links_one_way(a, b);
    lemma_same_page_links_one_way(b, a);
}

/// The remembered ids stay linked while the items, the ids and the number of
/// nodes stay the same.
proof fn lemma_links_kept(a: TodoMvcRetainedScene, b: TodoMvcRetainedScene)
    requires
        a.linked(),
        a.spec_items() == b.spec_items(),
        a.viewport_id() == b.viewport_id(),
        a.list_scroll_id() == b.list_scroll_id(),
        a.items_left_count_id() == b.items_left_count_id(),
        a.filter_ids() == b.filter_ids(),
        a.item_index_map() == b.item_index_map(),
        a.spec_scene().spec_nodes().len() == b.spec_scene().spec_nodes().len(),
    ensures
        b.linked(),
{
    assert forall|i: int, k: int| 0 <= i < 4 && 0 <= k < 3 implies #[trigger] b.item_node(i, k)
        == a.item_node(i, k) by {}
}

proof fn lemma_same_page_links_one_way(a: TodoMvcRetainedScene, b: TodoMvcRetainedScene)
    requires
        a.spec_items() == b.spec_items(),
        a.spec_filter() == b.spec_filter(),
        a.viewport_id() == b.viewport_id(),
        a.list_scroll_id() == b.list_scroll_id(),
        a.items_left_count_id() == b.items_left_count_id(),
        a.filter_ids() == b.filter_ids(),
        a.item_index_map() == b.item_index_map(),
        a.spec_scene().spec_nodes() == b.spec_scene().spec_nodes(),
    ensures
        a.linked() ==> b.linked(),
        a.consistent() ==> b.consistent(),
{
    assert(a.completed_flags() =~= b.completed_flags());
    if a.linked() {
        assert forall|i: int, k: int| 0 <= i < 4 && 0 <= k < 3 implies #[trigger] b.item_node(i, k)
            == a.item_node(i, k) by {}
    }
    if a.consistent() {
        assert forall|i: int| 0 <= i < 4 implies #[trigger] b.item_in_place(i) by {
            assert(a.item_in_place(i));
        }
        assert forall|i: int| 0 <= i < 4 implies {
            let item = #[trigger] b.spec_items()[i];
            &&& b.spec_scene().spec_nodes()[item.checkbox as int].toggle_state == Some(toggle_for(item.completed))
            &&& b.spec_scene().spec_nodes()[item.label as int].text_role == Some(role_for(item.completed))
            &&& opt_text_view(b.spec_scene().spec_nodes()[item.label as int].text) == Some((item.label_text@, 240u32))
        } by {
            assert(a.spec_items()[i] == b.spec_items()[i]);
        }
    }
}

impl TodoMvcRetainedScene {
    /// Classifying one dirty node keeps a plan coherent.
    proof fn lemma_classify_coherent(&self, id: NodeId, node: RenderNode, r: DirtyView)
        requires
            self.wf(),
            dirty_coherent(r),
        ensures
            dirty_coherent(self.classify(id, node, r)),
    {
        if self.item_index_map().contains_key(id) {
            let index = self.item_index_map()[id] as int;
            assert(page_ui_slots().contains(item_ui_slot(index)));
            assert(r.ui_slots.union(set![item_ui_slot(index)]).subset_of(page_ui_slots()));
        }
        assert(filter_slots().subset_of(page_ui_slots()));
        assert(Set::<u16>::empty().subset_of(page_ui_slots()));
        let r1 = mark_ui_slots(r, filter_slots());
        assert(r1.ui_slots.subset_of(page_ui_slots()));
    }

    /// Scanning dirty ids keeps a plan coherent.
    proof fn lemma_scan_coherent(&self, ids: Seq<NodeId>, k: int, acc: DirtyView)
        requires
            self.wf(),
            dirty_coherent(acc),
        ensures
            dirty_coherent(self.scan_dirty(ids, k, acc)),
        decreases ids.len() - k,
    {
        if 0 <= k < ids.len() {
            if ids[k] == self.viewport_id() {
                self.lemma_scan_coherent(ids, k + 1, acc);
            } else {
                let next = self.classify(ids[k], self.spec_scene().spec_nodes()[ids[k] as int], acc);
                self.lemma_classify_coherent(ids[k], self.spec_scene().spec_nodes()[ids[k] as int], acc);
                if !(next.ui && next.text) {
                    self.lemma_scan_coherent(ids, k + 1, next);
                }
            }
        }
    }
}

/// Whatever the recorded changes, the resource rebuilds they call for hang
/// together: a full UI or text rebuild, a primitive slot or a text node to
/// rebuild each come with a UI or text rebuild, and every primitive slot is
/// one of the page's four rows or three filter buttons.
pub proof fn lemma_resource_dirty_coherent(s: TodoMvcRetainedScene)
    requires
        s.wf(),
    ensures
        dirty_coherent(s.resource_dirty()),
{
    assert(Set::<u16>::empty().subset_of(page_ui_slots()));
    if !s.spec_scene().spec_full_dirty() {
        let r = s.scan_dirty(s.spec_scene().spec_dirty_ids(), 0, dirty_none());
        s.lemma_scan_coherent(s.spec_scene().spec_dirty_ids(), 0, dirty_none());
        assert(r.ui_slots.union(s.pending_ui_slots()).subset_of(page_ui_slots()));
    }
}

/// Once the resource changes are taken, a second take finds nothing: the
/// scene is clean and nothing is pending.
pub proof fn lemma_taken_scene_needs_nothing(s: TodoMvcRetainedScene)
    requires
        s.wf(),
        !s.spec_scene().spec_full_dirty(),
        s.spec_scene().spec_dirty_flags() == Seq::new(s.spec_scene().spec_dirty_flags().len(), |i: int| false),
        s.pending_ui_slots().is_empty(),
        s.pending_text_style_nodes().is_empty(),
        s.pending_text_layout_nodes().is_empty(),
    ensures
        s.resource_dirty() == dirty_none(),
{
    lemma_viewport_change_needs_no_rebuild(s);
}

/// Nothing is recorded: no scene-wide change, no dirty node, nothing pending.
pub open spec fn drained(s: TodoMvcRetainedScene) -> bool {
    &&& !s.spec_scene().spec_full_dirty()
    &&& s.spec_scene().spec_dirty_flags() == Seq::new(s.spec_scene().spec_dirty_flags().len(), |i: int| false)
    &&& s.pending_ui_slots().is_empty()
    &&& s.pending_text_style_nodes().is_empty()
    &&& s.pending_text_layout_nodes().is_empty()
}

/// Marking the view transform of a page with nothing recorded leaves a
/// redraw pending (the viewport is dirty) but calls for no GPU resource
/// rebuild, and changes no node.
pub proof fn lemma_view_transform_mark_plans_nothing(a: TodoMvcRetainedScene, b: TodoMvcRetainedScene)
    requires
        a.wf(),
        b.wf(),
        a.linked(),
        drained(a),
        a.view_transform_marked(&b),
    ensures
        b.spec_scene().spec_dirty_flags()[b.viewport_id() as int],
        b.spec_scene().spec_nodes() == a.spec_scene().spec_nodes(),
        b.spec_items() == a.spec_items(),
        b.spec_filter() == a.spec_filter(),
        b.resource_dirty() == dirty_none(),
{
    lemma_viewport_change_needs_no_rebuild(b);
}

/// Setting item `index` of a linked page to `completed` stores the state,
/// so that setting it again changes nothing; the item's checkbox shows it,
/// its label takes the matching text role, the counter shows the number of
/// active items, every row stands where the filter puts it, and the item's
/// primitives are pending.
pub proof fn lemma_completion_effects(a: TodoMvcRetainedScene, b: TodoMvcRetainedScene, index: int, completed: bool)
    requires
        a.wf(),
        a.linked(),
        0 <= index < 4,
        a.completion_changed(&b, index, completed),
    ensures
        b.spec_items()[index].completed == completed,
        b.linked(),
        b.spec_scene().spec_nodes()[a.item_node(index, 1) as int].toggle_state == Some(toggle_for(completed)),
        b.spec_scene().spec_nodes()[a.item_node(index, 2) as int].text_role == Some(role_for(completed)),
        opt_text_view(b.spec_scene().spec_nodes()[a.items_left_count_id() as int].text) == Some(
            (decimal(active_count(b.completed_flags())), 150u32),
        ),
        forall|i: int| 0 <= i < 4 ==> #[trigger] b.item_in_place(i),
        b.pending_ui_slots().contains(item_ui_slot(index)),
        b.pending_text_style_nodes().contains(a.item_node(index, 2)),
        b.pending_text_layout_nodes().contains(a.items_left_count_id()),
{
}

/// Renaming item `index` of a linked page stores the label, so that the same
/// rename again changes nothing; the label node shows it at the label size,
/// and its layout is pending.
pub proof fn lemma_label_effects(a: TodoMvcRetainedScene, b: TodoMvcRetainedScene, index: int, label: Seq<char>)
    requires
        a.wf(),
        a.linked(),
        0 <= index < 4,
        a.label_changed(&b, index, label),
    ensures
        b.spec_items()[index].label_text@ == label,
        b.linked(),
        opt_text_view(b.spec_scene().spec_nodes()[a.item_node(index, 2) as int].text) == Some((label, 240u32)),
        b.pending_text_layout_nodes().contains(a.item_node(index, 2)),
{
}

/// Toggling the same item twice restores the item list and the filter; a
/// scene that showed its model shows it again, and no node changed in
/// anything the model does not drive.
pub proof fn lemma_toggle_twice_restores(
    a: TodoMvcRetainedScene,
    b: TodoMvcRetainedScene,
    c: TodoMvcRetainedScene,
    index: int,
)
    requires
        a.wf(),
        0 <= index < 4,
        a.completion_changed(&b, index, !a.spec_items()[index].completed),
        b.completion_changed(&c, index, !b.spec_items()[index].completed),
    ensures
        c.spec_items() == a.spec_items(),
        c.spec_filter() == a.spec_filter(),
        c.completed_flags() == a.completed_flags(),
        a.linked() ==> forall|j: int|
            0 <= j < a.spec_scene().spec_nodes().len() ==> same_but_model(
                a.spec_scene().spec_nodes()[j],
                #[trigger] c.spec_scene().spec_nodes()[j],
            ),
        a.linked() && a.consistent() ==> c.linked() && c.consistent(),
{
    assert(c.spec_items() =~= a.spec_items());
    if a.linked() {
        assert forall|j: int| 0 <= j < a.spec_scene().spec_nodes().len() implies same_but_model(
            a.spec_scene().spec_nodes()[j],
            #[trigger] c.spec_scene().spec_nodes()[j],
        ) by {
            assert(same_but_model(a.spec_scene().spec_nodes()[j], b.spec_scene().spec_nodes()[j]));
        }
    }
}

} // verus!
