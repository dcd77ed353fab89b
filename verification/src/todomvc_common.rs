//! The TodoMVC page shared by the flat and the physically lit renderers:
//! slot numbering, text-run capacities, the page state, and the plan of GPU
//! resource updates that a change of the page calls for.
use crate::demo_core::ListFilter;
use crate::retained::{flags_after_move, opt_text_view, NodeId, RenderNode, RetainedScene, SceneMode, ScrollState};
use crate::todomvc_retained::{
    dirty_none, extend_set, fresh_page, lemma_fresh_page_dirty_free, lemma_taken_scene_needs_nothing, same_but_text, DirtyView,
    TodoItemNodeIds, TodoMvcResourceDirty, TodoMvcRetainedScene, TODO_ITEM_COUNT,
};
use crate::ui2d_runtime::{RuntimeResourceUpdate, Ui2dRuntimeUpdate, Ui2dSceneState};
use crate::ui_physical_runtime::{UiPhysicalRuntimeUpdate, UiPhysicalSceneState};
use crate::ui_physical_theme::{classic_colors, TextColors};
use std::collections::BTreeSet;
use vstd::prelude::*;

verus! {

pub const TODO_UI_STATIC_PRIM_COUNT: usize = 15;
pub const TODO_UI_PRIMS_PER_ITEM: usize = 3;
pub const TODO_UI_SLOT_ITEM_READ: u16 = 0;
pub const TODO_UI_SLOT_ITEM_FINISH: u16 = 1;
pub const TODO_UI_SLOT_ITEM_WALK: u16 = 2;
pub const TODO_UI_SLOT_ITEM_BUY: u16 = 3;
pub const TODO_UI_SLOT_FILTER_ALL: u16 = 100;
pub const TODO_UI_SLOT_FILTER_ACTIVE: u16 = 101;
pub const TODO_UI_SLOT_FILTER_COMPLETED: u16 = 102;
pub const TODO_TEXT_RUN_COUNT: usize = 15;
pub const TODO_TEXT_RUN_HEADING: u16 = 0;
pub const TODO_TEXT_RUN_PLACEHOLDER: u16 = 1;
pub const TODO_TEXT_RUN_ITEM_READ_LABEL: u16 = 2;
pub const TODO_TEXT_RUN_ITEM_FINISH_LABEL: u16 = 3;
pub const TODO_TEXT_RUN_ITEM_WALK_LABEL: u16 = 4;
pub const TODO_TEXT_RUN_ITEM_BUY_LABEL: u16 = 5;
pub const TODO_TEXT_RUN_ITEMS_LEFT_COUNT: u16 = 6;
pub const TODO_TEXT_RUN_ITEMS_LEFT_SUFFIX: u16 = 7;
pub const TODO_TEXT_RUN_FILTER_ALL: u16 = 8;
pub const TODO_TEXT_RUN_FILTER_ACTIVE: u16 = 9;
pub const TODO_TEXT_RUN_FILTER_COMPLETED: u16 = 10;
pub const TODO_TEXT_RUN_CLEAR_COMPLETED: u16 = 11;
pub const TODO_TEXT_RUN_INFO_EDIT: u16 = 12;
pub const TODO_TEXT_RUN_INFO_AUTHOR: u16 = 13;
pub const TODO_TEXT_RUN_INFO_BRAND: u16 = 14;
pub const TODO_TEXT_GRID_COLUMNS: u32 = 64;
pub const TODO_TEXT_GRID_ROWS: u32 = 48;
/// The virtual canvas edge, in tenths of a pixel.
pub const VIRTUAL_EXTENT: i64 = 7000;
pub const TODO_TEXT_GRID_CELL_CAPACITY: usize = 16;
pub const TODO_TEXT_GRID_INDEX_CAPACITY: usize = 49152;

/// Capacity, in glyphs, of each TodoMVC text run.
pub open spec fn todo_run_capacities() -> Seq<usize> {
    seq![8, 32, 48, 48, 48, 48, 4, 16, 8, 8, 12, 20, 32, 32, 20]
}

/// Sum of the first `n` entries of `s`.
pub open spec fn prefix_sum(s: Seq<usize>, n: nat) -> nat
    decreases n,
{
    if n == 0 {
        0
    } else {
        prefix_sum(s, (n - 1) as nat) + s[n - 1] as nat
    }
}

/// Layout of the fixed grid that indexes glyphs by screen cell.
#[derive(Clone, Copy, Debug, PartialEq, Eq)]
pub struct FixedCharGridSpec {
    pub dims: [u32; 2],
    /// Left, top, right, bottom, in tenths of a pixel.
    pub bounds: [i64; 4],
    pub cell_capacity: usize,
}

/// The text runs of a scene and the grid their glyphs are indexed by.
#[derive(Clone, Debug)]
pub struct FixedTextRunLayout {
    pub run_capacities: Vec<usize>,
    pub grid_spec: FixedCharGridSpec,
}

pub fn todo_text_grid_spec() -> (r: FixedCharGridSpec)
    ensures
        r.dims@ == seq![TODO_TEXT_GRID_COLUMNS, TODO_TEXT_GRID_ROWS],
        r.bounds@ == seq![0i64, 0i64, VIRTUAL_EXTENT, VIRTUAL_EXTENT],
        r.cell_capacity == TODO_TEXT_GRID_CELL_CAPACITY,
        TODO_TEXT_GRID_INDEX_CAPACITY == TODO_TEXT_GRID_COLUMNS * TODO_TEXT_GRID_ROWS
            * TODO_TEXT_GRID_CELL_CAPACITY,
{
    let r = FixedCharGridSpec {
        dims: [TODO_TEXT_GRID_COLUMNS, TODO_TEXT_GRID_ROWS],
        bounds: [0, 0, VIRTUAL_EXTENT, VIRTUAL_EXTENT],
        cell_capacity: TODO_TEXT_GRID_CELL_CAPACITY,
    };
    assert(r.dims@ =~= seq![TODO_TEXT_GRID_COLUMNS, TODO_TEXT_GRID_ROWS]);
    assert(r.bounds@ =~= seq![0i64, 0i64, VIRTUAL_EXTENT, VIRTUAL_EXTENT]);
    r
}

pub fn todo_text_run_layout() -> (r: FixedTextRunLayout)
    ensures
        r.run_capacities@ == todo_run_capacities(),
        r.grid_spec.dims@ == seq![TODO_TEXT_GRID_COLUMNS, TODO_TEXT_GRID_ROWS],
        r.grid_spec.bounds@ == seq![0i64, 0i64, VIRTUAL_EXTENT, VIRTUAL_EXTENT],
        r.grid_spec.cell_capacity == TODO_TEXT_GRID_CELL_CAPACITY,
{
    let run_capacities = vec![8, 32, 48, 48, 48, 48, 4, 16, 8, 8, 12, 20, 32, 32, 20];
    assert(run_capacities@ =~= todo_run_capacities());
    FixedTextRunLayout { run_capacities, grid_spec: todo_text_grid_spec() }
}

/// Glyph capacity of text run `run_index`.
pub fn todo_text_run_capacity(run_index: usize) -> (r: usize)
    requires
        run_index < TODO_TEXT_RUN_COUNT,
    ensures
        r == todo_run_capacities()[run_index as int],
{
    match run_index {
        0 => 8,
        1 => 32,
        2 => 48,
        3 => 48,
        4 => 48,
        5 => 48,
        6 => 4,
        7 => 16,
        8 => 8,
        9 => 8,
        10 => 12,
        11 => 20,
        12 => 32,
        13 => 32,
        _ => 20,
    }
}

/// Position of text run `run_index` in the concatenation of all runs: the sum
/// of the capacities of the runs before it.
pub fn todo_text_run_offset(run_index: usize) -> (r: usize)
    requires
        run_index <= TODO_TEXT_RUN_COUNT,
    ensures
        r == prefix_sum(todo_run_capacities(), run_index as nat),
{
    let mut total: usize = 0;
    let mut i: usize = 0;
    while i < run_index
        invariant
            0 <= i <= run_index <= TODO_TEXT_RUN_COUNT,
            total == prefix_sum(todo_run_capacities(), i as nat),
            total <= 48 * i,
        decreases run_index - i,
    {
        let c = todo_text_run_capacity(i);
        total = total + c;
        i += 1;
    }
    total
}

/// The UI primitive slot of the TodoMVC item at `index`.
pub fn todo_item_ui_slot_for_index(index: usize) -> (r: u16)
    requires
        index < 4,
    ensures
        r == index as u16,
        r == item_ui_slot(index as int),
{
    match index {
        0 => TODO_UI_SLOT_ITEM_READ,
        1 => TODO_UI_SLOT_ITEM_FINISH,
        2 => TODO_UI_SLOT_ITEM_WALK,
        _ => TODO_UI_SLOT_ITEM_BUY,
    }
}

pub open spec fn item_ui_slot(index: int) -> u16 {
    index as u16
}

/// The text run of the label of the TodoMVC item at `index`.
pub open spec fn item_label_run(index: int) -> u16 {
    (TODO_TEXT_RUN_ITEM_READ_LABEL + index) as u16
}

/// The text run that node `id` of `nodes` renders, when it renders one of
/// the page's runs.
pub open spec fn text_run_of_node(nodes: Seq<RenderNode>, id: NodeId) -> Option<u16> {
    if id < nodes.len() {
        match nodes[id as int].text_slot {
            Some(slot) => if slot < TODO_TEXT_RUN_COUNT {
                Some(slot)
            } else {
                None
            },
            None => None,
        }
    } else {
        None
    }
}

/// The text runs that the nodes `ids` render.
pub open spec fn text_runs_of_nodes(nodes: Seq<RenderNode>, ids: Set<NodeId>) -> Set<u16> {
    Set::new(|run: u16| exists|id: NodeId| ids.contains(id) && text_run_of_node(nodes, id) == Some(run))
}

/// The text run index of node `node_id`, when it renders one of the page's runs.
pub fn todo_text_run_index_for_node(scene: &RetainedScene, node_id: NodeId) -> (r: Option<usize>)
    ensures
        r == match text_run_of_node(scene.spec_nodes(), node_id) {
            Some(run) => Some(run as usize),
            None => None::<usize>,
        },
{
    let node = match scene.node(node_id) {
        Some(node) => node,
        None => {
            return None;
        },
    };
    let text_slot = match node.text_slot {
        Some(slot) => slot,
        None => {
            return None;
        },
    };
    if (text_slot as usize) < TODO_TEXT_RUN_COUNT {
        Some(text_slot as usize)
    } else {
        None
    }
}

/// Text colors of the classic TodoMVC page.
pub fn classic_text_colors() -> (r: TextColors)
    ensures
        r == classic_colors(),
{
    TextColors {
        heading: [184, 63, 69],
        active: [72, 72, 72],
        completed: [148, 148, 148],
        placeholder: [153, 153, 153],
        body: [17, 17, 17],
        info: [77, 77, 77],
    }
}

/// A planned update of one GPU resource of the page: rebuild it, or refresh
/// the listed text runs or primitive slots.
pub type TodoMvcResourcePlan = RuntimeResourceUpdate<(), BTreeSet<u16>>;

/// The planned updates of the page's text and UI primitives.
pub type TodoMvcRuntimeUpdate = Ui2dRuntimeUpdate<(), BTreeSet<u16>, (), BTreeSet<u16>>;

/// `plan` rebuilds everything when `full`, else refreshes exactly `parts`;
/// `None` when there is nothing to do.
pub open spec fn plan_matches(plan: Option<TodoMvcResourcePlan>, wanted: bool, full: bool, parts: Set<u16>) -> bool {
    match plan {
        None => !wanted,
        Some(RuntimeResourceUpdate::Full(_)) => wanted && full,
        Some(RuntimeResourceUpdate::Partial(p)) => wanted && !full && p@ == parts,
    }
}

/// The text runs of nodes `dirty_nodes`.
fn text_runs_for_nodes(scene: &RetainedScene, dirty_nodes: &BTreeSet<NodeId>) -> (r: BTreeSet<u16>)
    ensures
        r@ == text_runs_of_nodes(scene.spec_nodes(), dirty_nodes@),
{
    let ghost nodes = scene.spec_nodes();
    let mut runs: BTreeSet<u16> = BTreeSet::new();
    for id in it: dirty_nodes.iter()
        invariant
            nodes == scene.spec_nodes(),
            runs@ == text_runs_of_nodes(nodes, it.seq().take(it.index()).unref().to_set()),
            it.seq().unref().to_set() == dirty_nodes@,
            it.index() == it.seq().len() ==> runs@ == text_runs_of_nodes(nodes, dirty_nodes@),
    {
        let ghost seen = it.seq().take(it.index()).unref().to_set();
        proof {
            assert(it.seq().take(it.index() + 1).unref() =~= it.seq().take(it.index()).unref().push(*id));
            it.seq().take(it.index()).unref().lemma_push_to_set_commute(*id);
        }
        let run = todo_text_run_index_for_node(scene, *id);
        if let Some(r) = run {
            runs.insert(r as u16);
        }
        proof {
            let seen2 = seen.insert(*id);
            assert(runs@ =~= text_runs_of_nodes(nodes, seen2)) by {
                assert forall|x: u16| #[trigger] runs@.contains(x) == text_runs_of_nodes(nodes, seen2).contains(x) by {
                    if text_runs_of_nodes(nodes, seen2).contains(x) {
                        let w = choose|w: NodeId| seen2.contains(w) && text_run_of_node(nodes, w) == Some(x);
                        if w != *id {
                            assert(text_runs_of_nodes(nodes, seen).contains(x));
                        }
                    }
                    if text_runs_of_nodes(nodes, seen).contains(x) {
                        let w = choose|w: NodeId| seen.contains(w) && text_run_of_node(nodes, w) == Some(x);
                        assert(seen2.contains(w));
                    }
                }
            }
            lemma_whole_take(it.seq());
        }
    }
    runs
}

proof fn lemma_whole_take<A>(s: Seq<A>)
    ensures
        s.take(s.len() as int) == s,
{
    assert(s.take(s.len() as int) =~= s);
}

/// The text update for a change: `None` when neither a rebuild nor any node
/// asks for one, a rebuild when `full_rebuild`, else a refresh of the runs of
/// `dirty_nodes`.
pub fn build_text_resource_update(
    scene: &RetainedScene,
    full_rebuild: bool,
    dirty_nodes: &BTreeSet<NodeId>,
) -> (r: Option<TodoMvcResourcePlan>)
    ensures
        plan_matches(
            r,
            full_rebuild || !dirty_nodes@.is_empty(),
            full_rebuild,
            text_runs_of_nodes(scene.spec_nodes(), dirty_nodes@),
        ),
{
    if !full_rebuild && dirty_nodes.is_empty() {
        return None;
    }
    if full_rebuild {
        Some(RuntimeResourceUpdate::Full(()))
    } else {
        Some(RuntimeResourceUpdate::Partial(text_runs_for_nodes(scene, dirty_nodes)))
    }
}

/// The UI-primitive update for a change: `None` when neither a rebuild nor
/// any slot asks for one, a rebuild when `full_rebuild`, else a refresh of
/// `dirty_slots`.
pub fn build_ui_resource_update(full_rebuild: bool, dirty_slots: &BTreeSet<u16>) -> (r: Option<TodoMvcResourcePlan>)
    ensures
        plan_matches(r, full_rebuild || !dirty_slots@.is_empty(), full_rebuild, dirty_slots@),
{
    if !full_rebuild && dirty_slots.is_empty() {
        return None;
    }
    if full_rebuild {
        Some(RuntimeResourceUpdate::Full(()))
    } else {
        Some(RuntimeResourceUpdate::Partial(dirty_slots.clone()))
    }
}

/// The text must be rebuilt from scratch: a full rebuild was asked for, or
/// the change names no particular text node.
pub open spec fn text_full(d: DirtyView) -> bool {
    d.full_text || (d.text_style_nodes.is_empty() && d.text_layout_nodes.is_empty())
}

pub open spec fn ui_full(d: DirtyView) -> bool {
    d.full_ui || d.ui_slots.is_empty()
}

/// The updates of the page's text and UI primitives that `dirty` calls for.
pub fn build_scene_resource_update(scene: &RetainedScene, dirty: &TodoMvcResourceDirty) -> (r: TodoMvcRuntimeUpdate)
    ensures
        plan_matches(
            r.text,
            dirty@.text,
            text_full(dirty@),
            text_runs_of_nodes(scene.spec_nodes(), dirty@.text_style_nodes.union(dirty@.text_layout_nodes)),
        ),
        plan_matches(r.ui, dirty@.ui, ui_full(dirty@), dirty@.ui_slots),
{
    let text = if dirty.text {
        let mut nodes = dirty.text_style_nodes.clone();
        extend_set(&mut nodes, &dirty.text_layout_nodes);
        let full = dirty.full_text || (dirty.text_style_nodes.is_empty() && dirty.text_layout_nodes.is_empty());
        build_text_resource_update(scene, full, &nodes)
    } else {
        None
    };
    let ui = if dirty.ui {
        build_ui_resource_update(dirty.full_ui || dirty.ui_slots.is_empty(), &dirty.ui_slots)
    } else {
        None
    };
    Ui2dRuntimeUpdate { text, ui }
}

/// The TodoMVC page as the renderers hold it.
pub struct TodoMvcRetainedState {
    retained_scene: TodoMvcRetainedScene,
}

impl TodoMvcRetainedState {
    pub closed spec fn spec_retained(&self) -> TodoMvcRetainedScene {
        self.retained_scene
    }

    /// The initial page with a `width` by `height` viewport, every change of
    /// the scene already taken.
    pub fn new(mode: SceneMode, width: u32, height: u32) -> (r: Self)
        ensures
            fresh_page(r.spec_retained(), mode, width, height),
            r.spec_retained().spec_scene().spec_dirty_flags() == Seq::new(
                r.spec_retained().spec_scene().spec_dirty_flags().len(),
                |i: int| false,
            ),
            !r.spec_retained().spec_scene().spec_full_dirty(),
    {
        let mut retained_scene = TodoMvcRetainedScene::new(mode, width, height);
        let ghost fresh = retained_scene;
        retained_scene.scene_mut().clear_dirty();
        proof {
            lemma_fresh_page_dirty_free(fresh, retained_scene, mode, width, height);
        }
        TodoMvcRetainedState { retained_scene }
    }

    pub fn scene(&self) -> (r: &RetainedScene)
        ensures
            *r == self.spec_retained().spec_scene(),
    {
        self.retained_scene.scene()
    }

    pub fn scene_mut(&mut self) -> (r: &mut RetainedScene)
        ensures
            *r == old(self).spec_retained().spec_scene(),
            final(self).spec_retained().spec_scene() == *final(r),
            final(self).spec_retained().spec_items() == old(self).spec_retained().spec_items(),
            final(self).spec_retained().spec_filter() == old(self).spec_retained().spec_filter(),
            final(self).spec_retained().viewport_id() == old(self).spec_retained().viewport_id(),
            final(self).spec_retained().list_scroll_id() == old(self).spec_retained().list_scroll_id(),
            final(self).spec_retained().items_left_count_id() == old(self).spec_retained().items_left_count_id(),
            final(self).spec_retained().filter_ids() == old(self).spec_retained().filter_ids(),
            final(self).spec_retained().item_index_map() == old(self).spec_retained().item_index_map(),
            final(self).spec_retained().pending_ui_slots() == old(self).spec_retained().pending_ui_slots(),
            final(self).spec_retained().pending_text_style_nodes() == old(self).spec_retained().pending_text_style_nodes(),
            final(self).spec_retained().pending_text_layout_nodes() == old(self).spec_retained().pending_text_layout_nodes(),
    {
        self.retained_scene.scene_mut()
    }

    pub fn retained_scene(&self) -> (r: &TodoMvcRetainedScene)
        ensures
            *r == self.spec_retained(),
    {
        &self.retained_scene
    }

    pub fn retained_scene_mut(&mut self) -> (r: &mut TodoMvcRetainedScene)
        ensures
            *r == old(self).spec_retained(),
            final(self).spec_retained() == *final(r),
    {
        &mut self.retained_scene
    }

    pub fn mark_view_transform_dirty(&mut self)
        requires
            old(self).spec_retained().wf(),
        ensures
            final(self).spec_retained().wf(),
            old(self).spec_retained().view_transform_marked(&final(self).spec_retained()),
    {
        self.retained_scene.mark_view_transform_dirty();
    }

    pub fn set_viewport_size(&mut self, width: u32, height: u32)
        requires
            old(self).spec_retained().wf(),
        ensures
            final(self).spec_retained().wf(),
            old(self).spec_retained().same_model(&final(self).spec_retained()),
            final(self).spec_retained().pending_ui_slots() == old(self).spec_retained().pending_ui_slots(),
            final(self).spec_retained().pending_text_style_nodes() == old(self).spec_retained().pending_text_style_nodes(),
            final(self).spec_retained().pending_text_layout_nodes() == old(self).spec_retained().pending_text_layout_nodes(),
            final(self).spec_retained().spec_scene().spec_dirty_flags() == flags_after_move(
                old(self).spec_retained().spec_scene().spec_nodes(),
                old(self).spec_retained().spec_scene().spec_dirty_flags(),
                old(self).spec_retained().viewport_id(),
                crate::retained::Rect { x: 0, y: 0, width: (width * 10) as i64, height: (height * 10) as i64 },
            ),
            final(self).spec_retained().spec_scene().spec_nodes() == if old(self).spec_retained().spec_scene().valid_id(
                old(self).spec_retained().viewport_id(),
            ) {
                old(self).spec_retained().spec_scene().spec_nodes().update(
                    old(self).spec_retained().viewport_id() as int,
                    RenderNode {
                        bounds: crate::retained::Rect {
                            x: 0,
                            y: 0,
                            width: (width * 10) as i64,
                            height: (height * 10) as i64,
                        },
                        ..old(self).spec_retained().spec_scene().spec_nodes()[old(self).spec_retained().viewport_id() as int]
                    },
                )
            } else {
                old(self).spec_retained().spec_scene().spec_nodes()
            },
    {
        self.retained_scene.set_viewport_size(width, height);
    }

    /// Takes the changes recorded so far and plans the GPU resource updates
    /// they call for; `None`, with the changes forgotten, when they call for
    /// none.
    pub fn take_scene_resource_update(&mut self) -> (r: Option<TodoMvcRuntimeUpdate>)
        requires
            old(self).spec_retained().wf(),
        ensures
            final(self).spec_retained().wf(),
            final(self).spec_retained().spec_scene().spec_nodes() == old(self).spec_retained().spec_scene().spec_nodes(),
            final(self).spec_retained().spec_items() == old(self).spec_retained().spec_items(),
            final(self).spec_retained().spec_filter() == old(self).spec_retained().spec_filter(),
            !final(self).spec_retained().spec_scene().spec_full_dirty(),
            final(self).spec_retained().pending_ui_slots().is_empty(),
            final(self).spec_retained().pending_text_style_nodes().is_empty(),
            final(self).spec_retained().pending_text_layout_nodes().is_empty(),
            final(self).spec_retained().spec_scene().spec_dirty_flags() == Seq::new(
                old(self).spec_retained().spec_scene().spec_dirty_flags().len(),
                |i: int| false,
            ),
            final(self).spec_retained().resource_dirty() == dirty_none(),
            old(self).spec_retained().same_page(&final(self).spec_retained()),
            final(self).spec_retained().linked() == old(self).spec_retained().linked(),
            final(self).spec_retained().consistent() == old(self).spec_retained().consistent(),
            ({
                let d = old(self).spec_retained().resource_dirty();
                let nodes = old(self).spec_retained().spec_scene().spec_nodes();
                match r {
                    None => !d.ui && !d.text,
                    Some(u) => {
                        &&& d.ui || d.text
                        &&& plan_matches(
                            u.text,
                            d.text,
                            text_full(d),
                            text_runs_of_nodes(nodes, d.text_style_nodes.union(d.text_layout_nodes)),
                        )
                        &&& plan_matches(u.ui, d.ui, ui_full(d), d.ui_slots)
                    },
                }
            }),
    {
        let dirty = self.retained_scene.take_resource_dirty();
        proof {
            lemma_taken_scene_needs_nothing(self.retained_scene);
        }
        if !dirty.any() {
            return None;
        }
        Some(build_scene_resource_update(self.retained_scene.scene(), &dirty))
    }

    pub fn toggle_item(&mut self, index: usize) -> (changed: bool)
        requires
            old(self).spec_retained().wf(),
        ensures
            final(self).spec_retained().wf(),
            changed == (index < 4),
            !changed ==> *final(self) == *old(self),
            changed ==> old(self).spec_retained().completion_changed(
                &final(self).spec_retained(),
                index as int,
                !old(self).spec_retained().spec_items()[index as int].completed,
            ),
    {
        self.retained_scene.toggle_item(index)
    }

    pub fn set_item_completed(&mut self, index: usize, completed: bool) -> (changed: bool)
        requires
            old(self).spec_retained().wf(),
        ensures
            final(self).spec_retained().wf(),
            changed == (index < 4 && old(self).spec_retained().spec_items()[index as int].completed != completed),
            !changed ==> *final(self) == *old(self),
            changed ==> old(self).spec_retained().completion_changed(&final(self).spec_retained(), index as int, completed),
    {
        self.retained_scene.set_item_completed(index, completed)
    }

    pub fn set_item_label(&mut self, index: usize, label: &str) -> (changed: bool)
        requires
            old(self).spec_retained().wf(),
        ensures
            final(self).spec_retained().wf(),
            changed == (index < TODO_ITEM_COUNT && old(self).spec_retained().spec_items()[index as int].label_text@ != label@),
            !changed ==> *final(self) == *old(self),
            changed ==> old(self).spec_retained().label_changed(&final(self).spec_retained(), index as int, label@),
    {
        self.retained_scene.set_item_label(index, label)
    }

    /// Scrolls the list to `y`, in tenths of a pixel.
    pub fn set_scroll_offset(&mut self, y: i64)
        requires
            old(self).spec_retained().wf(),
        ensures
            final(self).spec_retained().wf(),
            old(self).spec_retained().same_model(&final(self).spec_retained()),
            final(self).spec_retained().pending_text_style_nodes() == old(self).spec_retained().pending_text_style_nodes(),
            match old(self).spec_retained().list_scroll_state() {
                None => *final(self) == *old(self),
                Some(sc) => {
                    let ls = old(self).spec_retained().list_scroll_id() as int;
                    let nodes = old(self).spec_retained().spec_scene().spec_nodes();
                    let touched = old(self).spec_retained().scroll_touched(sc.offset_y, y);
                    &&& final(self).spec_retained().spec_scene().spec_nodes() == nodes.update(
                        ls,
                        RenderNode { scroll: Some(ScrollState { offset_x: 0, offset_y: y, ..sc }), ..nodes[ls] },
                    )
                    &&& final(self).spec_retained().pending_ui_slots() == old(self).spec_retained().pending_ui_slots().union(
                        touched.map(|i: int| item_ui_slot(i)),
                    )
                    &&& final(self).spec_retained().pending_text_layout_nodes()
                        == old(self).spec_retained().pending_text_layout_nodes().union(
                        touched.map(|i: int| old(self).spec_retained().item_node(i, 2)),
                    )
                },
            },
            old(self).spec_retained().linked() && old(self).spec_retained().consistent()
                ==> final(self).spec_retained().consistent(),
    {
        self.retained_scene.set_scroll_offset(y);
    }

    pub fn set_filter(&mut self, filter: ListFilter) -> (changed: bool)
        requires
            old(self).spec_retained().wf(),
        ensures
            final(self).spec_retained().wf(),
            changed == (old(self).spec_retained().spec_filter() != filter),
            !changed ==> *final(self) == *old(self),
            changed ==> old(self).spec_retained().filter_changed(&final(self).spec_retained(), filter),
    {
        self.retained_scene.set_filter(filter)
    }
}

impl Ui2dSceneState for TodoMvcRetainedState {
    type Update = TodoMvcRuntimeUpdate;

    open spec fn scene_state_wf(&self) -> bool {
        self.spec_retained().wf()
    }

    open spec fn spec_state_scene(&self) -> RetainedScene {
        self.spec_retained().spec_scene()
    }

    fn take_ui2d_runtime_update(&mut self) -> (r: Option<TodoMvcRuntimeUpdate>)
        ensures
            final(self).spec_retained().spec_scene().spec_nodes() == old(self).spec_retained().spec_scene().spec_nodes(),
            final(self).spec_retained().spec_items() == old(self).spec_retained().spec_items(),
            final(self).spec_retained().spec_filter() == old(self).spec_retained().spec_filter(),
            !final(self).spec_retained().spec_scene().spec_full_dirty(),
            final(self).spec_retained().pending_ui_slots().is_empty(),
            final(self).spec_retained().pending_text_style_nodes().is_empty(),
            final(self).spec_retained().pending_text_layout_nodes().is_empty(),
            final(self).spec_retained().spec_scene().spec_dirty_flags() == Seq::new(
                old(self).spec_retained().spec_scene().spec_dirty_flags().len(),
                |i: int| false,
            ),
            final(self).spec_retained().resource_dirty() == dirty_none(),
            old(self).spec_retained().same_page(&final(self).spec_retained()),
            final(self).spec_retained().linked() == old(self).spec_retained().linked(),
            final(self).spec_retained().consistent() == old(self).spec_retained().consistent(),
            ({
                let d = old(self).spec_retained().resource_dirty();
                let nodes = old(self).spec_retained().spec_scene().spec_nodes();
                match r {
                    None => !d.ui && !d.text,
                    Some(u) => {
                        &&& d.ui || d.text
                        &&& plan_matches(
                            u.text,
                            d.text,
                            text_full(d),
                            text_runs_of_nodes(nodes, d.text_style_nodes.union(d.text_layout_nodes)),
                        )
                        &&& plan_matches(u.ui, d.ui, ui_full(d), d.ui_slots)
                    },
                }
            }),
    {
        TodoMvcRetainedState::take_scene_resource_update(self)
    }

    fn mark_view_transform_dirty(&mut self)
        ensures
            old(self).spec_retained().view_transform_marked(&final(self).spec_retained()),
    {
        self.retained_scene.mark_view_transform_dirty();
    }

    fn set_viewport_size(&mut self, width: u32, height: u32)
        ensures
            old(self).spec_retained().same_model(&final(self).spec_retained()),
            final(self).spec_retained().spec_scene().spec_dirty_flags() == flags_after_move(
                old(self).spec_retained().spec_scene().spec_nodes(),
                old(self).spec_retained().spec_scene().spec_dirty_flags(),
                old(self).spec_retained().viewport_id(),
                crate::retained::Rect { x: 0, y: 0, width: (width * 10) as i64, height: (height * 10) as i64 },
            ),
            final(self).spec_retained().spec_scene().spec_nodes() == if old(self).spec_retained().spec_scene().valid_id(
                old(self).spec_retained().viewport_id(),
            ) {
                old(self).spec_retained().spec_scene().spec_nodes().update(
                    old(self).spec_retained().viewport_id() as int,
                    RenderNode {
                        bounds: crate::retained::Rect {
                            x: 0,
                            y: 0,
                            width: (width * 10) as i64,
                            height: (height * 10) as i64,
                        },
                        ..old(self).spec_retained().spec_scene().spec_nodes()[old(self).spec_retained().viewport_id() as int]
                    },
                )
            } else {
                old(self).spec_retained().spec_scene().spec_nodes()
            },
    {
        self.retained_scene.set_viewport_size(width, height);
    }

    fn scene(&self) -> (r: &RetainedScene) {
        self.retained_scene.scene()
    }

    fn scene_mut(&mut self) -> (r: &mut RetainedScene) {
        self.retained_scene.scene_mut()
    }
}

impl UiPhysicalSceneState for TodoMvcRetainedState {
    type TextData = ();
    type TextPatch = BTreeSet<u16>;
    type UiData = ();
    type UiPatch = BTreeSet<u16>;

    open spec fn scene_state_wf(&self) -> bool {
        self.spec_retained().wf()
    }

    open spec fn spec_state_scene(&self) -> RetainedScene {
        self.spec_retained().spec_scene()
    }

    fn take_ui_physical_resource_update(&mut self) -> (r: Option<
        UiPhysicalRuntimeUpdate<(), BTreeSet<u16>, (), BTreeSet<u16>>,
    >)
        ensures
            final(self).spec_retained().spec_scene().spec_nodes() == old(self).spec_retained().spec_scene().spec_nodes(),
            final(self).spec_retained().spec_items() == old(self).spec_retained().spec_items(),
            final(self).spec_retained().spec_filter() == old(self).spec_retained().spec_filter(),
            !final(self).spec_retained().spec_scene().spec_full_dirty(),
            final(self).spec_retained().pending_ui_slots().is_empty(),
            final(self).spec_retained().pending_text_style_nodes().is_empty(),
            final(self).spec_retained().pending_text_layout_nodes().is_empty(),
            final(self).spec_retained().spec_scene().spec_dirty_flags() == Seq::new(
                old(self).spec_retained().spec_scene().spec_dirty_flags().len(),
                |i: int| false,
            ),
            final(self).spec_retained().resource_dirty() == dirty_none(),
            old(self).spec_retained().same_page(&final(self).spec_retained()),
            final(self).spec_retained().linked() == old(self).spec_retained().linked(),
            final(self).spec_retained().consistent() == old(self).spec_retained().consistent(),
            ({
                let d = old(self).spec_retained().resource_dirty();
                let nodes = old(self).spec_retained().spec_scene().spec_nodes();
                match r {
                    None => !d.ui && !d.text,
                    Some(u) => {
                        &&& d.ui || d.text
                        &&& plan_matches(
                            u.text,
                            d.text,
                            text_full(d),
                            text_runs_of_nodes(nodes, d.text_style_nodes.union(d.text_layout_nodes)),
                        )
                        &&& plan_matches(u.ui, d.ui, ui_full(d), d.ui_slots)
                    },
                }
            }),
    {
        match TodoMvcRetainedState::take_scene_resource_update(self) {
            Some(update) => Some(UiPhysicalRuntimeUpdate::from_ui2d(update)),
            None => None,
        }
    }

    fn mark_view_transform_dirty(&mut self)
        ensures
            old(self).spec_retained().view_transform_marked(&final(self).spec_retained()),
    {
        self.retained_scene.mark_view_transform_dirty();
    }

    fn set_viewport_size(&mut self, width: u32, height: u32)
        ensures
            old(self).spec_retained().same_model(&final(self).spec_retained()),
            final(self).spec_retained().spec_scene().spec_dirty_flags() == flags_after_move(
                old(self).spec_retained().spec_scene().spec_nodes(),
                old(self).spec_retained().spec_scene().spec_dirty_flags(),
                old(self).spec_retained().viewport_id(),
                crate::retained::Rect { x: 0, y: 0, width: (width * 10) as i64, height: (height * 10) as i64 },
            ),
            final(self).spec_retained().spec_scene().spec_nodes() == if old(self).spec_retained().spec_scene().valid_id(
                old(self).spec_retained().viewport_id(),
            ) {
                old(self).spec_retained().spec_scene().spec_nodes().update(
                    old(self).spec_retained().viewport_id() as int,
                    RenderNode {
                        bounds: crate::retained::Rect {
                            x: 0,
                            y: 0,
                            width: (width * 10) as i64,
                            height: (height * 10) as i64,
                        },
                        ..old(self).spec_retained().spec_scene().spec_nodes()[old(self).spec_retained().viewport_id() as int]
                    },
                )
            } else {
                old(self).spec_retained().spec_scene().spec_nodes()
            },
    {
        self.retained_scene.set_viewport_size(width, height);
    }

    fn scene(&self) -> (r: &RetainedScene) {
        self.retained_scene.scene()
    }

    fn scene_mut(&mut self) -> (r: &mut RetainedScene) {
        self.retained_scene.scene_mut()
    }
}

} // verus!
