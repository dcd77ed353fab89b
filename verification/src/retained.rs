//! Retained scene graph: nodes with layout rectangles, semantic roles and
//! per-node dirty tracking.
//!
//! Geometry is kept in tenths of a pixel (`i64`), colors as 8-bit channels
//! with an alpha percentage, so that every quantity is an exact integer.
use vstd::prelude::*;

verus! {

/// Identifier of a node: its index in the scene's node list.
pub type NodeId = u64;

/// Axis-aligned rectangle in tenths of a pixel.
#[derive(Clone, Copy, Debug, PartialEq, Eq, Structural)]
pub struct Rect {
    pub x: i64,
    pub y: i64,
    pub width: i64,
    pub height: i64,
}

impl Rect {
    pub fn new(x: i64, y: i64, width: i64, height: i64) -> (r: Rect)
        ensures
            r == (Rect { x, y, width, height }),
    {
        Rect { x, y, width, height }
    }

    /// Two rectangles overlap with a positive area.
    pub open spec fn spec_overlaps(self, other: Rect) -> bool {
        &&& self.x < other.x + other.width
        &&& other.x < self.x + self.width
        &&& self.y < other.y + other.height
        &&& other.y < self.y + self.height
    }

    pub fn overlaps(&self, other: &Rect) -> (r: bool)
        ensures
            r == self.spec_overlaps(*other),
    {
        let sx = self.x as i128;
        let sy = self.y as i128;
        let ox = other.x as i128;
        let oy = other.y as i128;
        sx < ox + other.width as i128 && ox < sx + self.width as i128 && sy < oy
            + other.height as i128 && oy < sy + self.height as i128
    }
}

#[derive(Clone, Copy, Debug, PartialEq, Eq, Structural)]
pub enum SceneMode {
    Ui2D,
    UiPhysical,
}

#[derive(Clone, Copy, Debug, PartialEq, Eq, Structural)]
pub enum RenderNodeKind {
    Root,
    Viewport,
    Primitive,
    Group,
    Clip,
    ScrollRoot,
}

#[derive(Clone, Copy, Debug, PartialEq, Eq, Structural)]
pub enum ElementKind {
    Root,
    Viewport,
    Heading,
    Shadow,
    Panel,
    Input,
    Separator,
    Text,
    Clip,
    ScrollContainer,
    Group,
    Checkbox,
    Footer,
    Button,
    Info,
}

#[derive(Clone, Copy, Debug, PartialEq, Eq, Structural)]
pub enum TextRole {
    Heading,
    Placeholder,
    Active,
    Completed,
    Body,
    Info,
}

#[derive(Clone, Copy, Debug, PartialEq, Eq, Structural)]
pub enum ToggleState {
    On,
    Off,
}

#[derive(Clone, Copy, Debug, PartialEq, Eq, Structural)]
pub enum SelectionState {
    Selected,
    Unselected,
}

#[derive(Clone, Copy, Debug, PartialEq, Eq, Structural)]
pub enum UiVisualRole {
    BoxShadow,
    FilledSurface,
    OutlineRect,
    ChevronMark,
    SeparatorLine,
    CheckboxControl,
    CompletedTextDecoration,
    SelectionOutline,
}

/// An 8-bit RGB color with an opacity given in percent.
#[derive(Clone, Copy, Debug, PartialEq, Eq)]
pub struct Color {
    pub r: u8,
    pub g: u8,
    pub b: u8,
    pub alpha_percent: u8,
}

/// Visual parameters of a UI primitive; lengths in tenths of a pixel.
#[derive(Clone, Copy, Debug, PartialEq, Eq)]
pub struct UiVisualStyle {
    pub base_color: Color,
    pub accent_color: Color,
    pub detail_color: Color,
    pub stroke_width: i32,
    pub corner_radius: i32,
    pub offset: (i32, i32),
    pub extra_size: (i32, i32),
}

/// Text content of a node; the font size is in tenths of a pixel.
#[derive(Clone, Debug, PartialEq, Eq)]
pub struct TextNode {
    pub text: String,
    pub font_size: u32,
}

impl TextNode {
    pub fn new(text: String, font_size: u32) -> (r: TextNode)
        ensures
            r.text@ == text@,
            r.font_size == font_size,
    {
        TextNode { text, font_size }
    }
}

/// Scroll position and extents of a scroll root, in tenths of a pixel.
#[derive(Clone, Copy, Debug, PartialEq, Eq, Structural)]
pub struct ScrollState {
    pub offset_x: i64,
    pub offset_y: i64,
    pub content_width: i64,
    pub content_height: i64,
    pub viewport_width: i64,
    pub viewport_height: i64,
}

impl ScrollState {
    /// A scroll state at offset zero with the given viewport and content extents.
    pub fn new(viewport_width: i64, viewport_height: i64, content_width: i64, content_height: i64) -> (r: ScrollState)
        ensures
            r == (ScrollState {
                offset_x: 0,
                offset_y: 0,
                content_width,
                content_height,
                viewport_width,
                viewport_height,
            }),
    {
        ScrollState { offset_x: 0, offset_y: 0, content_width, content_height, viewport_width, viewport_height }
    }
}

/// Everything a node carries besides its identity and its parent.
#[derive(Clone, Debug)]
pub struct RenderNodeDescriptor {
    pub kind: RenderNodeKind,
    pub element: ElementKind,
    pub bounds: Rect,
    pub name: Option<String>,
    pub key: Option<String>,
    pub text_slot: Option<u16>,
    pub text: Option<TextNode>,
    pub text_role: Option<TextRole>,
    pub ui_slot: Option<u16>,
    pub ui_primitive_count: u16,
    pub ui_visual_role: Option<UiVisualRole>,
    pub ui_visual_style: Option<UiVisualStyle>,
    pub material: [i32; 3],
    pub toggle_state: Option<ToggleState>,
    pub selection_state: Option<SelectionState>,
    pub clip: bool,
    pub scroll: Option<ScrollState>,
}

/// A node of the scene.
#[derive(Clone, Debug)]
pub struct RenderNode {
    pub id: NodeId,
    pub parent: Option<NodeId>,
    pub kind: RenderNodeKind,
    pub element: ElementKind,
    pub bounds: Rect,
    pub name: Option<String>,
    pub key: Option<String>,
    pub text_slot: Option<u16>,
    pub text: Option<TextNode>,
    pub text_role: Option<TextRole>,
    pub ui_slot: Option<u16>,
    pub ui_primitive_count: u16,
    pub ui_visual_role: Option<UiVisualRole>,
    pub ui_visual_style: Option<UiVisualStyle>,
    pub material: [i32; 3],
    pub toggle_state: Option<ToggleState>,
    pub selection_state: Option<SelectionState>,
    pub clip: bool,
    pub scroll: Option<ScrollState>,
}

pub open spec fn opt_string_view(s: Option<String>) -> Option<Seq<char>> {
    match s {
        Some(s) => Some(s@),
        None => None,
    }
}

pub open spec fn opt_text_view(t: Option<TextNode>) -> Option<(Seq<char>, u32)> {
    match t {
        Some(t) => Some((t.text@, t.font_size)),
        None => None,
    }
}

/// The node that `append_node` builds from a descriptor.
pub open spec fn node_from_descriptor(id: NodeId, parent: NodeId, d: RenderNodeDescriptor) -> RenderNode {
    RenderNode {
        id,
        parent: Some(parent),
        kind: d.kind,
        element: d.element,
        bounds: d.bounds,
        name: d.name,
        key: d.key,
        text_slot: d.text_slot,
        text: d.text,
        text_role: d.text_role,
        ui_slot: d.ui_slot,
        ui_primitive_count: d.ui_primitive_count,
        ui_visual_role: d.ui_visual_role,
        ui_visual_style: d.ui_visual_style,
        material: d.material,
        toggle_state: d.toggle_state,
        selection_state: d.selection_state,
        clip: d.clip,
        scroll: d.scroll,
    }
}

impl RenderNodeDescriptor {
    pub fn new(kind: RenderNodeKind, element: ElementKind, bounds: Rect) -> (r: Self)
        ensures
            r.kind == kind,
            r.element == element,
            r.bounds == bounds,
            r.name is None,
            r.key is None,
            r.text_slot is None,
            r.text is None,
            r.text_role is None,
            r.ui_slot is None,
            r.ui_primitive_count == 0,
            r.ui_visual_role is None,
            r.ui_visual_style is None,
            r.material == [0i32, 0i32, 0i32],
            r.toggle_state is None,
            r.selection_state is None,
            !r.clip,
            r.scroll is None,
    {
        RenderNodeDescriptor {
            kind,
            element,
            bounds,
            name: None,
            key: None,
            text_slot: None,
            text: None,
            text_role: None,
            ui_slot: None,
            ui_primitive_count: 0,
            ui_visual_role: None,
            ui_visual_style: None,
            material: [0, 0, 0],
            toggle_state: None,
            selection_state: None,
            clip: false,
            scroll: None,
        }
    }

    pub fn named(self, name: &str) -> (r: Self)
        ensures
            r == (RenderNodeDescriptor { name: r.name, ..self }),
            r.name matches Some(n) && n@ == name@,
    {
        RenderNodeDescriptor { name: Some(String::from_str(name)), ..self }
    }

    pub fn with_key(self, key: &str) -> (r: Self)
        ensures
            r == (RenderNodeDescriptor { key: r.key, ..self }),
            r.key matches Some(k) && k@ == key@,
    {
        RenderNodeDescriptor { key: Some(String::from_str(key)), ..self }
    }

    pub fn with_text_slot(self, slot: u16) -> (r: Self)
        ensures
            r == (RenderNodeDescriptor { text_slot: Some(slot), ..self }),
    {
        RenderNodeDescriptor { text_slot: Some(slot), ..self }
    }

    pub fn with_text(self, text: &str, font_size: u32) -> (r: Self)
        ensures
            r == (RenderNodeDescriptor { text: r.text, ..self }),
            r.text matches Some(t) && t.text@ == text@ && t.font_size == font_size,
    {
        RenderNodeDescriptor { text: Some(TextNode::new(String::from_str(text), font_size)), ..self }
    }

    pub fn with_text_role(self, role: TextRole) -> (r: Self)
        ensures
            r == (RenderNodeDescriptor { text_role: Some(role), ..self }),
    {
        RenderNodeDescriptor { text_role: Some(role), ..self }
    }

    pub fn with_ui_slot(self, slot: u16) -> (r: Self)
        ensures
            r == (RenderNodeDescriptor { ui_slot: Some(slot), ..self }),
    {
        RenderNodeDescriptor { ui_slot: Some(slot), ..self }
    }

    pub fn with_ui_primitive_count(self, count: u16) -> (r: Self)
        ensures
            r == (RenderNodeDescriptor { ui_primitive_count: count, ..self }),
    {
        RenderNodeDescriptor { ui_primitive_count: count, ..self }
    }

    pub fn with_ui_visual_role(self, role: UiVisualRole) -> (r: Self)
        ensures
            r == (RenderNodeDescriptor { ui_visual_role: Some(role), ..self }),
    {
        RenderNodeDescriptor { ui_visual_role: Some(role), ..self }
    }

    pub fn with_ui_visual_style(self, style: UiVisualStyle) -> (r: Self)
        ensures
            r == (RenderNodeDescriptor { ui_visual_style: Some(style), ..self }),
    {
        RenderNodeDescriptor { ui_visual_style: Some(style), ..self }
    }

    pub fn with_material(self, a: i32, b: i32, c: i32) -> (r: Self)
        ensures
            r == (RenderNodeDescriptor { material: [a, b, c], ..self }),
    {
        RenderNodeDescriptor { material: [a, b, c], ..self }
    }

    pub fn with_toggle_state(self, state: ToggleState) -> (r: Self)
        ensures
            r == (RenderNodeDescriptor { toggle_state: Some(state), ..self }),
    {
        RenderNodeDescriptor { toggle_state: Some(state), ..self }
    }

    pub fn with_selection_state(self, state: SelectionState) -> (r: Self)
        ensures
            r == (RenderNodeDescriptor { selection_state: Some(state), ..self }),
    {
        RenderNodeDescriptor { selection_state: Some(state), ..self }
    }

    pub fn with_clip(self) -> (r: Self)
        ensures
            r == (RenderNodeDescriptor { clip: true, ..self }),
    {
        RenderNodeDescriptor { clip: true, ..self }
    }

    pub fn with_scroll(self, scroll: ScrollState) -> (r: Self)
        ensures
            r == (RenderNodeDescriptor { scroll: Some(scroll), ..self }),
    {
        RenderNodeDescriptor { scroll: Some(scroll), ..self }
    }
}


/// The root node of a fresh scene.
pub open spec fn root_node() -> RenderNode {
    RenderNode {
        id: 0,
        parent: None,
        kind: RenderNodeKind::Root,
        element: ElementKind::Root,
        bounds: Rect { x: 0, y: 0, width: 0, height: 0 },
        name: None,
        key: None,
        text_slot: None,
        text: None,
        text_role: None,
        ui_slot: None,
        ui_primitive_count: 0,
        ui_visual_role: None,
        ui_visual_style: None,
        material: [0i32, 0i32, 0i32],
        toggle_state: None,
        selection_state: None,
        clip: false,
        scroll: None,
    }
}

/// The ids whose dirty flag is set among the first `n` flags, in increasing order.
pub open spec fn dirty_ids(flags: Seq<bool>, n: nat) -> Seq<NodeId>
    decreases n,
{
    if n == 0 {
        Seq::empty()
    } else {
        let rest = dirty_ids(flags, (n - 1) as nat);
        if flags[n - 1] {
            rest.push((n - 1) as NodeId)
        } else {
            rest
        }
    }
}

/// Every dirty id names one of the first `n` nodes.
pub proof fn lemma_dirty_ids_bounded(flags: Seq<bool>, n: nat)
    requires
        n < u64::MAX,
    ensures
        forall|k: int| 0 <= k < dirty_ids(flags, n).len() ==> #[trigger] dirty_ids(flags, n)[k] < n,
    decreases n,
{
    if n > 0 {
        lemma_dirty_ids_bounded(flags, (n - 1) as nat);
        let rest = dirty_ids(flags, (n - 1) as nat);
        assert forall|k: int| 0 <= k < dirty_ids(flags, n).len() implies #[trigger] dirty_ids(flags, n)[k] < n by {
            if k < rest.len() {
                assert(rest[k] < n - 1);
            }
        }
    }
}

/// Every dirty id names a node whose dirty flag is set.
pub proof fn lemma_dirty_ids_flagged(flags: Seq<bool>, n: nat)
    requires
        n < u64::MAX,
        n <= flags.len(),
    ensures
        forall|k: int| 0 <= k < dirty_ids(flags, n).len() ==> #[trigger] flags[dirty_ids(flags, n)[k] as int],
    decreases n,
{
    if n > 0 {
        lemma_dirty_ids_flagged(flags, (n - 1) as nat);
        let rest = dirty_ids(flags, (n - 1) as nat);
        assert forall|k: int| 0 <= k < dirty_ids(flags, n).len() implies #[trigger] flags[dirty_ids(flags, n)[k] as int] by {
            if k < rest.len() {
                assert(flags[rest[k] as int]);
            }
        }
    }
}

/// The closest proper ancestor of `id` that clips its descendants.
pub open spec fn nearest_clip_ancestor(nodes: Seq<RenderNode>, id: int) -> Option<int>
    decreases id,
{
    if 0 <= id < nodes.len() {
        match nodes[id].parent {
            Some(p) => if p < id {
                if nodes[p as int].clip {
                    Some(p as int)
                } else {
                    nearest_clip_ancestor(nodes, p as int)
                }
            } else {
                None
            },
            None => None,
        }
    } else {
        None
    }
}

/// A clipping ancestor always comes before the node it clips.
pub proof fn lemma_nearest_clip_before(nodes: Seq<RenderNode>, id: int)
    ensures
        nearest_clip_ancestor(nodes, id) matches Some(c) ==> 0 <= c < id,
    decreases id,
{
    if 0 <= id < nodes.len() {
        if let Some(p) = nodes[id].parent {
            if p < id && !nodes[p as int].clip {
                lemma_nearest_clip_before(nodes, p as int);
            }
        }
    }
}

/// The clip ancestor whose visible content changes when node `id` moves from
/// `before` to `after`: the nearest clipping ancestor, when the node enters or
/// leaves its rectangle.
pub open spec fn clip_affected_by_move(nodes: Seq<RenderNode>, id: int, before: Rect, after: Rect) -> Option<int> {
    match nearest_clip_ancestor(nodes, id) {
        Some(c) => if before.spec_overlaps(nodes[c].bounds) != after.spec_overlaps(nodes[c].bounds) {
            Some(c)
        } else {
            None
        },
        None => None,
    }
}

/// The dirty flags after node `id` of `nodes` is moved to `bounds`: the
/// node's flag, and that of the clip ancestor whose visible content the move
/// changes, are set when the rectangle changes.
pub open spec fn flags_after_move(nodes: Seq<RenderNode>, flags: Seq<bool>, id: NodeId, bounds: Rect) -> Seq<bool> {
    if id < nodes.len() && nodes[id as int].bounds != bounds {
        match clip_affected_by_move(nodes, id as int, nodes[id as int].bounds, bounds) {
            Some(c) => flags.update(id as int, true).update(c, true),
            None => flags.update(id as int, true),
        }
    } else {
        flags
    }
}

/// Every flag set in `before` is still set in `after`.
pub open spec fn flags_grow(before: Seq<bool>, after: Seq<bool>) -> bool {
    &&& after.len() == before.len()
    &&& forall|j: int| 0 <= j < before.len() && before[j] ==> #[trigger] after[j]
}

/// Whether a node carries the name `name`.
pub open spec fn node_has_name(node: RenderNode, name: Seq<char>) -> bool {
    node.name matches Some(n) && n@ == name
}

/// The set of changes recorded since the last time they were taken.
pub struct SceneDirty {
    pub full_scene: bool,
    pub nodes: Vec<NodeId>,
}

impl SceneDirty {
    pub fn is_empty(&self) -> (r: bool)
        ensures
            r == (!self.full_scene && self.nodes@.len() == 0),
    {
        !self.full_scene && self.nodes.len() == 0
    }
}

/// A tree of render nodes with per-node and whole-scene dirty tracking.
pub struct RetainedScene {
    mode: SceneMode,
    nodes: Vec<RenderNode>,
    dirty_nodes: Vec<bool>,
    full_dirty: bool,
}

impl RetainedScene {
    pub closed spec fn spec_nodes(&self) -> Seq<RenderNode> {
        self.nodes@
    }

    pub closed spec fn spec_dirty_flags(&self) -> Seq<bool> {
        self.dirty_nodes@
    }

    pub closed spec fn spec_full_dirty(&self) -> bool {
        self.full_dirty
    }

    pub closed spec fn spec_mode(&self) -> SceneMode {
        self.mode
    }

    /// Node ids are positions, node 0 is the parentless root, every other
    /// node has an earlier parent, and there is one dirty flag per node.
    pub open spec fn wf(&self) -> bool {
        &&& self.spec_nodes().len() == self.spec_dirty_flags().len()
        &&& 1 <= self.spec_nodes().len() < u64::MAX
        &&& self.spec_nodes()[0].parent is None
        &&& forall|i: int| 0 <= i < self.spec_nodes().len() ==> (#[trigger] self.spec_nodes()[i]).id == i
        &&& forall|i: int| 0 < i < self.spec_nodes().len() ==> ((#[trigger] self.spec_nodes()[i]).parent matches Some(p) && p < i)
    }

    /// Ids of the nodes currently marked dirty, in increasing order.
    pub open spec fn spec_dirty_ids(&self) -> Seq<NodeId> {
        dirty_ids(self.spec_dirty_flags(), self.spec_dirty_flags().len())
    }

    pub open spec fn valid_id(&self, id: NodeId) -> bool {
        id < self.spec_nodes().len()
    }

    /// A fresh scene holding only its root; the whole scene is dirty.
    pub fn new(mode: SceneMode) -> (r: RetainedScene)
        ensures
            r.wf(),
            r.spec_mode() == mode,
            r.spec_nodes() == seq![root_node()],
            r.spec_dirty_flags() == seq![false],
            r.spec_full_dirty(),
    {
        let root = RenderNode {
            id: 0,
            parent: None,
            kind: RenderNodeKind::Root,
            element: ElementKind::Root,
            bounds: Rect::new(0, 0, 0, 0),
            name: None,
            key: None,
            text_slot: None,
            text: None,
            text_role: None,
            ui_slot: None,
            ui_primitive_count: 0,
            ui_visual_role: None,
            ui_visual_style: None,
            material: [0, 0, 0],
            toggle_state: None,
            selection_state: None,
            clip: false,
            scroll: None,
        };
        let mut nodes = Vec::new();
        nodes.push(root);
        let mut dirty_nodes = Vec::new();
        dirty_nodes.push(false);
        let r = RetainedScene { mode, nodes, dirty_nodes, full_dirty: true };
        assert(r.spec_nodes() =~= seq![root_node()]);
        assert(r.spec_dirty_flags() =~= seq![false]);
        r
    }

    pub fn mode(&self) -> (r: SceneMode)
        ensures
            r == self.spec_mode(),
    {
        self.mode
    }

    pub fn root(&self) -> (r: NodeId)
        ensures
            r == 0,
    {
        0
    }

    pub fn len(&self) -> (r: usize)
        ensures
            r == self.spec_nodes().len(),
    {
        self.nodes.len()
    }

    pub fn nodes(&self) -> (r: &Vec<RenderNode>)
        ensures
            r@ == self.spec_nodes(),
    {
        &self.nodes
    }

    /// Adds a child of `parent` built from `descriptor`; the new node is marked
    /// dirty. Fails when `parent` is not a node of the scene.
    pub fn append_node(&mut self, parent: NodeId, descriptor: RenderNodeDescriptor) -> (r: Option<NodeId>)
        requires
            old(self).wf(),
        ensures
            final(self).wf() || (r is None && *final(self) == *old(self)),
            final(self).spec_mode() == old(self).spec_mode(),
            final(self).spec_full_dirty() == old(self).spec_full_dirty(),
            (parent < old(self).spec_nodes().len() && old(self).spec_nodes().len() + 1 < u64::MAX) ==> {
                &&& r == Some(old(self).spec_nodes().len() as NodeId)
                &&& final(self).spec_nodes() == old(self).spec_nodes().push(
                    node_from_descriptor(old(self).spec_nodes().len() as NodeId, parent, descriptor),
                )
                &&& final(self).spec_dirty_flags() == old(self).spec_dirty_flags().push(true)
            },
            !(parent < old(self).spec_nodes().len() && old(self).spec_nodes().len() + 1 < u64::MAX) ==> {
                &&& r is None
                &&& *final(self) == *old(self)
            },
    {
        let n = self.nodes.len();
        if parent as usize >= n || n as u64 >= u64::MAX - 1 || parent >= n as u64 {
            return None;
        }
        let id = n as u64;
        let node = RenderNode {
            id,
            parent: Some(parent),
            kind: descriptor.kind,
            element: descriptor.element,
            bounds: descriptor.bounds,
            name: descriptor.name,
            key: descriptor.key,
            text_slot: descriptor.text_slot,
            text: descriptor.text,
            text_role: descriptor.text_role,
            ui_slot: descriptor.ui_slot,
            ui_primitive_count: descriptor.ui_primitive_count,
            ui_visual_role: descriptor.ui_visual_role,
            ui_visual_style: descriptor.ui_visual_style,
            material: descriptor.material,
            toggle_state: descriptor.toggle_state,
            selection_state: descriptor.selection_state,
            clip: descriptor.clip,
            scroll: descriptor.scroll,
        };
        self.nodes.push(node);
        self.dirty_nodes.push(true);
        Some(id)
    }

    pub fn node(&self, id: NodeId) -> (r: Option<&RenderNode>)
        ensures
            r == (if self.valid_id(id) {
                Some(&self.spec_nodes()[id as int])
            } else {
                None
            }),
    {
        if id < self.nodes.len() as u64 {
            Some(&self.nodes[id as usize])
        } else {
            None
        }
    }

    /// The first node (in id order) whose name is `name`.
    pub fn node_named(&self, name: &str) -> (r: Option<&RenderNode>)
        ensures
            r matches Some(n) ==> exists|i: int|
                0 <= i < self.spec_nodes().len() && n == self.spec_nodes()[i] && node_has_name(
                    self.spec_nodes()[i],
                    name@,
                ) && forall|j: int| 0 <= j < i ==> !node_has_name(#[trigger] self.spec_nodes()[j], name@),
            r is None ==> forall|i: int|
                0 <= i < self.spec_nodes().len() ==> !node_has_name(#[trigger] self.spec_nodes()[i], name@),
    {
        let target = String::from_str(name);
        let mut i: usize = 0;
        while i < self.nodes.len()
            invariant
                0 <= i <= self.spec_nodes().len(),
                target@ == name@,
                forall|j: int| 0 <= j < i ==> !node_has_name(#[trigger] self.spec_nodes()[j], name@),
            decreases self.spec_nodes().len() - i,
        {
            let node = &self.nodes[i];
            let hit = match &node.name {
                Some(n) => n.eq(&target),
                None => false,
            };
            if hit {
                return Some(node);
            }
            i += 1;
        }
        None
    }

    /// The first node (in id order) that renders text run `slot`.
    pub fn node_with_text_slot(&self, slot: u16) -> (r: Option<&RenderNode>)
        ensures
            r matches Some(n) ==> exists|i: int|
                0 <= i < self.spec_nodes().len() && n == self.spec_nodes()[i]
                    && self.spec_nodes()[i].text_slot == Some(slot) && forall|j: int|
                    0 <= j < i ==> (#[trigger] self.spec_nodes()[j]).text_slot != Some(slot),
            r is None ==> forall|i: int|
                0 <= i < self.spec_nodes().len() ==> (#[trigger] self.spec_nodes()[i]).text_slot != Some(slot),
    {
        let mut i: usize = 0;
        while i < self.nodes.len()
            invariant
                0 <= i <= self.spec_nodes().len(),
                forall|j: int| 0 <= j < i ==> (#[trigger] self.spec_nodes()[j]).text_slot != Some(slot),
            decreases self.spec_nodes().len() - i,
        {
            let node = &self.nodes[i];
            if node.text_slot == Some(slot) {
                return Some(node);
            }
            i += 1;
        }
        None
    }

    /// Replaces the text of a node; marks it dirty when the text changes.
    pub fn set_text(&mut self, id: NodeId, text: Option<TextNode>) -> (changed: bool)
        requires
            old(self).wf(),
        ensures
            final(self).wf(),
            flags_grow(old(self).spec_dirty_flags(), final(self).spec_dirty_flags()),
            changed == (old(self).valid_id(id) && opt_text_view(old(self).spec_nodes()[id as int].text)
                != opt_text_view(text)),
            changed ==> {
                &&& final(self).spec_nodes() == old(self).spec_nodes().update(
                    id as int,
                    RenderNode { text, ..old(self).spec_nodes()[id as int] },
                )
                &&& final(self).spec_dirty_flags() == old(self).spec_dirty_flags().update(id as int, true)
                &&& final(self).spec_full_dirty() == old(self).spec_full_dirty()
                &&& final(self).spec_mode() == old(self).spec_mode()
            },
            !changed ==> *final(self) == *old(self),
    {
        if id >= self.nodes.len() as u64 {
            return false;
        }
        let i = id as usize;
        let same = match (&self.nodes[i].text, &text) {
            (Some(a), Some(b)) => a.font_size == b.font_size && a.text.eq(&b.text),
            (None, None) => true,
            _ => false,
        };
        if same {
            return false;
        }
        self.nodes[i].text = text;
        self.dirty_nodes[i] = true;
        true
    }

    /// Replaces the text role of a node; marks it dirty when the role changes.
    pub fn set_text_role(&mut self, id: NodeId, role: Option<TextRole>) -> (changed: bool)
        requires
            old(self).wf(),
        ensures
            final(self).wf(),
            flags_grow(old(self).spec_dirty_flags(), final(self).spec_dirty_flags()),
            changed == (old(self).valid_id(id) && old(self).spec_nodes()[id as int].text_role != role),
            changed ==> {
                &&& final(self).spec_nodes() == old(self).spec_nodes().update(
                    id as int,
                    RenderNode { text_role: role, ..old(self).spec_nodes()[id as int] },
                )
                &&& final(self).spec_dirty_flags() == old(self).spec_dirty_flags().update(id as int, true)
                &&& final(self).spec_full_dirty() == old(self).spec_full_dirty()
                &&& final(self).spec_mode() == old(self).spec_mode()
            },
            !changed ==> *final(self) == *old(self),
    {
        if id >= self.nodes.len() as u64 {
            return false;
        }
        let i = id as usize;
        if self.nodes[i].text_role == role {
            return false;
        }
        self.nodes[i].text_role = role;
        self.dirty_nodes[i] = true;
        true
    }

    /// Replaces the toggle state of a node; marks it dirty when it changes.
    pub fn set_toggle_state(&mut self, id: NodeId, state: Option<ToggleState>) -> (changed: bool)
        requires
            old(self).wf(),
        ensures
            final(self).wf(),
            flags_grow(old(self).spec_dirty_flags(), final(self).spec_dirty_flags()),
            changed == (old(self).valid_id(id) && old(self).spec_nodes()[id as int].toggle_state != state),
            changed ==> {
                &&& final(self).spec_nodes() == old(self).spec_nodes().update(
                    id as int,
                    RenderNode { toggle_state: state, ..old(self).spec_nodes()[id as int] },
                )
                &&& final(self).spec_dirty_flags() == old(self).spec_dirty_flags().update(id as int, true)
                &&& final(self).spec_full_dirty() == old(self).spec_full_dirty()
                &&& final(self).spec_mode() == old(self).spec_mode()
            },
            !changed ==> *final(self) == *old(self),
    {
        if id >= self.nodes.len() as u64 {
            return false;
        }
        let i = id as usize;
        if self.nodes[i].toggle_state == state {
            return false;
        }
        self.nodes[i].toggle_state = state;
        self.dirty_nodes[i] = true;
        true
    }

    /// Replaces the selection state of a node; marks it dirty when it changes.
    pub fn set_selection_state(&mut self, id: NodeId, state: Option<SelectionState>) -> (changed: bool)
        requires
            old(self).wf(),
        ensures
            final(self).wf(),
            flags_grow(old(self).spec_dirty_flags(), final(self).spec_dirty_flags()),
            changed == (old(self).valid_id(id) && old(self).spec_nodes()[id as int].selection_state != state),
            changed ==> {
                &&& final(self).spec_nodes() == old(self).spec_nodes().update(
                    id as int,
                    RenderNode { selection_state: state, ..old(self).spec_nodes()[id as int] },
                )
                &&& final(self).spec_dirty_flags() == old(self).spec_dirty_flags().update(id as int, true)
                &&& final(self).spec_full_dirty() == old(self).spec_full_dirty()
                &&& final(self).spec_mode() == old(self).spec_mode()
            },
            !changed ==> *final(self) == *old(self),
    {
        if id >= self.nodes.len() as u64 {
            return false;
        }
        let i = id as usize;
        if self.nodes[i].selection_state == state {
            return false;
        }
        self.nodes[i].selection_state = state;
        self.dirty_nodes[i] = true;
        true
    }

    /// Replaces the scroll state of a node; marks it dirty when it changes.
    pub fn set_scroll_state(&mut self, id: NodeId, scroll: Option<ScrollState>) -> (changed: bool)
        requires
            old(self).wf(),
        ensures
            final(self).wf(),
            flags_grow(old(self).spec_dirty_flags(), final(self).spec_dirty_flags()),
            changed == (old(self).valid_id(id) && old(self).spec_nodes()[id as int].scroll != scroll),
            changed ==> {
                &&& final(self).spec_nodes() == old(self).spec_nodes().update(
                    id as int,
                    RenderNode { scroll, ..old(self).spec_nodes()[id as int] },
                )
                &&& final(self).spec_dirty_flags() == old(self).spec_dirty_flags().update(id as int, true)
                &&& final(self).spec_full_dirty() == old(self).spec_full_dirty()
                &&& final(self).spec_mode() == old(self).spec_mode()
            },
            !changed ==> *final(self) == *old(self),
    {
        if id >= self.nodes.len() as u64 {
            return false;
        }
        let i = id as usize;
        if self.nodes[i].scroll == scroll {
            return false;
        }
        self.nodes[i].scroll = scroll;
        self.dirty_nodes[i] = true;
        true
    }

    /// The closest clipping ancestor of a node.
    pub fn nearest_clip_ancestor(&self, id: NodeId) -> (r: Option<NodeId>)
        requires
            self.wf(),
        ensures
            match nearest_clip_ancestor(self.spec_nodes(), id as int) {
                Some(c) => r == Some(c as NodeId),
                None => r is None,
            },
    {
        if id >= self.nodes.len() as u64 {
            return None;
        }
        let mut cur: usize = id as usize;
        loop
            invariant
                self.wf(),
                0 <= cur < self.spec_nodes().len(),
                nearest_clip_ancestor(self.spec_nodes(), cur as int) == nearest_clip_ancestor(
                    self.spec_nodes(),
                    id as int,
                ),
            decreases cur,
        {
            match self.nodes[cur].parent {
                None => {
                    return None;
                },
                Some(p) => {
                    if p >= cur as u64 {
                        return None;
                    }
                    let pi = p as usize;
                    if self.nodes[pi].clip {
                        return Some(p);
                    }
                    cur = pi;
                },
            }
        }
    }

    /// Moves a node. When the rectangle changes the node is marked dirty, and
    /// so is its nearest clipping ancestor when the node enters or leaves the
    /// ancestor's rectangle.
    pub fn set_bounds(&mut self, id: NodeId, bounds: Rect) -> (changed: bool)
        requires
            old(self).wf(),
        ensures
            final(self).wf(),
            flags_grow(old(self).spec_dirty_flags(), final(self).spec_dirty_flags()),
            changed == (old(self).valid_id(id) && old(self).spec_nodes()[id as int].bounds != bounds),
            changed ==> {
                &&& final(self).spec_nodes() == old(self).spec_nodes().update(
                    id as int,
                    RenderNode { bounds, ..old(self).spec_nodes()[id as int] },
                )
                &&& final(self).spec_dirty_flags() == match clip_affected_by_move(
                    old(self).spec_nodes(),
                    id as int,
                    old(self).spec_nodes()[id as int].bounds,
                    bounds,
                ) {
                    Some(c) => old(self).spec_dirty_flags().update(id as int, true).update(c, true),
                    None => old(self).spec_dirty_flags().update(id as int, true),
                }
                &&& final(self).spec_full_dirty() == old(self).spec_full_dirty()
                &&& final(self).spec_mode() == old(self).spec_mode()
            },
            !changed ==> *final(self) == *old(self),
    {
        if id >= self.nodes.len() as u64 {
            return false;
        }
        let i = id as usize;
        let before = self.nodes[i].bounds;
        if before == bounds {
            return false;
        }
        let clip = self.nearest_clip_ancestor(id);
        proof {
            lemma_nearest_clip_before(self.spec_nodes(), id as int);
        }
        self.nodes[i].bounds = bounds;
        self.dirty_nodes[i] = true;
        if let Some(c) = clip {
            let ci = c as usize;
            let clip_rect = self.nodes[ci].bounds;
            if before.overlaps(&clip_rect) != bounds.overlaps(&clip_rect) {
                self.dirty_nodes[ci] = true;
            }
        }
        true
    }

    pub fn mark_node_dirty(&mut self, id: NodeId)
        requires
            old(self).wf(),
        ensures
            final(self).wf(),
            flags_grow(old(self).spec_dirty_flags(), final(self).spec_dirty_flags()),
            final(self).spec_nodes() == old(self).spec_nodes(),
            final(self).spec_full_dirty() == old(self).spec_full_dirty(),
            final(self).spec_mode() == old(self).spec_mode(),
            final(self).spec_dirty_flags() == if old(self).valid_id(id) {
                old(self).spec_dirty_flags().update(id as int, true)
            } else {
                old(self).spec_dirty_flags()
            },
    {
        if id < self.dirty_nodes.len() as u64 {
            self.dirty_nodes[id as usize] = true;
        }
    }

    pub fn mark_full_scene_dirty(&mut self)
        requires
            old(self).wf(),
        ensures
            final(self).wf(),
            final(self).spec_nodes() == old(self).spec_nodes(),
            final(self).spec_dirty_flags() == old(self).spec_dirty_flags(),
            final(self).spec_full_dirty(),
            final(self).spec_mode() == old(self).spec_mode(),
    {
        self.full_dirty = true;
    }

    /// The changes recorded so far, without clearing them.
    pub fn dirty(&self) -> (r: SceneDirty)
        requires
            self.wf(),
        ensures
            r.full_scene == self.spec_full_dirty(),
            r.nodes@ == self.spec_dirty_ids(),
    {
        let mut nodes: Vec<NodeId> = Vec::new();
        let n = self.dirty_nodes.len();
        let mut i: usize = 0;
        while i < n
            invariant
                n == self.spec_dirty_flags().len(),
                0 <= i <= n,
                nodes@ == dirty_ids(self.spec_dirty_flags(), i as nat),
            decreases n - i,
        {
            if self.dirty_nodes[i] {
                nodes.push(i as u64);
            }
            i += 1;
        }
        SceneDirty { full_scene: self.full_dirty, nodes }
    }

    /// Forgets every recorded change.
    pub fn clear_dirty(&mut self)
        requires
            old(self).wf(),
        ensures
            final(self).wf(),
            final(self).spec_nodes() == old(self).spec_nodes(),
            final(self).spec_mode() == old(self).spec_mode(),
            !final(self).spec_full_dirty(),
            final(self).spec_dirty_flags() == Seq::new(old(self).spec_dirty_flags().len(), |i: int| false),
    {
        let n = self.dirty_nodes.len();
        let mut i: usize = 0;
        while i < n
            invariant
                n == self.spec_dirty_flags().len(),
                0 <= i <= n,
                self.wf(),
                self.spec_nodes() == old(self).spec_nodes(),
                self.spec_mode() == old(self).spec_mode(),
                forall|j: int| 0 <= j < i ==> !self.spec_dirty_flags()[j],
            decreases n - i,
        {
            self.dirty_nodes[i] = false;
            i += 1;
        }
        self.full_dirty = false;
        assert(self.spec_dirty_flags() =~= Seq::new(old(self).spec_dirty_flags().len(), |i: int| false));
    }

    /// Returns the recorded changes and forgets them.
    pub fn take_dirty(&mut self) -> (r: SceneDirty)
        requires
            old(self).wf(),
        ensures
            r.full_scene == old(self).spec_full_dirty(),
            r.nodes@ == old(self).spec_dirty_ids(),
            final(self).wf(),
            final(self).spec_nodes() == old(self).spec_nodes(),
            final(self).spec_mode() == old(self).spec_mode(),
            !final(self).spec_full_dirty(),
            final(self).spec_dirty_flags() == Seq::new(old(self).spec_dirty_flags().len(), |i: int| false),
    {
        let r = self.dirty();
        self.clear_dirty();
        r
    }
}

} // verus!
