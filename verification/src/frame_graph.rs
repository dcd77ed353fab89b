//! Frame packets: the passes of a frame, where each renders, and how its
//! output is combined; the builders that compose them, and their
//! compilation into an ordered list of passes.
//!
//! Normalized coordinates are in ten-thousandths of the target's extent
//! (`NORMALIZED_ONE` is the whole extent), and clear colors have eight bits
//! per channel.
use crate::demo_core::DemoType;
use crate::text_util::concat_str;
use vstd::prelude::*;

verus! {

/// The whole extent of a target in normalized coordinates.
pub const NORMALIZED_ONE: u32 = 10000;

/// An RGBA color a pass clears its target to.
#[derive(Debug, Clone, Copy, PartialEq, Eq, Structural)]
pub struct ClearColor {
    pub r: u8,
    pub g: u8,
    pub b: u8,
    pub a: u8,
}

pub open spec fn black_color() -> ClearColor {
    ClearColor { r: 0, g: 0, b: 0, a: 255 }
}

pub open spec fn transparent_color() -> ClearColor {
    ClearColor { r: 0, g: 0, b: 0, a: 0 }
}

impl ClearColor {
    /// Opaque black.
    pub fn black() -> (c: ClearColor)
        ensures
            c == black_color(),
    {
        ClearColor { r: 0, g: 0, b: 0, a: 255 }
    }

    /// Fully transparent black.
    pub fn transparent() -> (c: ClearColor)
        ensures
            c == transparent_color(),
    {
        ClearColor { r: 0, g: 0, b: 0, a: 0 }
    }
}

/// What a pass does with its target before drawing.
#[derive(Debug, Clone, Copy, PartialEq, Eq, Structural)]
pub enum LoadOp {
    /// Clear the target to the color.
    Clear(ClearColor),
    /// Keep what the target holds.
    Load,
}

/// How a pass combines with what its target already holds.
#[derive(Debug, Clone, Copy, PartialEq, Eq, Structural)]
pub enum CompositeMode {
    Replace,
    Over,
}

impl CompositeMode {
    /// `Replace` clears the target, to `clear_color` or else to black;
    /// `Over` draws on what the target holds.
    pub fn load_op(self, clear_color: Option<ClearColor>) -> (r: LoadOp)
        ensures
            r == match self {
                CompositeMode::Replace => LoadOp::Clear(
                    match clear_color {
                        Some(c) => c,
                        None => black_color(),
                    },
                ),
                CompositeMode::Over => LoadOp::Load,
            },
    {
        match self {
            CompositeMode::Replace => LoadOp::Clear(
                match clear_color {
                    Some(c) => c,
                    None => ClearColor::black(),
                },
            ),
            CompositeMode::Over => LoadOp::Load,
        }
    }
}

/// The texture a pass renders into: the scene color target or a named
/// offscreen target.
#[derive(Debug, Clone, PartialEq, Eq)]
pub enum FrameTarget {
    SceneColor,
    Offscreen(String),
}

impl FrameTarget {
    /// An equal target.
    pub fn duplicate(&self) -> (r: FrameTarget)
        ensures
            r == *self,
    {
        match self {
            FrameTarget::SceneColor => FrameTarget::SceneColor,
            FrameTarget::Offscreen(name) => FrameTarget::Offscreen(name.clone()),
        }
    }
}

/// A rectangle of a target in normalized coordinates.
#[derive(Debug, Clone, Copy, PartialEq, Eq)]
pub struct NormalizedRect {
    pub origin: [u32; 2],
    pub size: [u32; 2],
}

/// The rectangle covering the whole target.
pub open spec fn fullscreen_rect() -> NormalizedRect {
    NormalizedRect { origin: [0, 0], size: [NORMALIZED_ONE, NORMALIZED_ONE] }
}

impl NormalizedRect {
    /// The rectangle covering the whole target.
    pub fn fullscreen() -> (r: NormalizedRect)
        ensures
            r == fullscreen_rect(),
    {
        NormalizedRect { origin: [0, 0], size: [NORMALIZED_ONE, NORMALIZED_ONE] }
    }

    pub fn new(origin: [u32; 2], size: [u32; 2]) -> (r: NormalizedRect)
        ensures
            r.origin == origin,
            r.size == size,
    {
        NormalizedRect { origin, size }
    }

    /// Origin, then size.
    pub fn as_vec4(self) -> (r: [u32; 4])
        ensures
            r@ == seq![self.origin@[0], self.origin@[1], self.size@[0], self.size@[1]],
    {
        let r = [self.origin[0], self.origin[1], self.size[0], self.size[1]];
        assert(r@ =~= seq![self.origin@[0], self.origin@[1], self.size@[0], self.size@[1]]);
        r
    }
}

#[derive(Debug, Clone, Copy, PartialEq, Eq, Structural)]
pub enum UiLayerStyle {
    Flat,
    Physical,
}

/// A pass that renders the 3D world.
#[derive(Debug, Clone)]
pub struct WorldViewPacket {
    pub label: String,
    pub target: FrameTarget,
    pub composite_mode: CompositeMode,
    pub clear_color: Option<ClearColor>,
}

impl WorldViewPacket {
    /// A world pass into the scene color target, replacing it with a black
    /// background.
    pub fn new(label: &str) -> (r: Self)
        ensures
            r.label@ == label@,
            r.target == FrameTarget::SceneColor,
            r.composite_mode == CompositeMode::Replace,
            r.clear_color == Some(black_color()),
    {
        WorldViewPacket {
            label: String::from_str(label),
            target: FrameTarget::SceneColor,
            composite_mode: CompositeMode::Replace,
            clear_color: Some(ClearColor::black()),
        }
    }

    /// An equal packet.
    pub fn duplicate(&self) -> (r: Self)
        ensures
            r == *self,
    {
        WorldViewPacket {
            label: self.label.clone(),
            target: self.target.duplicate(),
            composite_mode: self.composite_mode,
            clear_color: self.clear_color,
        }
    }
}

/// Builder of a world pass.
#[derive(Debug, Clone)]
pub struct WorldView {
    packet: WorldViewPacket,
}

impl WorldView {
    pub closed spec fn spec_packet(&self) -> WorldViewPacket {
        self.packet
    }

    pub fn new(label: &str) -> (r: Self)
        ensures
            r.spec_packet().label@ == label@,
            r.spec_packet().target == FrameTarget::SceneColor,
            r.spec_packet().composite_mode == CompositeMode::Replace,
            r.spec_packet().clear_color == Some(black_color()),
    {
        WorldView { packet: WorldViewPacket::new(label) }
    }

    pub fn to_target(self, target: FrameTarget) -> (r: Self)
        ensures
            r.spec_packet() == (WorldViewPacket { target, ..self.spec_packet() }),
    {
        let mut s = self;
        s.packet.target = target;
        s
    }

    /// Renders into the offscreen target named `target`.
    pub fn to_offscreen(self, target: &str) -> (r: Self)
        ensures
            r.spec_packet().label == self.spec_packet().label,
            r.spec_packet().composite_mode == self.spec_packet().composite_mode,
            r.spec_packet().clear_color == self.spec_packet().clear_color,
            r.spec_packet().target matches FrameTarget::Offscreen(name) && name@ == target@,
    {
        self.to_target(FrameTarget::Offscreen(String::from_str(target)))
    }

    pub fn with_clear_color(self, clear_color: Option<ClearColor>) -> (r: Self)
        ensures
            r.spec_packet() == (WorldViewPacket { clear_color, ..self.spec_packet() }),
    {
        let mut s = self;
        s.packet.clear_color = clear_color;
        s
    }

    pub fn with_composite_mode(self, composite_mode: CompositeMode) -> (r: Self)
        ensures
            r.spec_packet() == (WorldViewPacket { composite_mode, ..self.spec_packet() }),
    {
        let mut s = self;
        s.packet.composite_mode = composite_mode;
        s
    }

    pub fn into_packet(self) -> (r: WorldViewPacket)
        ensures
            r == self.spec_packet(),
    {
        self.packet
    }
}

/// A pass that renders a UI layer.
#[derive(Debug, Clone)]
pub struct UiLayerPacket {
    pub label: String,
    pub style: UiLayerStyle,
    pub target: FrameTarget,
    pub composite_mode: CompositeMode,
    pub clear_color: Option<ClearColor>,
}

impl UiLayerPacket {
    /// A UI pass into the scene color target, replacing it with a black
    /// background.
    pub fn new(label: &str, style: UiLayerStyle) -> (r: Self)
        ensures
            r.label@ == label@,
            r.style == style,
            r.target == FrameTarget::SceneColor,
            r.composite_mode == CompositeMode::Replace,
            r.clear_color == Some(black_color()),
    {
        UiLayerPacket {
            label: String::from_str(label),
            style,
            target: FrameTarget::SceneColor,
            composite_mode: CompositeMode::Replace,
            clear_color: Some(ClearColor::black()),
        }
    }

    /// An equal packet.
    pub fn duplicate(&self) -> (r: Self)
        ensures
            r == *self,
    {
        UiLayerPacket {
            label: self.label.clone(),
            style: self.style,
            target: self.target.duplicate(),
            composite_mode: self.composite_mode,
            clear_color: self.clear_color,
        }
    }
}

/// Builder of a UI pass.
#[derive(Debug, Clone)]
pub struct UiLayer {
    packet: UiLayerPacket,
}

impl UiLayer {
    pub closed spec fn spec_packet(&self) -> UiLayerPacket {
        self.packet
    }

    pub fn new(label: &str, style: UiLayerStyle) -> (r: Self)
        ensures
            r.spec_packet().label@ == label@,
            r.spec_packet().style == style,
            r.spec_packet().target == FrameTarget::SceneColor,
            r.spec_packet().composite_mode == CompositeMode::Replace,
            r.spec_packet().clear_color == Some(black_color()),
    {
        UiLayer { packet: UiLayerPacket::new(label, style) }
    }

    pub fn to_target(self, target: FrameTarget) -> (r: Self)
        ensures
            r.spec_packet() == (UiLayerPacket { target, ..self.spec_packet() }),
    {
        let mut s = self;
        s.packet.target = target;
        s
    }

    /// Renders into the offscreen target named `target`.
    pub fn to_offscreen(self, target: &str) -> (r: Self)
        ensures
            r.spec_packet().label == self.spec_packet().label,
            r.spec_packet().style == self.spec_packet().style,
            r.spec_packet().composite_mode == self.spec_packet().composite_mode,
            r.spec_packet().clear_color == self.spec_packet().clear_color,
            r.spec_packet().target matches FrameTarget::Offscreen(name) && name@ == target@,
    {
        self.to_target(FrameTarget::Offscreen(String::from_str(target)))
    }

    /// Clears to transparent black, so that the layer can be drawn over
    /// another.
    pub fn transparent(self) -> (r: Self)
        ensures
            r.spec_packet() == (UiLayerPacket { clear_color: Some(transparent_color()), ..self.spec_packet() }),
    {
        let mut s = self;
        s.packet.clear_color = Some(ClearColor::transparent());
        s
    }

    pub fn with_clear_color(self, clear_color: Option<ClearColor>) -> (r: Self)
        ensures
            r.spec_packet() == (UiLayerPacket { clear_color, ..self.spec_packet() }),
    {
        let mut s = self;
        s.packet.clear_color = clear_color;
        s
    }

    pub fn with_composite_mode(self, composite_mode: CompositeMode) -> (r: Self)
        ensures
            r.spec_packet() == (UiLayerPacket { composite_mode, ..self.spec_packet() }),
    {
        let mut s = self;
        s.packet.composite_mode = composite_mode;
        s
    }

    pub fn into_packet(self) -> (r: UiLayerPacket)
        ensures
            r == self.spec_packet(),
    {
        self.packet
    }
}

/// A pass that copies a rectangle of one target onto a rectangle of
/// another.
#[derive(Debug, Clone)]
pub struct EffectPacket {
    pub label: String,
    pub source: FrameTarget,
    pub target: FrameTarget,
    pub composite_mode: CompositeMode,
    pub clear_color: Option<ClearColor>,
    pub source_rect: NormalizedRect,
    pub target_rect: NormalizedRect,
}

impl EffectPacket {
    /// Draws the whole of `source` over the whole of `target`.
    pub fn composite(label: &str, source: FrameTarget, target: FrameTarget) -> (r: Self)
        ensures
            r.label@ == label@,
            r.source == source,
            r.target == target,
            r.composite_mode == CompositeMode::Over,
            r.clear_color == None::<ClearColor>,
            r.source_rect == fullscreen_rect(),
            r.target_rect == fullscreen_rect(),
    {
        EffectPacket {
            label: String::from_str(label),
            source,
            target,
            composite_mode: CompositeMode::Over,
            clear_color: None,
            source_rect: NormalizedRect::fullscreen(),
            target_rect: NormalizedRect::fullscreen(),
        }
    }

    pub fn with_target_rect(self, target_rect: NormalizedRect) -> (r: Self)
        ensures
            r == (EffectPacket { target_rect, ..self }),
    {
        let mut s = self;
        s.target_rect = target_rect;
        s
    }

    pub fn with_source_rect(self, source_rect: NormalizedRect) -> (r: Self)
        ensures
            r == (EffectPacket { source_rect, ..self }),
    {
        let mut s = self;
        s.source_rect = source_rect;
        s
    }

    /// An equal packet.
    pub fn duplicate(&self) -> (r: Self)
        ensures
            r == *self,
    {
        EffectPacket {
            label: self.label.clone(),
            source: self.source.duplicate(),
            target: self.target.duplicate(),
            composite_mode: self.composite_mode,
            clear_color: self.clear_color,
            source_rect: self.source_rect,
            target_rect: self.target_rect,
        }
    }
}

/// Builder of an effect pass.
#[derive(Debug, Clone)]
pub struct EffectLayer {
    packet: EffectPacket,
}

impl EffectLayer {
    pub closed spec fn spec_packet(&self) -> EffectPacket {
        self.packet
    }

    /// Draws the whole of `source` over the whole of `target`.
    pub fn composite(label: &str, source: FrameTarget, target: FrameTarget) -> (r: Self)
        ensures
            r.spec_packet().label@ == label@,
            r.spec_packet().source == source,
            r.spec_packet().target == target,
            r.spec_packet().composite_mode == CompositeMode::Over,
            r.spec_packet().clear_color == None::<ClearColor>,
            r.spec_packet().source_rect == fullscreen_rect(),
            r.spec_packet().target_rect == fullscreen_rect(),
    {
        EffectLayer { packet: EffectPacket::composite(label, source, target) }
    }

    pub fn with_target_rect(self, target_rect: NormalizedRect) -> (r: Self)
        ensures
            r.spec_packet() == (EffectPacket { target_rect, ..self.spec_packet() }),
    {
        EffectLayer { packet: self.packet.with_target_rect(target_rect) }
    }

    pub fn with_source_rect(self, source_rect: NormalizedRect) -> (r: Self)
        ensures
            r.spec_packet() == (EffectPacket { source_rect, ..self.spec_packet() }),
    {
        EffectLayer { packet: self.packet.with_source_rect(source_rect) }
    }

    pub fn with_composite_mode(self, composite_mode: CompositeMode) -> (r: Self)
        ensures
            r.spec_packet() == (EffectPacket { composite_mode, ..self.spec_packet() }),
    {
        let mut s = self;
        s.packet.composite_mode = composite_mode;
        s
    }

    pub fn with_clear_color(self, clear_color: Option<ClearColor>) -> (r: Self)
        ensures
            r.spec_packet() == (EffectPacket { clear_color, ..self.spec_packet() }),
    {
        let mut s = self;
        s.packet.clear_color = clear_color;
        s
    }

    pub fn into_packet(self) -> (r: EffectPacket)
        ensures
            r == self.spec_packet(),
    {
        self.packet
    }
}

/// The overlay drawn on top of a frame.
#[derive(Debug, Clone)]
pub struct OverlayPacket {
    pub label: String,
    pub target: FrameTarget,
}

impl OverlayPacket {
    /// An overlay named `label`, drawn into the scene color target.
    pub fn new(label: &str) -> (r: Self)
        ensures
            r.label@ == label@,
            r.target == FrameTarget::SceneColor,
    {
        OverlayPacket { label: String::from_str(label), target: FrameTarget::SceneColor }
    }

    /// An equal packet.
    pub fn duplicate(&self) -> (r: Self)
        ensures
            r == *self,
    {
        OverlayPacket { label: self.label.clone(), target: self.target.duplicate() }
    }
}

/// Presentation of a frame's target on screen.
#[derive(Debug, Clone)]
pub struct PresentPacket {
    pub target: FrameTarget,
}

impl PresentPacket {
    /// Presents the scene color target.
    pub fn new() -> (r: Self)
        ensures
            r.target == FrameTarget::SceneColor,
    {
        PresentPacket { target: FrameTarget::SceneColor }
    }

    /// An equal packet.
    pub fn duplicate(&self) -> (r: Self)
        ensures
            r == *self,
    {
        PresentPacket { target: self.target.duplicate() }
    }
}

/// One pass of a frame, as submitted.
#[derive(Debug, Clone)]
pub enum FramePacketItem {
    WorldView(WorldViewPacket),
    UiLayer(UiLayerPacket),
    Effect(EffectPacket),
    Overlay(OverlayPacket),
    Present(PresentPacket),
}

/// The passes of a frame, in the order they run.
#[derive(Debug, Clone)]
pub struct FramePacket {
    items: Vec<FramePacketItem>,
}

impl FramePacket {
    pub closed spec fn spec_items(&self) -> Seq<FramePacketItem> {
        self.items@
    }

    /// A frame without passes.
    pub fn new() -> (r: Self)
        ensures
            r.spec_items() == Seq::<FramePacketItem>::empty(),
    {
        FramePacket { items: Vec::new() }
    }

    /// The single pass that a demo of `demo_type` renders: a flat or a
    /// physically lit UI layer, or a world view, each named `label`.
    pub fn for_demo(demo_type: DemoType, label: &str) -> (r: Self)
        ensures
            r.spec_items().len() == 1,
            match demo_type {
                DemoType::Ui2D => r.spec_items()[0] matches FramePacketItem::UiLayer(p) && p.label@ == label@
                    && p.style == UiLayerStyle::Flat && p.target == FrameTarget::SceneColor
                    && p.composite_mode == CompositeMode::Replace && p.clear_color == Some(black_color()),
                DemoType::UiPhysical => r.spec_items()[0] matches FramePacketItem::UiLayer(p) && p.label@ == label@
                    && p.style == UiLayerStyle::Physical && p.target == FrameTarget::SceneColor
                    && p.composite_mode == CompositeMode::Replace && p.clear_color == Some(black_color()),
                DemoType::World3D => r.spec_items()[0] matches FramePacketItem::WorldView(p) && p.label@ == label@
                    && p.target == FrameTarget::SceneColor && p.composite_mode == CompositeMode::Replace
                    && p.clear_color == Some(black_color()),
            },
    {
        let mut packet = FramePacket::new();
        match demo_type {
            DemoType::Ui2D => packet.push_ui_layer(UiLayerPacket::new(label, UiLayerStyle::Flat)),
            DemoType::UiPhysical => packet.push_ui_layer(UiLayerPacket::new(label, UiLayerStyle::Physical)),
            DemoType::World3D => packet.push_world_view(WorldViewPacket::new(label)),
        }
        packet
    }

    pub fn items(&self) -> (r: &[FramePacketItem])
        ensures
            r@ == self.spec_items(),
    {
        self.items.as_slice()
    }

    pub fn push_item(&mut self, item: FramePacketItem)
        ensures
            final(self).spec_items() == old(self).spec_items().push(item),
    {
        self.items.push(item);
    }

    pub fn push_world_view(&mut self, packet: WorldViewPacket)
        ensures
            final(self).spec_items() == old(self).spec_items().push(FramePacketItem::WorldView(packet)),
    {
        self.push_item(FramePacketItem::WorldView(packet));
    }

    pub fn push_ui_layer(&mut self, packet: UiLayerPacket)
        ensures
            final(self).spec_items() == old(self).spec_items().push(FramePacketItem::UiLayer(packet)),
    {
        self.push_item(FramePacketItem::UiLayer(packet));
    }

    pub fn push_effect(&mut self, packet: EffectPacket)
        ensures
            final(self).spec_items() == old(self).spec_items().push(FramePacketItem::Effect(packet)),
    {
        self.push_item(FramePacketItem::Effect(packet));
    }

    pub fn push_overlay(&mut self, packet: OverlayPacket)
        ensures
            final(self).spec_items() == old(self).spec_items().push(FramePacketItem::Overlay(packet)),
    {
        self.push_item(FramePacketItem::Overlay(packet));
    }

    pub fn push_present(&mut self, packet: PresentPacket)
        ensures
            final(self).spec_items() == old(self).spec_items().push(FramePacketItem::Present(packet)),
    {
        self.push_item(FramePacketItem::Present(packet));
    }

    /// The passes of the frame, in order.
    pub fn compile(&self) -> (r: CompiledFrameGraph)
        ensures
            compiles_to(self.spec_items(), r.spec_passes()),
    {
        CompiledFrameGraph::from_packet(self)
    }
}

/// `item` as the pass that runs it.
pub open spec fn compiled_pass(item: FramePacketItem) -> CompiledFramePass {
    match item {
        FramePacketItem::WorldView(p) => CompiledFramePass::WorldView(p),
        FramePacketItem::UiLayer(p) => CompiledFramePass::UiLayer(p),
        FramePacketItem::Effect(p) => CompiledFramePass::Effect(p),
        FramePacketItem::Overlay(p) => CompiledFramePass::Overlay(p),
        FramePacketItem::Present(p) => CompiledFramePass::Present(p),
    }
}

/// `passes` runs `items` one by one, in their order.
pub open spec fn compiles_to(items: Seq<FramePacketItem>, passes: Seq<CompiledFramePass>) -> bool {
    &&& passes.len() == items.len()
    &&& forall|i: int| 0 <= i < items.len() ==> #[trigger] passes[i] == compiled_pass(items[i])
}

/// `item` is the full-screen composite of a pass named `label` that
/// rendered into `source`: named `label` followed by " Composite", drawn from
/// the whole of `source` onto `target_rect` of the scene color target with
/// `mode` and `clear`.
pub open spec fn is_composite_of(
    item: FramePacketItem,
    label: Seq<char>,
    source: FrameTarget,
    mode: CompositeMode,
    clear: Option<ClearColor>,
    target_rect: NormalizedRect,
) -> bool {
    &&& item matches FramePacketItem::Effect(e)
    &&& e.label@ == label + " Composite"@
    &&& e.source == source
    &&& e.target == FrameTarget::SceneColor
    &&& e.composite_mode == mode
    &&& e.clear_color == clear
    &&& e.source_rect == fullscreen_rect()
    &&& e.target_rect == target_rect
}

/// `item` is a world view that renders into the offscreen target named
/// `target`, replacing it with a black background, and is named `label`.
pub open spec fn is_offscreen_world(item: FramePacketItem, label: Seq<char>, target: Seq<char>) -> bool {
    &&& item matches FramePacketItem::WorldView(p)
    &&& p.label@ == label
    &&& p.target matches FrameTarget::Offscreen(name) && name@ == target
    &&& p.composite_mode == CompositeMode::Replace
    &&& p.clear_color == Some(black_color())
}

/// `item` is a UI layer of `style` that renders into the offscreen target
/// named `target` over a transparent background, and is named `label`.
pub open spec fn is_offscreen_ui(item: FramePacketItem, label: Seq<char>, style: UiLayerStyle, target: Seq<char>) -> bool {
    &&& item matches FramePacketItem::UiLayer(p)
    &&& p.label@ == label
    &&& p.style == style
    &&& p.target matches FrameTarget::Offscreen(name) && name@ == target
    &&& p.composite_mode == CompositeMode::Replace
    &&& p.clear_color == Some(transparent_color())
}

/// A frame put together from world views, UI layers and effects.
#[derive(Debug, Clone)]
pub struct ComposedScene {
    packet: FramePacket,
}

impl ComposedScene {
    pub closed spec fn spec_items(&self) -> Seq<FramePacketItem> {
        self.packet.spec_items()
    }

    pub fn new() -> (r: Self)
        ensures
            r.spec_items() == Seq::<FramePacketItem>::empty(),
    {
        ComposedScene { packet: FramePacket::new() }
    }

    /// The world, composited over the whole frame, then the UI on top.
    pub fn from_world_with_ui_overlay(world_view: WorldView, ui_layer: UiLayer) -> (r: Self)
        ensures
            r.spec_items().len() == 4,
            r.spec_items()[0] == FramePacketItem::WorldView(world_view.spec_packet()),
            is_composite_of(
                r.spec_items()[1],
                world_view.spec_packet().label@,
                world_view.spec_packet().target,
                CompositeMode::Replace,
                Some(black_color()),
                fullscreen_rect(),
            ),
            r.spec_items()[2] == FramePacketItem::UiLayer(ui_layer.spec_packet()),
            is_composite_of(
                r.spec_items()[3],
                ui_layer.spec_packet().label@,
                ui_layer.spec_packet().target,
                CompositeMode::Over,
                None,
                fullscreen_rect(),
            ),
    {
        let mut scene = ComposedScene::new();
        scene.push_fullscreen_world_with_composite(world_view);
        scene.push_fullscreen_ui_with_composite(ui_layer);
        scene
    }

    /// The UI over the whole frame, then the world composited into
    /// `world_rect`.
    pub fn from_ui_with_embedded_world_view(ui_layer: UiLayer, world_view: WorldView, world_rect: NormalizedRect) -> (r: Self)
        ensures
            r.spec_items().len() == 4,
            r.spec_items()[0] == FramePacketItem::UiLayer(ui_layer.spec_packet()),
            is_composite_of(
                r.spec_items()[1],
                ui_layer.spec_packet().label@,
                ui_layer.spec_packet().target,
                CompositeMode::Over,
                None,
                fullscreen_rect(),
            ),
            r.spec_items()[2] == FramePacketItem::WorldView(world_view.spec_packet()),
            is_composite_of(
                r.spec_items()[3],
                world_view.spec_packet().label@,
                world_view.spec_packet().target,
                CompositeMode::Over,
                None,
                world_rect,
            ),
    {
        let mut scene = ComposedScene::new();
        scene.push_fullscreen_ui_with_composite(ui_layer);
        scene.push_embedded_world_with_composite(world_view, world_rect);
        scene
    }

    /// A world rendered offscreen into `world_target`, and a transparent UI
    /// layer rendered offscreen into `ui_target` and drawn over it.
    pub fn world_with_ui_overlay(
        world_label: &str,
        world_target: &str,
        ui_label: &str,
        ui_style: UiLayerStyle,
        ui_target: &str,
    ) -> (r: Self)
        ensures
            r.spec_items().len() == 4,
            is_offscreen_world(r.spec_items()[0], world_label@, world_target@),
            is_composite_of(
                r.spec_items()[1],
                world_label@,
                FrameTarget::Offscreen(r.spec_items()[0]->WorldView_0.target->Offscreen_0),
                CompositeMode::Replace,
                Some(black_color()),
                fullscreen_rect(),
            ),
            is_offscreen_ui(r.spec_items()[2], ui_label@, ui_style, ui_target@),
            is_composite_of(
                r.spec_items()[3],
                ui_label@,
                FrameTarget::Offscreen(r.spec_items()[2]->UiLayer_0.target->Offscreen_0),
                CompositeMode::Over,
                None,
                fullscreen_rect(),
            ),
    {
        ComposedScene::from_world_with_ui_overlay(
            WorldView::new(world_label).to_offscreen(world_target),
            UiLayer::new(ui_label, ui_style).to_offscreen(ui_target).transparent(),
        )
    }

    /// A transparent UI layer rendered offscreen into `ui_target` and drawn
    /// over the frame, then a world rendered offscreen into `world_target`
    /// and drawn into `world_rect`.
    pub fn ui_with_embedded_world_view(
        ui_label: &str,
        ui_style: UiLayerStyle,
        ui_target: &str,
        world_label: &str,
        world_target: &str,
        world_rect: NormalizedRect,
    ) -> (r: Self)
        ensures
            r.spec_items().len() == 4,
            is_offscreen_ui(r.spec_items()[0], ui_label@, ui_style, ui_target@),
            is_composite_of(
                r.spec_items()[1],
                ui_label@,
                FrameTarget::Offscreen(r.spec_items()[0]->UiLayer_0.target->Offscreen_0),
                CompositeMode::Over,
                None,
                fullscreen_rect(),
            ),
            is_offscreen_world(r.spec_items()[2], world_label@, world_target@),
            is_composite_of(
                r.spec_items()[3],
                world_label@,
                FrameTarget::Offscreen(r.spec_items()[2]->WorldView_0.target->Offscreen_0),
                CompositeMode::Over,
                None,
                world_rect,
            ),
    {
        ComposedScene::from_ui_with_embedded_world_view(
            UiLayer::new(ui_label, ui_style).to_offscreen(ui_target).transparent(),
            WorldView::new(world_label).to_offscreen(world_target),
            world_rect,
        )
    }

    /// Appends a world view named `label` rendered into the offscreen target
    /// `offscreen_target`, and its composite replacing the whole frame.
    pub fn add_fullscreen_world_view(&mut self, label: &str, offscreen_target: &str)
        ensures
            final(self).spec_items().len() == old(self).spec_items().len() + 2,
            final(self).spec_items().take(old(self).spec_items().len() as int) == old(self).spec_items(),
            is_offscreen_world(final(self).spec_items()[old(self).spec_items().len() as int], label@, offscreen_target@),
            is_composite_of(
                final(self).spec_items()[old(self).spec_items().len() + 1int],
                label@,
                final(self).spec_items()[old(self).spec_items().len() as int]->WorldView_0.target,
                CompositeMode::Replace,
                Some(black_color()),
                fullscreen_rect(),
            ),
    {
        let target = FrameTarget::Offscreen(String::from_str(offscreen_target));
        self.push_world(WorldView::new(label).to_target(target.duplicate()));
        self.push_effect_layer(
            EffectLayer::composite(concat_str(label, " Composite").as_str(), target, FrameTarget::SceneColor)
                .with_composite_mode(CompositeMode::Replace)
                .with_clear_color(Some(ClearColor::black())),
        );
        proof {
            assert(final(self).spec_items().take(old(self).spec_items().len() as int) =~= old(self).spec_items());
        }
    }

    /// Appends `world_view` and its composite replacing the whole frame.
    pub fn push_fullscreen_world_with_composite(&mut self, world_view: WorldView)
        ensures
            final(self).spec_items().len() == old(self).spec_items().len() + 2,
            final(self).spec_items().take(old(self).spec_items().len() as int) == old(self).spec_items(),
            final(self).spec_items()[old(self).spec_items().len() as int] == FramePacketItem::WorldView(world_view.spec_packet()),
            is_composite_of(
                final(self).spec_items()[old(self).spec_items().len() + 1int],
                world_view.spec_packet().label@,
                world_view.spec_packet().target,
                CompositeMode::Replace,
                Some(black_color()),
                fullscreen_rect(),
            ),
    {
        let packet = world_view.into_packet();
        let target = packet.target.duplicate();
        let label = packet.label.clone();
        self.push_world_view(packet);
        self.push_effect(
            EffectLayer::composite(concat_str(label.as_str(), " Composite").as_str(), target, FrameTarget::SceneColor)
                .with_composite_mode(CompositeMode::Replace)
                .with_clear_color(Some(ClearColor::black()))
                .into_packet(),
        );
        proof {
            assert(final(self).spec_items().take(old(self).spec_items().len() as int) =~= old(self).spec_items());
        }
    }

    /// Appends a transparent UI layer of `style` named `label` rendered into
    /// the offscreen target `offscreen_target`, and its composite drawn over
    /// the whole frame.
    pub fn add_fullscreen_ui_overlay(&mut self, label: &str, style: UiLayerStyle, offscreen_target: &str)
        ensures
            final(self).spec_items().len() == old(self).spec_items().len() + 2,
            final(self).spec_items().take(old(self).spec_items().len() as int) == old(self).spec_items(),
            is_offscreen_ui(final(self).spec_items()[old(self).spec_items().len() as int], label@, style, offscreen_target@),
            is_composite_of(
                final(self).spec_items()[old(self).spec_items().len() + 1int],
                label@,
                final(self).spec_items()[old(self).spec_items().len() as int]->UiLayer_0.target,
                CompositeMode::Over,
                None,
                fullscreen_rect(),
            ),
    {
        let target = FrameTarget::Offscreen(String::from_str(offscreen_target));
        self.push_ui(UiLayer::new(label, style).to_target(target.duplicate()).transparent());
        self.push_effect_layer(
            EffectLayer::composite(concat_str(label, " Composite").as_str(), target, FrameTarget::SceneColor),
        );
        proof {
            assert(final(self).spec_items().take(old(self).spec_items().len() as int) =~= old(self).spec_items());
        }
    }

    /// Appends `ui_layer` and its composite drawn over the whole frame.
    pub fn push_fullscreen_ui_with_composite(&mut self, ui_layer: UiLayer)
        ensures
            final(self).spec_items().len() == old(self).spec_items().len() + 2,
            final(self).spec_items().take(old(self).spec_items().len() as int) == old(self).spec_items(),
            final(self).spec_items()[old(self).spec_items().len() as int] == FramePacketItem::UiLayer(ui_layer.spec_packet()),
            is_composite_of(
                final(self).spec_items()[old(self).spec_items().len() + 1int],
                ui_layer.spec_packet().label@,
                ui_layer.spec_packet().target,
                CompositeMode::Over,
                None,
                fullscreen_rect(),
            ),
    {
        let packet = ui_layer.into_packet();
        let target = packet.target.duplicate();
        let label = packet.label.clone();
        self.push_ui_layer(packet);
        self.push_effect(
            EffectPacket::composite(concat_str(label.as_str(), " Composite").as_str(), target, FrameTarget::SceneColor),
        );
        proof {
            assert(final(self).spec_items().take(old(self).spec_items().len() as int) =~= old(self).spec_items());
        }
    }

    /// Appends a world view named `label` rendered into the offscreen target
    /// `offscreen_target`, and its composite drawn into `target_rect`.
    pub fn add_embedded_world_view(&mut self, label: &str, offscreen_target: &str, target_rect: NormalizedRect)
        ensures
            final(self).spec_items().len() == old(self).spec_items().len() + 2,
            final(self).spec_items().take(old(self).spec_items().len() as int) == old(self).spec_items(),
            is_offscreen_world(final(self).spec_items()[old(self).spec_items().len() as int], label@, offscreen_target@),
            is_composite_of(
                final(self).spec_items()[old(self).spec_items().len() + 1int],
                label@,
                final(self).spec_items()[old(self).spec_items().len() as int]->WorldView_0.target,
                CompositeMode::Over,
                None,
                target_rect,
            ),
    {
        let target = FrameTarget::Offscreen(String::from_str(offscreen_target));
        self.push_world(WorldView::new(label).to_target(target.duplicate()));
        self.push_effect_layer(
            EffectLayer::composite(concat_str(label, " Composite").as_str(), target, FrameTarget::SceneColor)
                .with_target_rect(target_rect),
        );
        proof {
            assert(final(self).spec_items().take(old(self).spec_items().len() as int) =~= old(self).spec_items());
        }
    }

    /// Appends `world_view` and its composite drawn into `target_rect`.
    pub fn push_embedded_world_with_composite(&mut self, world_view: WorldView, target_rect: NormalizedRect)
        ensures
            final(self).spec_items().len() == old(self).spec_items().len() + 2,
            final(self).spec_items().take(old(self).spec_items().len() as int) == old(self).spec_items(),
            final(self).spec_items()[old(self).spec_items().len() as int] == FramePacketItem::WorldView(world_view.spec_packet()),
            is_composite_of(
                final(self).spec_items()[old(self).spec_items().len() + 1int],
                world_view.spec_packet().label@,
                world_view.spec_packet().target,
                CompositeMode::Over,
                None,
                target_rect,
            ),
    {
        let packet = world_view.into_packet();
        let target = packet.target.duplicate();
        let label = packet.label.clone();
        self.push_world_view(packet);
        self.push_effect(
            EffectPacket::composite(concat_str(label.as_str(), " Composite").as_str(), target, FrameTarget::SceneColor)
                .with_target_rect(target_rect),
        );
        proof {
            assert(final(self).spec_items().take(old(self).spec_items().len() as int) =~= old(self).spec_items());
        }
    }

    pub fn push_world(&mut self, world_view: WorldView)
        ensures
            final(self).spec_items() == old(self).spec_items().push(FramePacketItem::WorldView(world_view.spec_packet())),
    {
        self.packet.push_world_view(world_view.into_packet());
    }

    pub fn push_ui(&mut self, ui_layer: UiLayer)
        ensures
            final(self).spec_items() == old(self).spec_items().push(FramePacketItem::UiLayer(ui_layer.spec_packet())),
    {
        self.packet.push_ui_layer(ui_layer.into_packet());
    }

    pub fn push_effect_layer(&mut self, effect_layer: EffectLayer)
        ensures
            final(self).spec_items() == old(self).spec_items().push(FramePacketItem::Effect(effect_layer.spec_packet())),
    {
        self.packet.push_effect(effect_layer.into_packet());
    }

    pub fn push_world_view(&mut self, packet: WorldViewPacket)
        ensures
            final(self).spec_items() == old(self).spec_items().push(FramePacketItem::WorldView(packet)),
    {
        self.packet.push_world_view(packet);
    }

    pub fn push_ui_layer(&mut self, packet: UiLayerPacket)
        ensures
            final(self).spec_items() == old(self).spec_items().push(FramePacketItem::UiLayer(packet)),
    {
        self.packet.push_ui_layer(packet);
    }

    pub fn push_effect(&mut self, packet: EffectPacket)
        ensures
            final(self).spec_items() == old(self).spec_items().push(FramePacketItem::Effect(packet)),
    {
        self.packet.push_effect(packet);
    }

    pub fn into_frame_packet(self) -> (r: FramePacket)
        ensures
            r.spec_items() == self.spec_items(),
    {
        self.packet
    }
}

/// One pass of a compiled frame.
#[derive(Debug, Clone)]
pub enum CompiledFramePass {
    WorldView(WorldViewPacket),
    UiLayer(UiLayerPacket),
    Effect(EffectPacket),
    Overlay(OverlayPacket),
    Present(PresentPacket),
}

/// The passes of a frame, in the order they run.
#[derive(Debug, Clone)]
pub struct CompiledFrameGraph {
    passes: Vec<CompiledFramePass>,
}

impl CompiledFrameGraph {
    pub closed spec fn spec_passes(&self) -> Seq<CompiledFramePass> {
        self.passes@
    }

    /// One pass for each item of `packet`, in the same order.
    pub fn from_packet(packet: &FramePacket) -> (r: Self)
        ensures
            compiles_to(packet.spec_items(), r.spec_passes()),
    {
        let mut passes: Vec<CompiledFramePass> = Vec::new();
        let mut i: usize = 0;
        while i < packet.items.len()
            invariant
                i <= packet.items@.len(),
                passes@.len() == i,
                forall|k: int| 0 <= k < i ==> #[trigger] passes@[k] == compiled_pass(packet.items@[k]),
            decreases packet.items@.len() - i,
        {
            let pass = match &packet.items[i] {
                FramePacketItem::WorldView(p) => CompiledFramePass::WorldView(p.duplicate()),
                FramePacketItem::UiLayer(p) => CompiledFramePass::UiLayer(p.duplicate()),
                FramePacketItem::Effect(p) => CompiledFramePass::Effect(p.duplicate()),
                FramePacketItem::Overlay(p) => CompiledFramePass::Overlay(p.duplicate()),
                FramePacketItem::Present(p) => CompiledFramePass::Present(p.duplicate()),
            };
            passes.push(pass);
            i += 1;
        }
        CompiledFrameGraph { passes }
    }

    pub fn passes(&self) -> (r: &[CompiledFramePass])
        ensures
            r@ == self.spec_passes(),
    {
        self.passes.as_slice()
    }
}

/// The target `pass` renders into; a presentation renders into none.
pub open spec fn pass_target(pass: CompiledFramePass) -> Option<FrameTarget> {
    match pass {
        CompiledFramePass::WorldView(p) => Some(p.target),
        CompiledFramePass::UiLayer(p) => Some(p.target),
        CompiledFramePass::Effect(p) => Some(p.target),
        CompiledFramePass::Overlay(p) => Some(p.target),
        CompiledFramePass::Present(_) => None,
    }
}

/// The target `pass` reads from; only effects read one.
pub open spec fn pass_source(pass: CompiledFramePass) -> Option<FrameTarget> {
    match pass {
        CompiledFramePass::Effect(p) => Some(p.source),
        _ => None,
    }
}

/// `names`, with the name of `target` appended when it is an offscreen
/// target not named yet.
pub open spec fn add_target_name(names: Seq<Seq<char>>, target: Option<FrameTarget>) -> Seq<Seq<char>> {
    match target {
        Some(FrameTarget::Offscreen(name)) => if names.contains(name@) {
            names
        } else {
            names.push(name@)
        },
        _ => names,
    }
}

/// The offscreen targets that `passes` use, each once, in the order in
/// which the passes first name them (a pass's target before its source).
pub open spec fn frame_target_names(passes: Seq<CompiledFramePass>) -> Seq<Seq<char>>
    decreases passes.len(),
{
    if passes.len() == 0 {
        Seq::empty()
    } else {
        let last = passes.last();
        add_target_name(add_target_name(frame_target_names(passes.drop_last()), pass_target(last)), pass_source(last))
    }
}

/// `target` is the offscreen target named `name`.
pub open spec fn names_offscreen(target: Option<FrameTarget>, name: Seq<char>) -> bool {
    target matches Some(FrameTarget::Offscreen(n)) && n@ == name
}

/// Some pass of `passes` renders into or reads from the offscreen target
/// named `name`.
pub open spec fn uses_offscreen(passes: Seq<CompiledFramePass>, name: Seq<char>) -> bool {
    exists|i: int|
        0 <= i < passes.len() && (#[trigger] names_offscreen(pass_target(passes[i]), name) || names_offscreen(
            pass_source(passes[i]),
            name,
        ))
}

pub open spec fn string_views(s: Seq<String>) -> Seq<Seq<char>> {
    s.map_values(|x: String| x@)
}

/// Whether one of `names` equals `name`.
fn contains_name(names: &Vec<String>, name: &String) -> (r: bool)
    ensures
        r == string_views(names@).contains(name@),
{
    let mut i: usize = 0;
    while i < names.len()
        invariant
            i <= names@.len(),
            forall|k: int| 0 <= k < i ==> names@[k]@ != name@,
        decreases names@.len() - i,
    {
        if names[i] == *name {
            assert(string_views(names@)[i as int] == name@);
            return true;
        }
        i += 1;
    }
    assert forall|k: int| 0 <= k < string_views(names@).len() implies string_views(names@)[k] != name@ by {}
    false
}

/// Appends the name of `target` to `names` when it is an offscreen target
/// not named yet.
fn add_target_name_once(names: &mut Vec<String>, target: &FrameTarget)
    ensures
        string_views(final(names)@) == add_target_name(string_views(old(names)@), Some(*target)),
{
    if let FrameTarget::Offscreen(name) = target {
        if !contains_name(names, name) {
            let ghost before = names@;
            names.push(name.clone());
            assert(string_views(names@) =~= string_views(before).push(name@));
        }
    }
}

/// The offscreen targets that `graph` uses, each once, in the order its
/// passes first name them.
pub fn collect_frame_targets(graph: &CompiledFrameGraph) -> (names: Vec<String>)
    ensures
        string_views(names@) == frame_target_names(graph.spec_passes()),
{
    let passes = graph.passes();
    let mut names: Vec<String> = Vec::new();
    let mut i: usize = 0;
    while i < passes.len()
        invariant
            i <= passes@.len(),
            passes@ == graph.spec_passes(),
            string_views(names@) == frame_target_names(passes@.take(i as int)),
        decreases passes@.len() - i,
    {
        let pass = &passes[i];
        match pass {
            CompiledFramePass::WorldView(p) => add_target_name_once(&mut names, &p.target),
            CompiledFramePass::UiLayer(p) => add_target_name_once(&mut names, &p.target),
            CompiledFramePass::Effect(p) => {
                add_target_name_once(&mut names, &p.target);
                add_target_name_once(&mut names, &p.source);
            },
            CompiledFramePass::Overlay(p) => add_target_name_once(&mut names, &p.target),
            CompiledFramePass::Present(_) => {},
        }
        assert(passes@.take(i + 1).drop_last() =~= passes@.take(i as int));
        i += 1;
    }
    assert(passes@.take(passes@.len() as int) =~= passes@);
    names
}

/// Which offscreen textures to keep and which to create, given the names
/// of those that exist and of those the next frame needs: keep the needed
/// ones that exist, create the needed ones that do not, in the order
/// needed; the others are dropped.
pub fn plan_frame_targets(existing: &Vec<String>, required: &Vec<String>) -> (r: (Vec<String>, Vec<String>))
    ensures
        forall|n: Seq<char>| #[trigger] string_views(r.0@).contains(n) <==> (string_views(existing@).contains(n)
            && string_views(required@).contains(n)),
        string_views(r.1@) == string_views(required@).filter(|n: Seq<char>| !string_views(existing@).contains(n)),
{
    let mut keep: Vec<String> = Vec::new();
    let mut i: usize = 0;
    while i < existing.len()
        invariant
            i <= existing@.len(),
            forall|n: Seq<char>| #[trigger] string_views(keep@).contains(n) <==> (string_views(
                existing@.take(i as int),
            ).contains(n) && string_views(required@).contains(n)),
        decreases existing@.len() - i,
    {
        let ghost prev = keep@;
        proof {
            assert(string_views(existing@.take(i + 1)) =~= string_views(existing@.take(i as int)).push(existing@[i as int]@));
        }
        let needed = contains_name(required, &existing[i]);
        if needed {
            keep.push(existing[i].clone());
            proof {
                assert(string_views(keep@) =~= string_views(prev).push(existing@[i as int]@));
                lemma_push_contains(string_views(prev), existing@[i as int]@);
            }
        }
        proof {
            lemma_push_contains(string_views(existing@.take(i as int)), existing@[i as int]@);
        }
        i += 1;
    }
    proof {
        assert(existing@.take(existing@.len() as int) =~= existing@);
    }
    let mut create: Vec<String> = Vec::new();
    let mut j: usize = 0;
    while j < required.len()
        invariant
            j <= required@.len(),
            string_views(create@) == string_views(required@.take(j as int)).filter(
                |n: Seq<char>| !string_views(existing@).contains(n),
            ),
        decreases required@.len() - j,
    {
        let ghost prev = create@;
        proof {
            assert(string_views(required@.take(j + 1)) =~= string_views(required@.take(j as int)).push(required@[j as int]@));
            string_views(required@.take(j as int)).lemma_filter_push(
                required@[j as int]@,
                |n: Seq<char>| !string_views(existing@).contains(n),
            );
        }
        if !contains_name(existing, &required[j]) {
            create.push(required[j].clone());
            proof {
                assert(string_views(create@) =~= string_views(prev).push(required@[j as int]@));
            }
        }
        j += 1;
    }
    proof {
        assert(required@.take(required@.len() as int) =~= required@);
    }
    (keep, create)
}

proof fn lemma_push_contains(s: Seq<Seq<char>>, x: Seq<char>)
    ensures
        forall|n: Seq<char>| #[trigger] s.push(x).contains(n) <==> (s.contains(n) || n == x),
{
    assert forall|n: Seq<char>| #[trigger] s.push(x).contains(n) <==> (s.contains(n) || n == x) by {
        if s.contains(n) {
            let k = choose|k: int| 0 <= k < s.len() && s[k] == n;
            assert(s.push(x)[k] == n);
        }
        if n == x {
            assert(s.push(x)[s.len() as int] == n);
        }
        if s.push(x).contains(n) && n != x {
            let k = choose|k: int| 0 <= k < s.push(x).len() && s.push(x)[k] == n;
            assert(s[k] == n);
        }
    }
}

proof fn lemma_add_target_name(names: Seq<Seq<char>>, target: Option<FrameTarget>)
    ensures
        names.no_duplicates() ==> add_target_name(names, target).no_duplicates(),
        forall|n: Seq<char>| #[trigger]
            add_target_name(names, target).contains(n) <==> (names.contains(n) || names_offscreen(target, n)),
{
    let r = add_target_name(names, target);
    assert forall|n: Seq<char>| #[trigger] r.contains(n) <==> (names.contains(n) || names_offscreen(target, n)) by {
        if names.contains(n) {
            let j = choose|j: int| 0 <= j < names.len() && names[j] == n;
            assert(r[j] == n);
        }
        if let Some(FrameTarget::Offscreen(t)) = target {
            if !names.contains(t@) {
                assert(r[names.len() as int] == t@);
                if r.contains(n) && !names.contains(n) {
                    let j = choose|j: int| 0 <= j < r.len() && r[j] == n;
                    if j < names.len() {
                        assert(names[j] == n);
                    }
                }
            }
        }
    }
}

/// Every offscreen target that the passes use is named once, and only
/// those are named.
pub proof fn lemma_frame_target_names_exact(passes: Seq<CompiledFramePass>)
    ensures
        frame_target_names(passes).no_duplicates(),
        forall|name: Seq<char>| #[trigger] frame_target_names(passes).contains(name) <==> uses_offscreen(passes, name),
    decreases passes.len(),
{
    if passes.len() > 0 {
        let prev = passes.drop_last();
        let last = passes.last();
        lemma_frame_target_names_exact(prev);
        let a = frame_target_names(prev);
        let b = add_target_name(a, pass_target(last));
        lemma_add_target_name(a, pass_target(last));
        lemma_add_target_name(b, pass_source(last));
        assert forall|name: Seq<char>| #[trigger]
            frame_target_names(passes).contains(name) <==> uses_offscreen(passes, name) by {
            if a.contains(name) {
                let i = choose|i: int|
                    0 <= i < prev.len() && (#[trigger] names_offscreen(pass_target(prev[i]), name) || names_offscreen(
                        pass_source(prev[i]),
                        name,
                    ));
                assert(prev[i] == passes[i]);
                assert(names_offscreen(pass_target(passes[i]), name) || names_offscreen(pass_source(passes[i]), name));
            }
            if names_offscreen(pass_target(last), name) || names_offscreen(pass_source(last), name) {
                let k = passes.len() - 1;
                assert(names_offscreen(pass_target(passes[k]), name) || names_offscreen(pass_source(passes[k]), name));
            }
            if uses_offscreen(passes, name) {
                let i = choose|i: int|
                    0 <= i < passes.len() && (#[trigger] names_offscreen(pass_target(passes[i]), name) || names_offscreen(
                        pass_source(passes[i]),
                        name,
                    ));
                if i < passes.len() - 1 {
                    assert(prev[i] == passes[i]);
                    assert(names_offscreen(pass_target(prev[i]), name) || names_offscreen(pass_source(prev[i]), name));
                    assert(uses_offscreen(prev, name));
                }
            }
        }
    }
}

} // verus!
