use raybox::demo_core::DemoType;
use raybox::frame_graph::{
    collect_frame_targets, plan_frame_targets, ClearColor, CompiledFramePass, ComposedScene, CompositeMode, EffectLayer,
    EffectPacket, FramePacket, FramePacketItem, FrameTarget, LoadOp, NormalizedRect, OverlayPacket,
    PresentPacket, UiLayer, UiLayerPacket, UiLayerStyle, WorldView, WorldViewPacket,
};
use raybox::retained_ui_shared::{PreparedRetainedUiScene, SharedRetainedUiUpdate};

#[test]
fn packets_target_the_scene_color_by_default() {
    let overlay = OverlayPacket::new("Overlay");
    assert_eq!(overlay.label, "Overlay");
    assert_eq!(overlay.target, FrameTarget::SceneColor);
    assert_eq!(PresentPacket::new().target, FrameTarget::SceneColor);
}

#[test]
fn composite_mode_load_ops() {
    assert_eq!(CompositeMode::Replace.load_op(None), LoadOp::Clear(ClearColor::black()));
    assert_eq!(
        CompositeMode::Replace.load_op(Some(ClearColor::transparent())),
        LoadOp::Clear(ClearColor { r: 0, g: 0, b: 0, a: 0 })
    );
    assert_eq!(CompositeMode::Over.load_op(Some(ClearColor::black())), LoadOp::Load);
}

#[test]
fn shared_update_reports_full_rebuilds() {
    let full: SharedRetainedUiUpdate<u8, u8, (), ()> =
        SharedRetainedUiUpdate::Full(PreparedRetainedUiScene { text_data: 1, ui_data: 2 });
    assert!(full.needs_full_rebuild());
    let partial: SharedRetainedUiUpdate<u8, u8, (), ()> = SharedRetainedUiUpdate::Partial { text: None, ui: None };
    assert!(!partial.needs_full_rebuild());
}

#[test]
fn ui_physical_demo_packet_starts_with_physical_ui_layer() {
    let packet = FramePacket::for_demo(DemoType::UiPhysical, "TodoMVC 3D");
    assert!(matches!(
        packet.items(),
        [FramePacketItem::UiLayer(UiLayerPacket {
            style: UiLayerStyle::Physical,
            ..
        })]
    ));
}

#[test]
fn compile_preserves_packet_item_order() {
    let mut packet = FramePacket::for_demo(DemoType::World3D, "Objects");
    packet.push_effect(EffectPacket::composite(
        "Composite",
        FrameTarget::Offscreen("source".into()),
        FrameTarget::SceneColor,
    ));
    packet.push_overlay(OverlayPacket::new("Overlay"));
    packet.push_present(PresentPacket::new());

    let graph = packet.compile();
    assert!(matches!(graph.passes()[0], CompiledFramePass::WorldView(_)));
    assert!(matches!(graph.passes()[1], CompiledFramePass::Effect(_)));
    assert!(matches!(graph.passes()[2], CompiledFramePass::Overlay(_)));
    assert!(matches!(graph.passes()[3], CompiledFramePass::Present(_)));
}

#[test]
fn composite_packet_defaults_to_fullscreen_rects() {
    let packet = EffectPacket::composite(
        "Composite",
        FrameTarget::Offscreen("source".into()),
        FrameTarget::SceneColor,
    );
    assert_eq!(packet.source_rect, NormalizedRect::fullscreen());
    assert_eq!(packet.target_rect, NormalizedRect::fullscreen());
    assert_eq!(NormalizedRect::fullscreen().as_vec4(), [0, 0, 10000, 10000]);
}

#[test]
fn wrapper_types_build_expected_packets() {
    let world = WorldView::new("World").to_offscreen("world").into_packet();
    let ui = UiLayer::new("UI", UiLayerStyle::Flat)
        .to_offscreen("ui")
        .transparent()
        .into_packet();
    let effect = EffectLayer::composite(
        "Composite",
        FrameTarget::Offscreen("world".into()),
        FrameTarget::SceneColor,
    )
    .with_target_rect(NormalizedRect::new([2000, 3000], [4000, 5000]))
    .into_packet();

    assert!(matches!(world.target, FrameTarget::Offscreen(_)));
    assert_eq!(ui.clear_color, Some(ClearColor::transparent()));
    assert_eq!(effect.target_rect, NormalizedRect::new([2000, 3000], [4000, 5000]));
}

#[test]
fn composed_scene_fullscreen_helpers_emit_expected_packets() {
    let mut scene = ComposedScene::new();
    scene.add_fullscreen_world_view("World", "world");
    scene.add_fullscreen_ui_overlay("UI", UiLayerStyle::Flat, "ui");

    assert!(matches!(
        scene.into_frame_packet().items(),
        [
            FramePacketItem::WorldView(WorldViewPacket { .. }),
            FramePacketItem::Effect(EffectPacket {
                composite_mode: CompositeMode::Replace,
                ..
            }),
            FramePacketItem::UiLayer(UiLayerPacket {
                style: UiLayerStyle::Flat,
                ..
            }),
            FramePacketItem::Effect(EffectPacket {
                composite_mode: CompositeMode::Over,
                ..
            }),
        ]
    ));
}

#[test]
fn composed_scene_embedded_world_view_sets_target_rect() {
    let rect = NormalizedRect::new([1000, 2000], [3000, 4000]);
    let mut scene = ComposedScene::new();
    scene.add_embedded_world_view("Preview", "preview", rect);

    assert!(matches!(
        scene.into_frame_packet().items(),
        [
            FramePacketItem::WorldView(_),
            FramePacketItem::Effect(EffectPacket { target_rect, .. }),
        ] if *target_rect == rect
    ));
}

#[test]
fn composed_scene_preset_world_with_ui_overlay_orders_world_before_ui() {
    let packet =
        ComposedScene::world_with_ui_overlay("World", "world", "UI", UiLayerStyle::Flat, "ui")
            .into_frame_packet();

    assert!(matches!(
        packet.items(),
        [
            FramePacketItem::WorldView(_),
            FramePacketItem::Effect(EffectPacket {
                composite_mode: CompositeMode::Replace,
                ..
            }),
            FramePacketItem::UiLayer(_),
            FramePacketItem::Effect(EffectPacket {
                composite_mode: CompositeMode::Over,
                ..
            }),
        ]
    ));
}

#[test]
fn composed_scene_direct_wrapper_overlay_matches_expected_order() {
    let packet = ComposedScene::from_world_with_ui_overlay(
        WorldView::new("World").to_offscreen("world"),
        UiLayer::new("UI", UiLayerStyle::Flat)
            .to_offscreen("ui")
            .transparent(),
    )
    .into_frame_packet();

    assert!(matches!(
        packet.items(),
        [
            FramePacketItem::WorldView(_),
            FramePacketItem::Effect(EffectPacket {
                composite_mode: CompositeMode::Replace,
                ..
            }),
            FramePacketItem::UiLayer(_),
            FramePacketItem::Effect(EffectPacket {
                composite_mode: CompositeMode::Over,
                ..
            }),
        ]
    ));
}

#[test]
fn composed_scene_direct_wrapper_embedded_preview_sets_rect() {
    let rect = NormalizedRect::new([6600, 1200], [2400, 2400]);
    let packet = ComposedScene::from_ui_with_embedded_world_view(
        UiLayer::new("UI", UiLayerStyle::Flat)
            .to_offscreen("ui")
            .transparent(),
        WorldView::new("Preview").to_offscreen("preview"),
        rect,
    )
    .into_frame_packet();

    assert!(matches!(
        packet.items(),
        [
            FramePacketItem::UiLayer(_),
            FramePacketItem::Effect(EffectPacket {
                composite_mode: CompositeMode::Over,
                ..
            }),
            FramePacketItem::WorldView(_),
            FramePacketItem::Effect(EffectPacket { target_rect, .. }),
        ] if *target_rect == rect
    ));
}

#[test]
fn composite_labels_follow_their_layer() {
    let packet =
        ComposedScene::world_with_ui_overlay("World", "world", "UI", UiLayerStyle::Physical, "ui")
            .into_frame_packet();
    match &packet.items()[1] {
        FramePacketItem::Effect(e) => {
            assert_eq!(e.label, "World Composite");
            assert_eq!(e.source, FrameTarget::Offscreen("world".to_string()));
            assert_eq!(e.clear_color, Some(ClearColor::black()));
        }
        _ => panic!("expected the world composite"),
    }
    match &packet.items()[3] {
        FramePacketItem::Effect(e) => {
            assert_eq!(e.label, "UI Composite");
            assert_eq!(e.source, FrameTarget::Offscreen("ui".to_string()));
            assert_eq!(e.clear_color, None);
        }
        _ => panic!("expected the UI composite"),
    }
}

#[test]
fn frame_targets_are_collected_once_in_first_use_order() {
    let mut scene = ComposedScene::new();
    scene.add_fullscreen_world_view("World", "world");
    scene.add_fullscreen_ui_overlay("UI", UiLayerStyle::Flat, "ui");
    scene.add_embedded_world_view("Preview", "world", NormalizedRect::fullscreen());
    let mut packet = scene.into_frame_packet();
    packet.push_effect(EffectPacket::composite(
        "Blur",
        FrameTarget::Offscreen("blur_src".into()),
        FrameTarget::Offscreen("blur_dst".into()),
    ));
    packet.push_present(PresentPacket::new());
    let names = collect_frame_targets(&packet.compile());
    assert_eq!(names, vec!["world", "ui", "blur_dst", "blur_src"]);

    let plain = FramePacket::for_demo(DemoType::Ui2D, "Flat");
    assert!(collect_frame_targets(&plain.compile()).is_empty());
}

#[test]
fn frame_target_plan_keeps_needed_and_creates_missing() {
    let existing = vec!["world".to_string(), "stale".to_string(), "ui".to_string()];
    let required = vec!["ui".to_string(), "preview".to_string(), "world".to_string(), "blur".to_string()];
    let (keep, create) = plan_frame_targets(&existing, &required);
    assert_eq!(keep, vec!["world", "ui"]);
    assert_eq!(create, vec!["preview", "blur"]);
    let (keep, create) = plan_frame_targets(&Vec::new(), &required);
    assert!(keep.is_empty());
    assert_eq!(create, required);
}
