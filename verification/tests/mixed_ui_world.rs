use raybox::control::KeyCode;
use raybox::frame_graph::{
    collect_frame_targets, ClearColor, CompositeMode, FramePacketItem, FrameTarget, NormalizedRect,
    UiLayerStyle,
};
use raybox::mixed_ui_world::{
    mixed_preview_rect, ActiveUi, MixedUiWorldMode, MixedUiWorldState, OverlayUiMode,
};
use raybox::ui_physical_theme::ThemeId;

const KEY_B: KeyCode = KeyCode::Letter(1);
const KEY_M: KeyCode = KeyCode::Letter(12);
const KEY_N: KeyCode = KeyCode::Letter(13);
const KEY_P: KeyCode = KeyCode::Letter(15);

#[test]
fn mixed_demo_starts_with_world_under_flat_overlay() {
    let state = MixedUiWorldState::new();
    assert_eq!(state.mode, MixedUiWorldMode::WorldWithUiOverlay);
    assert_eq!(state.overlay_ui_mode, OverlayUiMode::Flat);
    assert_eq!(state.active_ui(), ActiveUi::FlatOverlay);
    assert_eq!(state.active_overlay_style(), UiLayerStyle::Flat);
    assert_eq!(state.active_overlay_target(), "mixed_ui");
    assert_eq!(state.overlay_theme.current_theme(), ThemeId::Classic2D);
    assert!(!state.overlay_theme.dark_mode());
}

#[test]
fn mixed_world_packet_draws_overlay_over_world() {
    let mut state = MixedUiWorldState::new();
    assert!(state.handle_key_pressed(KEY_P));
    let packet = state.build_frame_packet();
    let items = packet.items();
    assert_eq!(items.len(), 4);
    match &items[0] {
        FramePacketItem::WorldView(w) => {
            assert_eq!(w.label, "Mixed World");
            assert_eq!(w.target, FrameTarget::Offscreen("mixed_world".to_string()));
        }
        _ => panic!("world first"),
    }
    match &items[2] {
        FramePacketItem::UiLayer(u) => {
            assert_eq!(u.style, UiLayerStyle::Physical);
            assert_eq!(u.target, FrameTarget::Offscreen("mixed_ui_physical".to_string()));
            assert_eq!(u.clear_color, Some(ClearColor::transparent()));
        }
        _ => panic!("overlay third"),
    }
    match &items[3] {
        FramePacketItem::Effect(e) => assert_eq!(e.composite_mode, CompositeMode::Over),
        _ => panic!("overlay composite last"),
    }
    let names = collect_frame_targets(&packet.compile());
    assert_eq!(names, vec!["mixed_world", "mixed_ui_physical"]);
}

#[test]
fn mixed_embedded_packet_puts_world_in_preview_rect() {
    let mut state = MixedUiWorldState::new();
    assert!(state.handle_key_pressed(KEY_B));
    assert_eq!(state.mode, MixedUiWorldMode::UiWithEmbeddedWorld);
    assert_eq!(state.active_ui(), ActiveUi::Embedded);
    let packet = state.build_frame_packet();
    match &packet.items()[3] {
        FramePacketItem::Effect(e) => {
            assert_eq!(e.label, "Embedded World Composite");
            assert_eq!(e.target_rect, NormalizedRect::new([6600, 1200], [2400, 2400]));
            assert_eq!(e.target_rect, mixed_preview_rect());
        }
        _ => panic!("preview composite last"),
    }
    assert_eq!(state.ui_layer_host(UiLayerStyle::Physical), ActiveUi::Embedded);
}

#[test]
fn mixed_theme_keys_only_act_on_physical_overlay_in_front() {
    let mut state = MixedUiWorldState::new();
    assert!(!state.handle_key_pressed(KEY_N));
    assert!(!state.handle_key_pressed(KEY_M));
    assert_eq!(state.overlay_theme.current_theme(), ThemeId::Classic2D);

    assert!(state.handle_key_pressed(KEY_P));
    assert!(state.handle_key_pressed(KEY_N));
    assert_ne!(state.overlay_theme.current_theme(), ThemeId::Classic2D);
    assert!(state.overlay_theme.is_dirty());
    assert!(state.handle_key_pressed(KEY_M));
    assert!(state.overlay_theme.dark_mode());

    assert!(state.handle_key_pressed(KEY_B));
    let theme = state.overlay_theme.current_theme();
    assert!(!state.handle_key_pressed(KEY_N));
    assert_eq!(state.overlay_theme.current_theme(), theme);
    assert!(!state.handle_key_pressed(KeyCode::Digit(3)));
}

#[test]
fn mixed_toggles_twice_restore_state() {
    let mut state = MixedUiWorldState::new();
    state.toggle_mode();
    state.toggle_mode();
    state.toggle_overlay_ui_mode();
    state.toggle_overlay_ui_mode();
    assert_eq!(state.mode, MixedUiWorldMode::WorldWithUiOverlay);
    assert_eq!(state.overlay_ui_mode, OverlayUiMode::Flat);
}

#[test]
fn mixed_redraw_follows_active_ui() {
    let mut state = MixedUiWorldState::new();
    assert!(state.needs_redraw(true, false, false, false));
    assert!(state.needs_redraw(false, true, false, false));
    assert!(!state.needs_redraw(false, false, true, true));
    state.toggle_overlay_ui_mode();
    assert!(state.needs_redraw(false, false, true, false));
    assert!(!state.needs_redraw(false, true, false, true));
    state.overlay_theme.cycle_theme();
    assert!(state.needs_redraw(false, false, false, false));
    state.toggle_mode();
    assert!(state.needs_redraw(false, false, false, true));
    assert!(!state.needs_redraw(false, true, true, false));
}
