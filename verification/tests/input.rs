use raybox::input::{action_for_key, demo_title, ControlKey, InputAction, OverlayMode};

#[test]
fn escape_releases_capture_before_exiting() {
    assert_eq!(action_for_key(ControlKey::Escape, true), Some(InputAction::ToggleCapture));
    assert_eq!(action_for_key(ControlKey::Escape, false), Some(InputAction::Exit));
    assert_eq!(action_for_key(ControlKey::Home, false), Some(InputAction::ResetCamera));
    assert_eq!(action_for_key(ControlKey::Other, true), None);
}

#[test]
fn overlay_keys_toggle() {
    assert_eq!(OverlayMode::Off.toggle_overlay_app(), OverlayMode::App);
    assert_eq!(OverlayMode::App.toggle_overlay_app(), OverlayMode::Off);
    assert_eq!(OverlayMode::Full.toggle_overlay_app(), OverlayMode::App);
    assert_eq!(OverlayMode::App.toggle_overlay_full(), OverlayMode::Full);
    assert_eq!(OverlayMode::Full.toggle_overlay_full(), OverlayMode::Off);
    assert_eq!(OverlayMode::Full.name(), "full");
}

#[test]
fn demo_titles_list_the_controls() {
    assert_eq!(
        demo_title(3, "Towers"),
        "Demo 3: Towers | WASD+Space/Ctrl, Q/E, Mouse, Tab, Scroll, R/T, F/G, Esc"
    );
    assert!(demo_title(12, "Mixed").starts_with("Demo 12: Mixed | "));
}
