use raybox::ui_physical_theme::{
    canonical_dark_mode, physical_theme_options, text_colors, ThemeId, UiPhysicalThemeState,
};

#[test]
fn theme_names_parse_in_any_case() {
    assert_eq!(ThemeId::from_str("Glassmorphism"), Some(ThemeId::Glassmorphism));
    assert_eq!(ThemeId::from_str("NEUMORPHISM"), Some(ThemeId::Neumorphism));
    assert_eq!(ThemeId::from_str("classic2d"), Some(ThemeId::Classic2D));
    assert_eq!(ThemeId::from_str("material"), None);
    assert_eq!(ThemeId::from_lowercase_name("Professional"), None);
    assert_eq!(ThemeId::Neobrutalism.name(), "Neobrutalism");
}

#[test]
fn themes_cycle_through_all_five() {
    let mut theme = ThemeId::Classic2D;
    let mut seen = Vec::new();
    for _ in 0..5 {
        seen.push(theme);
        theme = theme.next();
    }
    assert_eq!(theme, ThemeId::Classic2D);
    assert_eq!(
        seen,
        vec![
            ThemeId::Classic2D,
            ThemeId::Professional,
            ThemeId::Neobrutalism,
            ThemeId::Glassmorphism,
            ThemeId::Neumorphism
        ]
    );
    assert_eq!(physical_theme_options().len(), 5);
    for name in physical_theme_options() {
        assert!(ThemeId::from_str(name).is_some());
    }
}

#[test]
fn classic_theme_has_no_dark_mode() {
    assert!(!canonical_dark_mode(ThemeId::Classic2D, true));
    assert!(canonical_dark_mode(ThemeId::Glassmorphism, true));
    assert_eq!(text_colors(ThemeId::Classic2D, true), text_colors(ThemeId::Classic2D, false));
    assert_eq!(text_colors(ThemeId::Classic2D, false).heading, [184, 63, 69]);
    assert_eq!(text_colors(ThemeId::Glassmorphism, true).heading, [140, 165, 220]);
    assert_eq!(text_colors(ThemeId::Neumorphism, false).body, [40, 40, 42]);
    assert_eq!(text_colors(ThemeId::Professional, false), text_colors(ThemeId::Classic2D, false));
}

#[test]
fn theme_state_tracks_visual_changes() {
    let mut state = UiPhysicalThemeState::new(ThemeId::Classic2D, true);
    assert!(!state.dark_mode());
    assert!(!state.is_dirty());
    state.set_theme(ThemeId::Classic2D);
    assert!(!state.is_dirty());
    state.toggle_dark_mode();
    assert!(!state.dark_mode());
    assert!(state.is_dirty());
    state.clear_dirty();
    state.cycle_theme();
    assert_eq!(state.current_theme(), ThemeId::Professional);
    assert!(state.is_dirty());
    state.clear_dirty();
    state.set_dark_mode(true);
    assert!(state.dark_mode());
    assert!(state.is_dirty());
    assert_eq!(state.text_colors().heading, [220, 100, 105]);
}

#[test]
fn named_theme_selection_reports_name_and_mode() {
    let mut state = UiPhysicalThemeState::new(ThemeId::Professional, false);
    assert_eq!(state.set_named_theme("glassmorphism", Some(true)), Some(("Glassmorphism", true)));
    assert_eq!(state.current_theme(), ThemeId::Glassmorphism);
    assert_eq!(state.set_named_theme("Classic2D", None), Some(("Classic2D", false)));
    state.clear_dirty();
    assert_eq!(state.set_named_theme("unknown", Some(true)), None);
    assert!(!state.is_dirty());
    assert_eq!(state.current_theme(), ThemeId::Classic2D);
}

#[test]
fn theme_keys_cycle_theme_and_toggle_dark_mode() {
    let mut state = raybox::ui_physical_theme::UiPhysicalThemeState::new(ThemeId::Professional, false);
    assert!(state.handle_theme_key(raybox::control::KeyCode::Letter(12)));
    assert!(state.dark_mode());
    assert!(state.is_dirty());
    assert!(state.handle_theme_key(raybox::control::KeyCode::Letter(13)));
    assert_eq!(state.current_theme(), ThemeId::Neobrutalism);
    assert!(state.dark_mode());
    assert!(!state.handle_theme_key(raybox::control::KeyCode::Letter(14)));
    assert_eq!(state.current_theme(), ThemeId::Neobrutalism);
}
