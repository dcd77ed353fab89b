use raybox::control::{
    apply_list_item_command, demo_for_key, invalid_theme_message, parse_control_keycode,
    parse_list_filter, plan_control_command, press_key_plan, ControlCommand, ControlErrorCode,
    ControlPlan, DemoCapabilities, DemoId, KeyCode, PressKeyPlan,
};
use raybox::demo_core::ListFilter;
use raybox::input::OverlayMode;
use raybox::retained::SceneMode;
use raybox::todomvc_common::TodoMvcRetainedState;

fn caps(list: bool) -> DemoCapabilities {
    DemoCapabilities {
        list_commands: list,
        named_scroll: false,
        theme_options: vec![],
        shader_name: None,
        hot_reload: false,
    }
}

#[test]
fn key_names_parse() {
    assert_eq!(parse_control_keycode("7"), Some(KeyCode::Digit(7)));
    assert_eq!(parse_control_keycode("b"), Some(KeyCode::Letter(1)));
    assert_eq!(parse_control_keycode("Z"), Some(KeyCode::Letter(25)));
    assert_eq!(parse_control_keycode("-"), Some(KeyCode::Minus));
    assert_eq!(parse_control_keycode("="), Some(KeyCode::Equal));
    assert_eq!(parse_control_keycode("Up"), Some(KeyCode::ArrowUp));
    assert_eq!(parse_control_keycode("RIGHT"), Some(KeyCode::ArrowRight));
    assert_eq!(parse_control_keycode("uP"), None);
    assert_eq!(parse_control_keycode("?"), None);
    assert_eq!(parse_control_keycode(""), None);
}

#[test]
fn demo_keys_select_demos() {
    assert_eq!(demo_for_key(KeyCode::Digit(0)), Some(DemoId::Empty));
    assert_eq!(demo_for_key(KeyCode::Digit(7)), Some(DemoId::TodoMvc));
    assert_eq!(demo_for_key(KeyCode::Minus), Some(DemoId::RetainedUiPhysical));
    assert_eq!(demo_for_key(KeyCode::Equal), Some(DemoId::TextPhysical));
    assert_eq!(demo_for_key(KeyCode::Letter(21)), Some(DemoId::MixedUiWorld));
    assert_eq!(demo_for_key(KeyCode::Letter(0)), None);
    assert_eq!(DemoId::from_u8(12), Some(DemoId::MixedUiWorld));
    assert_eq!(DemoId::from_u8(13), None);
    assert_eq!(DemoId::Objects.number(), 1);
}

#[test]
fn pressed_keys_go_to_runner_or_demo() {
    assert_eq!(press_key_plan("K"), PressKeyPlan::ToggleKeybindings);
    assert_eq!(press_key_plan("f"), PressKeyPlan::ToggleOverlayApp);
    assert_eq!(press_key_plan("G"), PressKeyPlan::ToggleOverlayFull);
    assert_eq!(press_key_plan("r"), PressKeyPlan::ResetRoll);
    assert_eq!(press_key_plan("T"), PressKeyPlan::ResetCamera);
    assert_eq!(press_key_plan("n"), PressKeyPlan::DemoKey(KeyCode::Letter(13)));
    assert_eq!(press_key_plan("left"), PressKeyPlan::DemoKey(KeyCode::ArrowLeft));
    assert_eq!(press_key_plan("tab"), PressKeyPlan::Ignore);
}

#[test]
fn list_filters_parse_in_any_ascii_case() {
    assert_eq!(parse_list_filter("Completed"), Some(ListFilter::Completed));
    assert_eq!(parse_list_filter("ALL"), Some(ListFilter::All));
    assert_eq!(parse_list_filter("active"), Some(ListFilter::Active));
    assert_eq!(parse_list_filter("done"), None);
}

#[test]
fn control_commands_are_planned_by_capability() {
    match plan_control_command(ControlCommand::SwitchDemo { id: 7 }, &caps(false)) {
        ControlPlan::SwitchDemo(d) => assert_eq!(d, DemoId::TodoMvc),
        _ => panic!("expected a switch"),
    }
    match plan_control_command(ControlCommand::SwitchDemo { id: 40 }, &caps(false)) {
        ControlPlan::Refuse(code, m) => {
            assert_eq!(code, ControlErrorCode::InvalidDemoId);
            assert_eq!(m, "Invalid demo ID: 40");
        }
        _ => panic!("expected a refusal"),
    }
    match plan_control_command(ControlCommand::SetListFilter { filter: "Active".to_string() }, &caps(true)) {
        ControlPlan::SetListFilter(f) => assert_eq!(f, ListFilter::Active),
        _ => panic!("expected a filter"),
    }
    match plan_control_command(ControlCommand::SetListFilter { filter: "odd".to_string() }, &caps(true)) {
        ControlPlan::Refuse(_, m) => assert_eq!(m, "Invalid list filter: odd. Valid: all, active, completed"),
        _ => panic!("expected a refusal"),
    }
    match plan_control_command(
        ControlCommand::SetListItem { index: 1, completed: None, label: None, toggle: true },
        &caps(false),
    ) {
        ControlPlan::Refuse(_, m) => assert_eq!(m, "Current demo does not support list item commands"),
        _ => panic!("expected a refusal"),
    }
    match plan_control_command(ControlCommand::ToggleOverlay { mode: "full".to_string() }, &caps(false)) {
        ControlPlan::SetOverlay(m) => assert_eq!(m, Some(OverlayMode::Full)),
        _ => panic!("expected an overlay change"),
    }
    match plan_control_command(ControlCommand::ReloadShaders, &caps(false)) {
        ControlPlan::Message(m) => assert_eq!(m, "Shader reload requires hot-reload feature"),
        _ => panic!("expected a message"),
    }
    match plan_control_command(
        ControlCommand::SetTheme { theme: "x".to_string(), dark_mode: None },
        &caps(false),
    ) {
        ControlPlan::Refuse(code, m) => {
            assert_eq!(code, ControlErrorCode::InvalidCommand);
            assert_eq!(m, "Current demo does not support named themes");
        }
        _ => panic!("expected a refusal"),
    }
    assert!(matches!(plan_control_command(ControlCommand::Ping, &caps(false)), ControlPlan::Pong));
}

#[test]
fn invalid_theme_lists_valid_names() {
    let options = vec!["classic2d".to_string(), "professional".to_string()];
    assert_eq!(invalid_theme_message("x", &options), "Invalid theme: x. Valid: classic2d, professional");
}

#[test]
fn list_item_command_applies_steps_in_order() {
    let mut state = TodoMvcRetainedState::new(SceneMode::Ui2D, 700, 700);
    assert!(apply_list_item_command(&mut state, 0, Some(false), Some("Read the docs"), true));
    let item = state.retained_scene().item(0).unwrap();
    assert!(!item.completed);
    assert_eq!(item.label_text, "Read the docs");
    assert!(!apply_list_item_command(&mut state, 0, Some(false), Some("Read the docs"), false));
    assert!(!apply_list_item_command(&mut state, 9, Some(true), None, true));
}
