use raybox::control::{DemoId, KeyCode};
use raybox::demo_core::DemoType;
use raybox::input::ControlKey;
use raybox::runner::{
    control_key, has_active_interaction, plan_about_to_wait, plan_key_event, IdleWait,
    RedrawSignals, RunnerAction,
};

const KEY_W: KeyCode = KeyCode::Letter(22);
const KEY_R: KeyCode = KeyCode::Letter(17);
const KEY_K: KeyCode = KeyCode::Letter(10);
const KEY_V: KeyCode = KeyCode::Letter(21);

#[test]
fn tab_pauses_and_resumes_keyboard() {
    let (paused, actions) = plan_key_event(false, true, DemoType::World3D, KeyCode::Tab, true);
    assert!(paused);
    assert_eq!(actions, vec![RunnerAction::ReleaseCaptureAndKeys, RunnerAction::RequestRedraw]);
    let (paused, actions) = plan_key_event(paused, false, DemoType::World3D, KeyCode::Tab, true);
    assert!(!paused);
    assert_eq!(actions, vec![RunnerAction::RequestRedraw]);
}

#[test]
fn paused_keyboard_only_exits_on_escape() {
    let (paused, actions) = plan_key_event(true, false, DemoType::Ui2D, KeyCode::Escape, true);
    assert!(paused);
    assert_eq!(actions, vec![RunnerAction::Exit]);
    let (_, actions) = plan_key_event(true, false, DemoType::Ui2D, KeyCode::Digit(3), true);
    assert!(actions.is_empty());
    let (_, actions) = plan_key_event(true, false, DemoType::Ui2D, KeyCode::Escape, false);
    assert!(actions.is_empty());
}

#[test]
fn camera_demo_key_presses_go_through_input_actions() {
    let (_, actions) = plan_key_event(false, true, DemoType::World3D, KeyCode::Escape, true);
    assert_eq!(
        actions,
        vec![
            RunnerAction::HoldCameraKey(KeyCode::Escape),
            RunnerAction::ToggleCapture,
            RunnerAction::ForwardToDemo(KeyCode::Escape),
            RunnerAction::HoldViewKey(KeyCode::Escape),
            RunnerAction::RequestRedraw,
        ]
    );
    let (_, actions) = plan_key_event(false, false, DemoType::UiPhysical, KEY_R, true);
    assert_eq!(actions[1], RunnerAction::ResetRoll);
    let (_, actions) = plan_key_event(false, false, DemoType::World3D, KeyCode::Digit(7), true);
    assert_eq!(
        actions,
        vec![
            RunnerAction::HoldCameraKey(KeyCode::Digit(7)),
            RunnerAction::SwitchDemo(DemoId::TodoMvc),
            RunnerAction::RequestRedraw,
        ]
    );
}

#[test]
fn flat_demo_key_presses_use_view_actions() {
    let (_, actions) = plan_key_event(false, false, DemoType::Ui2D, KEY_R, true);
    assert_eq!(
        actions,
        vec![
            RunnerAction::Reset2dRotation,
            RunnerAction::ForwardToDemo(KEY_R),
            RunnerAction::HoldViewKey(KEY_R),
            RunnerAction::RequestRedraw,
        ]
    );
    let (_, actions) = plan_key_event(false, false, DemoType::Ui2D, KEY_K, true);
    assert_eq!(actions[0], RunnerAction::ToggleKeybindings);
    let (_, actions) = plan_key_event(false, false, DemoType::Ui2D, KEY_V, true);
    assert_eq!(actions, vec![RunnerAction::SwitchDemo(DemoId::MixedUiWorld), RunnerAction::RequestRedraw]);
}

#[test]
fn key_releases_forget_held_keys() {
    let (_, actions) = plan_key_event(false, false, DemoType::World3D, KEY_W, false);
    assert_eq!(
        actions,
        vec![
            RunnerAction::ReleaseCameraKey(KEY_W),
            RunnerAction::ReleaseViewKey(KEY_W),
            RunnerAction::RequestRedraw,
        ]
    );
    let (_, actions) = plan_key_event(false, false, DemoType::Ui2D, KEY_W, false);
    assert_eq!(actions, vec![RunnerAction::ReleaseViewKey(KEY_W), RunnerAction::RequestRedraw]);
}

#[test]
fn control_keys_map_to_special_actions() {
    assert_eq!(control_key(KeyCode::Letter(5)), ControlKey::KeyF);
    assert_eq!(control_key(KeyCode::Home), ControlKey::Home);
    assert_eq!(control_key(KeyCode::Letter(1)), ControlKey::Other);
}

#[test]
fn held_motion_keys_count_per_demo_type() {
    assert!(has_active_interaction(DemoType::World3D, &[KeyCode::Space], &[]));
    assert!(!has_active_interaction(DemoType::World3D, &[KeyCode::ArrowUp], &[KEY_W]));
    assert!(has_active_interaction(DemoType::Ui2D, &[], &[KeyCode::ArrowDown]));
    assert!(!has_active_interaction(DemoType::Ui2D, &[KEY_W], &[KeyCode::Space]));
    assert!(has_active_interaction(DemoType::UiPhysical, &[KeyCode::Letter(1), KeyCode::ControlRight], &[]));
}

#[test]
fn idle_plan_keeps_frames_coming_while_steered() {
    let quiet = RedrawSignals {
        needs_redraw: false,
        has_pending_control: false,
        wants_continuous_redraw: false,
        has_active_interaction: false,
        demo_needs_redraw: false,
    };
    let plan = plan_about_to_wait(false, quiet);
    assert!(!plan.request_redraw);
    assert_eq!(plan.wait, IdleWait::UntilEvent);
    assert!(!plan.reset_frame_timing);

    let steering = RedrawSignals { has_active_interaction: true, ..quiet };
    let plan = plan_about_to_wait(false, steering);
    assert!(plan.request_redraw && plan.reset_frame_timing && plan.was_continuous_redraw_active);
    assert_eq!(plan.wait, IdleWait::UntilNextFrame);
    let plan = plan_about_to_wait(true, steering);
    assert!(!plan.reset_frame_timing);

    let control = RedrawSignals { has_pending_control: true, ..quiet };
    let plan = plan_about_to_wait(true, control);
    assert!(plan.request_redraw);
    assert_eq!(plan.wait, IdleWait::UntilEvent);
    assert!(!plan.was_continuous_redraw_active);
}
