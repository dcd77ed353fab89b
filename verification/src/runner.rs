//! The demo runner's decisions: what a key event does, which held keys
//! keep frames coming, and what happens each time the event loop is about
//! to wait. The window, the GPU and the demos carry out the actions.
use crate::control::{demo_for_key, demo_for_key_spec, DemoId, KeyCode};
use crate::demo_core::DemoType;
use crate::input::{action_for_key, key_action, ControlKey, InputAction};
use crate::text_util::{decimal, decimal_string};
use vstd::prelude::*;

verus! {

/// Something the runner does in answer to an event.
#[derive(Clone, Copy, Debug, PartialEq, Eq, Structural)]
pub enum RunnerAction {
    Exit,
    /// Release the mouse and forget every held key.
    ReleaseCaptureAndKeys,
    ToggleCapture,
    ToggleOverlayApp,
    ToggleOverlayFull,
    ResetRoll,
    ResetCamera,
    ToggleKeybindings,
    Reset2dRotation,
    Reset2dAll,
    /// Record that the key is held, for the fly camera.
    HoldCameraKey(KeyCode),
    /// Record that the key is no longer held, for the fly camera.
    ReleaseCameraKey(KeyCode),
    SwitchDemo(DemoId),
    /// Let the current demo handle the key.
    ForwardToDemo(KeyCode),
    /// Record that the key is held, for a flat view.
    HoldViewKey(KeyCode),
    /// Record that the key is no longer held, for a flat view.
    ReleaseViewKey(KeyCode),
    RequestRedraw,
}

/// The special-action key that `code` is, for the fly camera's handler.
pub open spec fn control_key_of(code: KeyCode) -> ControlKey {
    match code {
        KeyCode::Escape => ControlKey::Escape,
        KeyCode::Tab => ControlKey::Tab,
        KeyCode::Home => ControlKey::Home,
        KeyCode::Letter(l) => if l == 5 {
            ControlKey::KeyF
        } else if l == 6 {
            ControlKey::KeyG
        } else if l == 17 {
            ControlKey::KeyR
        } else if l == 19 {
            ControlKey::KeyT
        } else {
            ControlKey::Other
        },
        _ => ControlKey::Other,
    }
}

pub fn control_key(code: KeyCode) -> (r: ControlKey)
    ensures
        r == control_key_of(code),
{
    match code {
        KeyCode::Escape => ControlKey::Escape,
        KeyCode::Tab => ControlKey::Tab,
        KeyCode::Home => ControlKey::Home,
        KeyCode::Letter(l) => if l == 5 {
            ControlKey::KeyF
        } else if l == 6 {
            ControlKey::KeyG
        } else if l == 17 {
            ControlKey::KeyR
        } else if l == 19 {
            ControlKey::KeyT
        } else {
            ControlKey::Other
        },
        _ => ControlKey::Other,
    }
}

pub open spec fn runner_action_of(a: InputAction) -> RunnerAction {
    match a {
        InputAction::Exit => RunnerAction::Exit,
        InputAction::ToggleCapture => RunnerAction::ToggleCapture,
        InputAction::ToggleOverlayApp => RunnerAction::ToggleOverlayApp,
        InputAction::ToggleOverlayFull => RunnerAction::ToggleOverlayFull,
        InputAction::ResetRoll => RunnerAction::ResetRoll,
        InputAction::ResetCamera => RunnerAction::ResetCamera,
    }
}

/// The action of a flat-view key: R resets the rotation, T the whole view,
/// F and G toggle the overlays, K the key list.
pub open spec fn view_2d_key_action(code: KeyCode) -> Option<RunnerAction> {
    match code {
        KeyCode::Letter(l) => if l == 17 {
            Some(RunnerAction::Reset2dRotation)
        } else if l == 19 {
            Some(RunnerAction::Reset2dAll)
        } else if l == 5 {
            Some(RunnerAction::ToggleOverlayApp)
        } else if l == 6 {
            Some(RunnerAction::ToggleOverlayFull)
        } else if l == 10 {
            Some(RunnerAction::ToggleKeybindings)
        } else {
            None
        },
        _ => None,
    }
}

pub open spec fn option_seq(a: Option<RunnerAction>) -> Seq<RunnerAction> {
    match a {
        Some(x) => seq![x],
        None => Seq::empty(),
    }
}

/// A press while the keyboard is active: the camera or flat-view handling,
/// then a demo switch for a demo key or else the demo's own handling, then
/// a redraw.
pub open spec fn pressed_key_actions(demo_type: DemoType, code: KeyCode, mouse_captured: bool) -> Seq<
    RunnerAction,
> {
    let front = if demo_type != DemoType::Ui2D {
        seq![RunnerAction::HoldCameraKey(code)] + option_seq(
            match key_action(control_key_of(code), mouse_captured) {
                Some(a) => Some(runner_action_of(a)),
                None => None,
            },
        )
    } else {
        option_seq(view_2d_key_action(code))
    };
    let demo_part = match demo_for_key_spec(code) {
        Some(id) => seq![RunnerAction::SwitchDemo(id)],
        None => seq![RunnerAction::ForwardToDemo(code), RunnerAction::HoldViewKey(code)],
    };
    front + demo_part + seq![RunnerAction::RequestRedraw]
}

/// A key event: Tab (pressed) pauses or resumes the keyboard; while paused
/// only Escape does anything, and it exits; otherwise presses and releases
/// are handled as the demo type asks. The result is the next paused state
/// and the actions, in order.
pub open spec fn key_event_plan(
    keyboard_paused: bool,
    mouse_captured: bool,
    demo_type: DemoType,
    code: KeyCode,
    pressed: bool,
) -> (bool, Seq<RunnerAction>) {
    if code == KeyCode::Tab && pressed {
        (
            !keyboard_paused,
            if !keyboard_paused {
                seq![RunnerAction::ReleaseCaptureAndKeys, RunnerAction::RequestRedraw]
            } else {
                seq![RunnerAction::RequestRedraw]
            },
        )
    } else if keyboard_paused {
        (keyboard_paused, if code == KeyCode::Escape && pressed {
            seq![RunnerAction::Exit]
        } else {
            Seq::empty()
        })
    } else if pressed {
        (keyboard_paused, pressed_key_actions(demo_type, code, mouse_captured))
    } else {
        (
            keyboard_paused,
            (if demo_type != DemoType::Ui2D {
                seq![RunnerAction::ReleaseCameraKey(code)]
            } else {
                Seq::empty()
            }) + seq![RunnerAction::ReleaseViewKey(code), RunnerAction::RequestRedraw],
        )
    }
}

fn runner_action(a: InputAction) -> (r: RunnerAction)
    ensures
        r == runner_action_of(a),
{
    match a {
        InputAction::Exit => RunnerAction::Exit,
        InputAction::ToggleCapture => RunnerAction::ToggleCapture,
        InputAction::ToggleOverlayApp => RunnerAction::ToggleOverlayApp,
        InputAction::ToggleOverlayFull => RunnerAction::ToggleOverlayFull,
        InputAction::ResetRoll => RunnerAction::ResetRoll,
        InputAction::ResetCamera => RunnerAction::ResetCamera,
    }
}

fn view_2d_action(code: KeyCode) -> (r: Option<RunnerAction>)
    ensures
        r == view_2d_key_action(code),
{
    match code {
        KeyCode::Letter(l) => if l == 17 {
            Some(RunnerAction::Reset2dRotation)
        } else if l == 19 {
            Some(RunnerAction::Reset2dAll)
        } else if l == 5 {
            Some(RunnerAction::ToggleOverlayApp)
        } else if l == 6 {
            Some(RunnerAction::ToggleOverlayFull)
        } else if l == 10 {
            Some(RunnerAction::ToggleKeybindings)
        } else {
            None
        },
        _ => None,
    }
}

/// What a key event does: the next paused state of the keyboard and the
/// actions to carry out, in order.
pub fn plan_key_event(
    keyboard_paused: bool,
    mouse_captured: bool,
    demo_type: DemoType,
    code: KeyCode,
    pressed: bool,
) -> (r: (bool, Vec<RunnerAction>))
    ensures
        (r.0, r.1@) == key_event_plan(keyboard_paused, mouse_captured, demo_type, code, pressed),
{
    let mut actions: Vec<RunnerAction> = Vec::new();
    if code == KeyCode::Tab && pressed {
        if !keyboard_paused {
            actions.push(RunnerAction::ReleaseCaptureAndKeys);
        }
        actions.push(RunnerAction::RequestRedraw);
        proof {
            if !keyboard_paused {
                assert(actions@ =~= seq![RunnerAction::ReleaseCaptureAndKeys, RunnerAction::RequestRedraw]);
            } else {
                assert(actions@ =~= seq![RunnerAction::RequestRedraw]);
            }
        }
        return (!keyboard_paused, actions);
    }
    if keyboard_paused {
        if code == KeyCode::Escape && pressed {
            actions.push(RunnerAction::Exit);
            assert(actions@ =~= seq![RunnerAction::Exit]);
        }
        return (keyboard_paused, actions);
    }
    let uses_camera = demo_type.uses_camera_controls();
    if pressed {
        if uses_camera {
            actions.push(RunnerAction::HoldCameraKey(code));
            if let Some(a) = action_for_key(control_key(code), mouse_captured) {
                actions.push(runner_action(a));
            }
        } else {
            if let Some(a) = view_2d_action(code) {
                actions.push(a);
            }
        }
        let ghost front = actions@;
        match demo_for_key(code) {
            Some(id) => {
                actions.push(RunnerAction::SwitchDemo(id));
            },
            None => {
                actions.push(RunnerAction::ForwardToDemo(code));
                actions.push(RunnerAction::HoldViewKey(code));
            },
        }
        let ghost middle = actions@;
        actions.push(RunnerAction::RequestRedraw);
        proof {
            let demo_part = match demo_for_key_spec(code) {
                Some(id) => seq![RunnerAction::SwitchDemo(id)],
                None => seq![RunnerAction::ForwardToDemo(code), RunnerAction::HoldViewKey(code)],
            };
            let spec_front = if demo_type != DemoType::Ui2D {
                seq![RunnerAction::HoldCameraKey(code)] + option_seq(
                    match key_action(control_key_of(code), mouse_captured) {
                        Some(a) => Some(runner_action_of(a)),
                        None => None,
                    },
                )
            } else {
                option_seq(view_2d_key_action(code))
            };
            assert(front =~= spec_front);
            assert(middle =~= front + demo_part);
            assert(actions@ =~= front + demo_part + seq![RunnerAction::RequestRedraw]);
        }
        (keyboard_paused, actions)
    } else {
        if uses_camera {
            actions.push(RunnerAction::ReleaseCameraKey(code));
        }
        let ghost front = actions@;
        actions.push(RunnerAction::ReleaseViewKey(code));
        actions.push(RunnerAction::RequestRedraw);
        proof {
            assert(actions@ =~= front + seq![RunnerAction::ReleaseViewKey(code), RunnerAction::RequestRedraw]);
            if demo_type != DemoType::Ui2D {
                assert(front =~= seq![RunnerAction::ReleaseCameraKey(code)]);
            } else {
                assert(front =~= Seq::<RunnerAction>::empty());
            }
        }
        (keyboard_paused, actions)
    }
}

/// Pressing Tab twice leaves the keyboard as it was, and the actions it
/// asks for always include a redraw.
pub proof fn lemma_tab_twice_restores_pause(paused: bool, captured: bool, demo_type: DemoType)
    ensures
        key_event_plan(
            key_event_plan(paused, captured, demo_type, KeyCode::Tab, true).0,
            captured,
            demo_type,
            KeyCode::Tab,
            true,
        ).0 == paused,
        key_event_plan(paused, captured, demo_type, KeyCode::Tab, true).1.contains(RunnerAction::RequestRedraw),
{
    let s = key_event_plan(paused, captured, demo_type, KeyCode::Tab, true).1;
    assert(s[s.len() - 1] == RunnerAction::RequestRedraw);
}

/// While the keyboard is paused, every key but Tab does nothing, except
/// that a press of Escape exits.
pub proof fn lemma_paused_keyboard_only_exits(captured: bool, demo_type: DemoType, code: KeyCode, pressed: bool)
    requires
        !(code == KeyCode::Tab && pressed),
    ensures
        key_event_plan(true, captured, demo_type, code, pressed).0,
        key_event_plan(true, captured, demo_type, code, pressed).1 == (if code == KeyCode::Escape && pressed {
            seq![RunnerAction::Exit]
        } else {
            Seq::empty()
        }),
{
}

/// A press, with the keyboard active, in a flat view: R resets only the
/// rotation and T the whole view, each as the first action; F, G and K
/// toggle the application overlay, the full overlay and the key list, and
/// no other key has a flat-view action. In a 3D or physically lit view the
/// press is first held for the camera, then F toggles the application
/// overlay, G the full overlay, R resets the roll and T the camera.
pub proof fn lemma_view_keys(captured: bool, demo_type: DemoType, code: KeyCode)
    ensures
        key_event_plan(false, captured, DemoType::Ui2D, KeyCode::Letter(17), true).1[0] == RunnerAction::Reset2dRotation,
        key_event_plan(false, captured, DemoType::Ui2D, KeyCode::Letter(19), true).1[0] == RunnerAction::Reset2dAll,
        key_event_plan(false, captured, DemoType::Ui2D, KeyCode::Letter(5), true).1[0] == RunnerAction::ToggleOverlayApp,
        key_event_plan(false, captured, DemoType::Ui2D, KeyCode::Letter(6), true).1[0] == RunnerAction::ToggleOverlayFull,
        key_event_plan(false, captured, DemoType::Ui2D, KeyCode::Letter(10), true).1[0] == RunnerAction::ToggleKeybindings,
        code != KeyCode::Letter(17) && code != KeyCode::Letter(19) && code != KeyCode::Letter(5) && code
            != KeyCode::Letter(6) && code != KeyCode::Letter(10) ==> view_2d_key_action(code) is None,
        demo_type != DemoType::Ui2D ==> {
            &&& key_event_plan(false, captured, demo_type, KeyCode::Letter(5), true).1[0] == RunnerAction::HoldCameraKey(KeyCode::Letter(5))
            &&& key_event_plan(false, captured, demo_type, KeyCode::Letter(5), true).1[1] == RunnerAction::ToggleOverlayApp
            &&& key_event_plan(false, captured, demo_type, KeyCode::Letter(6), true).1[1] == RunnerAction::ToggleOverlayFull
            &&& key_event_plan(false, captured, demo_type, KeyCode::Letter(17), true).1[1] == RunnerAction::ResetRoll
            &&& key_event_plan(false, captured, demo_type, KeyCode::Letter(19), true).1[1] == RunnerAction::ResetCamera
        },
{
}

/// A held key keeps a 3D or physically lit view moving: W, A, S, D, Q, E,
/// Space and either Control key.
pub open spec fn is_camera_motion_key(k: KeyCode) -> bool {
    ||| k == KeyCode::Letter(22)
    ||| k == KeyCode::Letter(0)
    ||| k == KeyCode::Letter(18)
    ||| k == KeyCode::Letter(3)
    ||| k == KeyCode::Space
    ||| k == KeyCode::ControlLeft
    ||| k == KeyCode::ControlRight
    ||| k == KeyCode::Letter(16)
    ||| k == KeyCode::Letter(4)
}

/// A held key keeps a flat view moving: W, A, S, D, Q, E and the up and
/// down arrows.
pub open spec fn is_view_2d_motion_key(k: KeyCode) -> bool {
    ||| k == KeyCode::Letter(22)
    ||| k == KeyCode::Letter(0)
    ||| k == KeyCode::Letter(18)
    ||| k == KeyCode::Letter(3)
    ||| k == KeyCode::ArrowUp
    ||| k == KeyCode::ArrowDown
    ||| k == KeyCode::Letter(16)
    ||| k == KeyCode::Letter(4)
}

/// The demo is being steered: a flat demo by a held flat-view key, the
/// others by a held camera key.
pub open spec fn active_interaction(demo_type: DemoType, camera_keys: Seq<KeyCode>, view_keys: Seq<KeyCode>) -> bool {
    if demo_type == DemoType::Ui2D {
        exists|i: int| 0 <= i < view_keys.len() && #[trigger] is_view_2d_motion_key(view_keys[i])
    } else {
        exists|i: int| 0 <= i < camera_keys.len() && #[trigger] is_camera_motion_key(camera_keys[i])
    }
}

fn camera_motion_key(k: KeyCode) -> (r: bool)
    ensures
        r == is_camera_motion_key(k),
{
    match k {
        KeyCode::Letter(l) => l == 22 || l == 0 || l == 18 || l == 3 || l == 16 || l == 4,
        KeyCode::Space | KeyCode::ControlLeft | KeyCode::ControlRight => true,
        _ => false,
    }
}

fn view_2d_motion_key(k: KeyCode) -> (r: bool)
    ensures
        r == is_view_2d_motion_key(k),
{
    match k {
        KeyCode::Letter(l) => l == 22 || l == 0 || l == 18 || l == 3 || l == 16 || l == 4,
        KeyCode::ArrowUp | KeyCode::ArrowDown => true,
        _ => false,
    }
}

/// Whether the user is steering the demo with held keys: `camera_keys`
/// are the keys held for the fly camera, `view_keys` those held for a flat
/// view.
pub fn has_active_interaction(demo_type: DemoType, camera_keys: &[KeyCode], view_keys: &[KeyCode]) -> (r: bool)
    ensures
        r == active_interaction(demo_type, camera_keys@, view_keys@),
{
    let flat = demo_type == DemoType::Ui2D;
    let keys = if flat {
        view_keys
    } else {
        camera_keys
    };
    let mut i: usize = 0;
    while i < keys.len()
        invariant
            i <= keys@.len(),
            keys@ == (if flat {
                view_keys@
            } else {
                camera_keys@
            }),
            flat == (demo_type == DemoType::Ui2D),
            forall|k: int|
                0 <= k < i ==> !(if flat {
                    is_view_2d_motion_key(keys@[k])
                } else {
                    is_camera_motion_key(keys@[k])
                }),
        decreases keys@.len() - i,
    {
        let held = if flat {
            view_2d_motion_key(keys[i])
        } else {
            camera_motion_key(keys[i])
        };
        if held {
            return true;
        }
        i += 1;
    }
    proof {
        if flat {
            assert forall|k: int| 0 <= k < view_keys@.len() implies !is_view_2d_motion_key(#[trigger] view_keys@[k]) by {}
        } else {
            assert forall|k: int| 0 <= k < camera_keys@.len() implies !is_camera_motion_key(#[trigger] camera_keys@[k]) by {}
        }
    }
    false
}

/// How long the event loop may sleep.
#[derive(Clone, Copy, Debug, PartialEq, Eq, Structural)]
pub enum IdleWait {
    /// Until the next event.
    UntilEvent,
    /// At most one active frame time.
    UntilNextFrame,
}

/// What the runner reports when the event loop is about to wait.
#[derive(Clone, Copy, Debug, PartialEq, Eq, Structural)]
pub struct RedrawSignals {
    /// A change asked for a frame.
    pub needs_redraw: bool,
    /// Control commands are waiting.
    pub has_pending_control: bool,
    /// The demo animates on its own.
    pub wants_continuous_redraw: bool,
    /// Held keys steer the demo.
    pub has_active_interaction: bool,
    /// The demo has work pending.
    pub demo_needs_redraw: bool,
}

/// What to do before the event loop waits.
#[derive(Clone, Copy, Debug, PartialEq, Eq, Structural)]
pub struct IdlePlan {
    /// Restart the frame clock, so that the first steered frame does not
    /// jump.
    pub reset_frame_timing: bool,
    pub request_redraw: bool,
    pub wait: IdleWait,
    /// Whether held keys steered the demo, for the next time.
    pub was_continuous_redraw_active: bool,
}

/// Frames keep coming while the demo animates or is steered; a frame is
/// drawn when anything asks for one; the frame clock restarts when steering
/// begins.
pub fn plan_about_to_wait(was_continuous_redraw_active: bool, signals: RedrawSignals) -> (r: IdlePlan)
    ensures
        r.reset_frame_timing == (signals.has_active_interaction && !was_continuous_redraw_active),
        r.was_continuous_redraw_active == signals.has_active_interaction,
        r.request_redraw == (signals.needs_redraw || signals.has_pending_control || signals.wants_continuous_redraw
            || signals.has_active_interaction || signals.demo_needs_redraw),
        r.wait == (if signals.wants_continuous_redraw || signals.has_active_interaction {
            IdleWait::UntilNextFrame
        } else {
            IdleWait::UntilEvent
        }),
{
    let is_active = signals.has_active_interaction;
    let continuous = signals.wants_continuous_redraw || is_active;
    IdlePlan {
        reset_frame_timing: is_active && !was_continuous_redraw_active,
        request_redraw: signals.needs_redraw || signals.has_pending_control || continuous
            || signals.demo_needs_redraw,
        wait: if continuous {
            IdleWait::UntilNextFrame
        } else {
            IdleWait::UntilEvent
        },
        was_continuous_redraw_active: is_active,
    }
}

/// "Demo <number>: <name> | K: show keys".
pub open spec fn runner_title_text(demo_num: u8, name: Seq<char>) -> Seq<char> {
    "Demo "@ + decimal(demo_num as nat) + ": "@ + name + " | K: show keys"@
}

/// The runner's window title for the demo numbered `demo_num`.
pub fn runner_window_title(demo_num: u8, name: &str) -> (r: String)
    ensures
        r@ == runner_title_text(demo_num, name@),
{
    let mut title = String::from_str("Demo ");
    let number = decimal_string(demo_num as usize);
    title.append(number.as_str());
    title.append(": ");
    title.append(name);
    title.append(" | K: show keys");
    title
}

} // verus!
