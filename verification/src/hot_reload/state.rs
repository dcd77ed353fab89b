//! State kept across a hot reload.
use crate::input::OverlayMode;
use vstd::prelude::*;

verus! {

/// The overlay mode as it is saved across a reload.
#[derive(Debug, Clone, Copy, PartialEq, Eq, Structural)]
pub enum OverlayModeState {
    Off,
    App,
    Full,
}

pub open spec fn overlay_state_of(mode: OverlayMode) -> OverlayModeState {
    match mode {
        OverlayMode::Off => OverlayModeState::Off,
        OverlayMode::App => OverlayModeState::App,
        OverlayMode::Full => OverlayModeState::Full,
    }
}

pub open spec fn overlay_mode_of(state: OverlayModeState) -> OverlayMode {
    match state {
        OverlayModeState::Off => OverlayMode::Off,
        OverlayModeState::App => OverlayMode::App,
        OverlayModeState::Full => OverlayMode::Full,
    }
}

impl From<OverlayMode> for OverlayModeState {
    fn from(mode: OverlayMode) -> (r: Self) {
        match mode {
            OverlayMode::Off => OverlayModeState::Off,
            OverlayMode::App => OverlayModeState::App,
            OverlayMode::Full => OverlayModeState::Full,
        }
    }
}

impl vstd::std_specs::convert::FromSpecImpl<OverlayMode> for OverlayModeState {
    open spec fn obeys_from_spec() -> bool {
        true
    }

    open spec fn from_spec(mode: OverlayMode) -> Self {
        overlay_state_of(mode)
    }
}

impl From<OverlayModeState> for OverlayMode {
    fn from(state: OverlayModeState) -> (r: Self) {
        match state {
            OverlayModeState::Off => OverlayMode::Off,
            OverlayModeState::App => OverlayMode::App,
            OverlayModeState::Full => OverlayMode::Full,
        }
    }
}

impl vstd::std_specs::convert::FromSpecImpl<OverlayModeState> for OverlayMode {
    open spec fn obeys_from_spec() -> bool {
        true
    }

    open spec fn from_spec(state: OverlayModeState) -> Self {
        overlay_mode_of(state)
    }
}

/// Saving the overlay mode and restoring it gives the same mode back, and
/// the other way round.
pub proof fn lemma_overlay_mode_round_trip(mode: OverlayMode, state: OverlayModeState)
    ensures
        overlay_mode_of(overlay_state_of(mode)) == mode,
        overlay_state_of(overlay_mode_of(state)) == state,
{
}

/// The overlay mode saved for `mode`.
pub fn save_overlay_mode(mode: OverlayMode) -> (r: OverlayModeState)
    ensures
        r == overlay_state_of(mode),
{
    OverlayModeState::from(mode)
}

/// The overlay mode restored from `state`.
pub fn restore_overlay_mode(state: OverlayModeState) -> (r: OverlayMode)
    ensures
        r == overlay_mode_of(state),
{
    OverlayMode::from(state)
}

} // verus!
