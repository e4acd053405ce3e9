//! Mode mapping for HVAC operating states.
//!
//! The native five-value mode is projected onto two independent external
//! scales: a "current operating state" (0 inactive, 1 idle, 2 heating,
//! 3 cooling) and a "target operating state" (0 auto, 1 heat, 2 cool).

use vstd::prelude::*;
use crate::types::Mode;

verus! {

/// The current-state projection of a mode. The auto mode folds to 0: this
/// projection does not reflect actual heating or cooling activity.
pub open spec fn spec_to_current_state(mode: Option<Mode>) -> u8 {
    match mode {
        Some(Mode::Fan) => 0,
        Some(Mode::Dehumidify) => 1,
        Some(Mode::Heating) => 2,
        Some(Mode::Cooling) => 3,
        _ => 0,
    }
}

/// Convert a mode to the current operating state scale.
pub fn to_current_state(mode: Option<Mode>) -> (r: u8)
    ensures
        r == spec_to_current_state(mode),
{
    match mode {
        Some(Mode::Fan) => 0,
        Some(Mode::Dehumidify) => 1,
        Some(Mode::Heating) => 2,
        Some(Mode::Cooling) => 3,
        _ => 0,
    }
}

/// The target-state projection of a mode. Fan and dehumidify modes have no
/// equivalent on this scale.
pub open spec fn spec_to_target_state(mode: Option<Mode>) -> Option<u8> {
    match mode {
        Some(Mode::Auto) => Some(0u8),
        Some(Mode::Heating) => Some(1u8),
        Some(Mode::Cooling) => Some(2u8),
        _ => None,
    }
}

/// Convert a mode to the target operating state scale.
pub fn to_target_state(mode: Option<Mode>) -> (r: Option<u8>)
    ensures
        r == spec_to_target_state(mode),
{
    match mode {
        Some(Mode::Auto) => Some(0),
        Some(Mode::Heating) => Some(1),
        Some(Mode::Cooling) => Some(2),
        _ => None,
    }
}

/// The mode a target operating state maps back to.
pub open spec fn spec_from_target_state(state: u8) -> Option<Mode> {
    if state == 0 {
        Some(Mode::Auto)
    } else if state == 1 {
        Some(Mode::Heating)
    } else if state == 2 {
        Some(Mode::Cooling)
    } else {
        None
    }
}

/// Convert a target operating state back to a mode.
pub fn from_target_state(state: u8) -> (r: Option<Mode>)
    ensures
        r == spec_from_target_state(state),
{
    if state == 0 {
        Some(Mode::Auto)
    } else if state == 1 {
        Some(Mode::Heating)
    } else if state == 2 {
        Some(Mode::Cooling)
    } else {
        None
    }
}

/// Law: the target-state projection round-trips. Every state on the target
/// scale maps to a mode that projects back to the same state, and every
/// mode on the scale survives the reverse trip.
pub proof fn lemma_target_state_roundtrip(state: u8, mode: Mode)
    ensures
        state <= 2 ==> spec_to_target_state(spec_from_target_state(state)) == Some(state),
        mode == Mode::Auto || mode == Mode::Heating || mode == Mode::Cooling
            ==> spec_from_target_state(spec_to_target_state(Some(mode))->0) == Some(mode),
{
}

} // verus!
