//! The device state machine: power and mode, extracted from a status
//! snapshot, transitioned, and applied back.

use vstd::prelude::*;
use crate::codec::{Decimal, pow10};
use crate::status::{DaikinStatus, StatusView};
use crate::types::{DomainValue, Mode, spec_mode_code};

verus! {

/// The numeric value a power state writes: one for on, zero for off,
/// in units of 10^-8.
pub open spec fn spec_power_value_e8(p: PowerState) -> int {
    if p == PowerState::On {
        pow10(8) as int
    } else {
        0
    }
}

/// The device's power state.
#[derive(Clone, Copy, Debug, PartialEq, Eq, Structural)]
pub enum PowerState {
    Off,
    On,
}

impl PowerState {
    /// The power state a status reports: on from one upward, off below.
    pub fn from_status(status: &DaikinStatus) -> (r: Option<PowerState>)
        ensures
            r is Some <==> status@.power.numeric_readable(),
            r matches Some(p) ==> (p == PowerState::On <==> status@.power.numeric_value_e8()
                >= pow10(8)),
    {
        proof {
            crate::codec::lemma_pow10_le_15(8);
        }
        match status.power.get_numeric() {
            Some(v) => {
                if Decimal::new(1, 0).value_le(v) {
                    Some(PowerState::On)
                } else {
                    Some(PowerState::Off)
                }
            },
            None => None,
        }
    }

    /// The numeric value written for this power state.
    pub fn to_value(self) -> (r: Decimal)
        ensures
            r.wf(),
            self == PowerState::On ==> r.value_e8() == pow10(8),
            self == PowerState::Off ==> r.value_e8() == 0,
    {
        match self {
            PowerState::Off => Decimal::from_int(0),
            PowerState::On => Decimal::from_int(1),
        }
    }
}

/// Why a state transition could not be made.
#[derive(Clone, Copy, Debug, PartialEq, Eq, Structural)]
pub enum StateTransitionError {
    /// The requested mode value is invalid.
    InvalidMode,
    /// The current device state cannot be determined.
    UnknownCurrentState,
}

impl StateTransitionError {
    /// A short description of the error.
    pub fn message(&self) -> (r: &'static str)
        ensures
            *self == StateTransitionError::InvalidMode ==> r@ == "Invalid mode value"@,
            *self == StateTransitionError::UnknownCurrentState ==> r@
                == "Cannot determine current device state"@,
    {
        match self {
            StateTransitionError::InvalidMode => "Invalid mode value",
            StateTransitionError::UnknownCurrentState => "Cannot determine current device state",
        }
    }
}

/// The high-level device state: power and mode together.
#[derive(Clone, Copy, Debug, PartialEq, Eq, Structural)]
pub struct DeviceState {
    pub power: PowerState,
    pub mode: Mode,
}

/// The state a transition request leads to: each part replaced where the
/// request names one, kept where it does not. Any combination is
/// accepted and forwarded; the device applies its own rules.
pub open spec fn spec_transition(current: DeviceState, new_power: Option<PowerState>,
    new_mode: Option<Mode>) -> DeviceState {
    DeviceState {
        power: match new_power {
            Some(p) => p,
            None => current.power,
        },
        mode: match new_mode {
            Some(m) => m,
            None => current.mode,
        },
    }
}

impl DeviceState {
    /// A state from explicit parts.
    pub fn new(power: PowerState, mode: Mode) -> (r: DeviceState)
        ensures
            r == (DeviceState { power, mode }),
    {
        DeviceState { power, mode }
    }

    /// The state a status snapshot reports, if power and mode are both
    /// readable.
    pub fn from_status(status: &DaikinStatus) -> (r: Option<DeviceState>)
        ensures
            r is Some <==> status@.power.numeric_readable() && status@.mode.enum_readable(),
            r matches Some(d) ==> {
                &&& (d.power == PowerState::On <==> status@.power.numeric_value_e8() >= pow10(8))
                &&& d.mode == Mode::spec_from_code(status@.mode.enum_code() as i32)
            },
    {
        let power = match PowerState::from_status(status) {
            Some(p) => p,
            None => {
                return None;
            },
        };
        let mode = match status.mode.get_enum() {
            Some(m) => m,
            None => {
                return None;
            },
        };
        Some(DeviceState { power, mode })
    }

    /// Compute the state a transition request leads to. Power can always
    /// be switched and the mode changed regardless of power.
    pub fn transition(&self, new_power: Option<PowerState>, new_mode: Option<Mode>)
        -> (r: Result<DeviceState, StateTransitionError>)
        ensures
            r == Ok::<DeviceState, StateTransitionError>(spec_transition(*self, new_power,
                new_mode)),
    {
        let target_power = match new_power {
            Some(p) => p,
            None => self.power,
        };
        let target_mode = match new_mode {
            Some(m) => m,
            None => self.mode,
        };
        Ok(DeviceState { power: target_power, mode: target_mode })
    }

    /// Write this state's power and mode into a status snapshot; all
    /// other fields stay as they are.
    pub fn apply_to_status(&self, status: &mut DaikinStatus)
        ensures
            final(status)@ == (StatusView {
                power: old(status)@.power.written(spec_power_value_e8(self.power)),
                mode: old(status)@.mode.written(spec_mode_code(self.mode) * pow10(8)),
                ..old(status)@
            }),
    {
        let _ = status.power.set_value(self.power.to_value());
        let _ = status.mode.set_value(self.mode);
        proof {
            assert(self.mode.spec_value().value_e8() == spec_mode_code(self.mode) * pow10(8));
        }
    }
}

/// A transition request in the making: the parts to change, the rest
/// left alone.
#[derive(Clone, Copy, Debug, PartialEq, Eq, Structural)]
pub struct StateTransition {
    pub power: Option<PowerState>,
    pub mode: Option<Mode>,
}

impl StateTransition {
    /// An empty transition: changes nothing.
    pub fn new() -> (r: StateTransition)
        ensures
            r == (StateTransition { power: None, mode: None }),
    {
        StateTransition { power: None, mode: None }
    }

    /// Request a power state.
    pub fn power(self, power: PowerState) -> (r: StateTransition)
        ensures
            r == (StateTransition { power: Some(power), mode: self.mode }),
    {
        StateTransition { power: Some(power), mode: self.mode }
    }

    /// Request a mode.
    pub fn mode(self, mode: Mode) -> (r: StateTransition)
        ensures
            r == (StateTransition { power: self.power, mode: Some(mode) }),
    {
        StateTransition { power: self.power, mode: Some(mode) }
    }

    /// Request switching on.
    pub fn turn_on(self) -> (r: StateTransition)
        ensures
            r == (StateTransition { power: Some(PowerState::On), mode: self.mode }),
    {
        self.power(PowerState::On)
    }

    /// Request switching off.
    pub fn turn_off(self) -> (r: StateTransition)
        ensures
            r == (StateTransition { power: Some(PowerState::Off), mode: self.mode }),
    {
        self.power(PowerState::Off)
    }

    /// Apply the request to a known state.
    pub fn apply(&self, current: &DeviceState) -> (r: Result<DeviceState, StateTransitionError>)
        ensures
            r == Ok::<DeviceState, StateTransitionError>(spec_transition(*current, self.power,
                self.mode)),
    {
        current.transition(self.power, self.mode)
    }

    /// Apply the request directly to a status snapshot: read the current
    /// state out of it, compute the target state, and write that back.
    pub fn apply_to_status(&self, status: &mut DaikinStatus)
        -> (r: Result<DeviceState, StateTransitionError>)
        ensures
            r is Ok <==> old(status)@.power.numeric_readable()
                && old(status)@.mode.enum_readable(),
            r is Err ==> r == Err::<DeviceState, StateTransitionError>(
                StateTransitionError::UnknownCurrentState) && final(status)@ == old(status)@,
            r matches Ok(d) ==> final(status)@ == (StatusView {
                power: old(status)@.power.written(spec_power_value_e8(d.power)),
                mode: old(status)@.mode.written(spec_mode_code(d.mode) * pow10(8)),
                ..old(status)@
            }),
    {
        let current = match DeviceState::from_status(status) {
            Some(c) => c,
            None => {
                return Err(StateTransitionError::UnknownCurrentState);
            },
        };
        let new_state = match self.apply(&current) {
            Ok(s) => s,
            Err(e) => {
                return Err(e);
            },
        };
        new_state.apply_to_status(status);
        Ok(new_state)
    }
}

impl Default for StateTransition {
    /// The empty transition.
    fn default() -> (r: StateTransition)
        ensures
            r == (StateTransition { power: None, mode: None }),
    {
        StateTransition::new()
    }
}

} // verus!
