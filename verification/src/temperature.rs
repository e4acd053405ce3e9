//! Mode-dependent temperature targets: the temperature a status carries
//! for its current mode, validated application of a target back into a
//! status.

use vstd::prelude::*;
use vstd::string::StringExecFns;
use crate::codec::{Decimal, pow10};
use crate::status::{DaikinStatus, StatusView};
use crate::types::{DomainValue, Mode};

verus! {

/// A temperature target valid for one mode: absolute targets for heating
/// and cooling, a relative offset for the auto mode, and no temperature
/// at all for fan and dehumidify modes.
#[derive(Clone, Copy, Debug, PartialEq, Eq, Structural)]
pub enum TemperatureTarget {
    Heating(Decimal),
    Cooling(Decimal),
    Auto(Decimal),
    NotApplicable,
}

/// Why a temperature operation failed.
#[derive(Clone, Copy, Debug, PartialEq)]
pub enum TemperatureError {
    /// The target kind does not match the current mode.
    ModeMismatch { expected_mode: &'static str, actual_mode: Mode },
    /// The current mode cannot be determined.
    UnknownMode,
}

impl TemperatureError {
    /// A short description of the error.
    pub fn message(&self) -> (r: String)
        ensures
            self matches TemperatureError::ModeMismatch { expected_mode, actual_mode } ==> r@
                == "temperature target "@ + expected_mode@ + " does not match mode "@ + (match (
            actual_mode) {
                Mode::Fan => "Fan"@,
                Mode::Heating => "Heating"@,
                Mode::Cooling => "Cooling"@,
                Mode::Auto => "Auto"@,
                Mode::Dehumidify => "Dehumidify"@,
                Mode::Unknown => "Unknown"@,
            }),
            *self == TemperatureError::UnknownMode ==> r@
                == "cannot determine current operating mode"@,
    {
        match self {
            TemperatureError::ModeMismatch { expected_mode, actual_mode } => String::from_str(
                "temperature target ").concat(expected_mode).concat(
                " does not match mode ").concat(actual_mode.label()),
            TemperatureError::UnknownMode => String::from_str(
                "cannot determine current operating mode"),
        }
    }
}

/// Whether a target kind fits a mode: heating targets the heating mode,
/// cooling the cooling mode, the offset the auto mode, and no target the
/// fan and dehumidify modes.
pub open spec fn spec_valid_for_mode(t: TemperatureTarget, mode: Mode) -> bool {
    match (t, mode) {
        (TemperatureTarget::Heating(_), Mode::Heating) => true,
        (TemperatureTarget::Cooling(_), Mode::Cooling) => true,
        (TemperatureTarget::Auto(_), Mode::Auto) => true,
        (TemperatureTarget::NotApplicable, Mode::Fan) => true,
        (TemperatureTarget::NotApplicable, Mode::Dehumidify) => true,
        _ => false,
    }
}

impl TemperatureTarget {
    /// Validity of the carried temperature.
    pub open spec fn wf(self) -> bool {
        match self {
            TemperatureTarget::Heating(t) => t.wf(),
            TemperatureTarget::Cooling(t) => t.wf(),
            TemperatureTarget::Auto(t) => t.wf(),
            TemperatureTarget::NotApplicable => true,
        }
    }

    /// A heating target.
    pub fn heating(temp: Decimal) -> (r: TemperatureTarget)
        ensures
            r == TemperatureTarget::Heating(temp),
    {
        TemperatureTarget::Heating(temp)
    }

    /// A cooling target.
    pub fn cooling(temp: Decimal) -> (r: TemperatureTarget)
        ensures
            r == TemperatureTarget::Cooling(temp),
    {
        TemperatureTarget::Cooling(temp)
    }

    /// An auto-mode offset.
    pub fn auto(offset: Decimal) -> (r: TemperatureTarget)
        ensures
            r == TemperatureTarget::Auto(offset),
    {
        TemperatureTarget::Auto(offset)
    }

    /// The target the status carries for its current mode: the heating,
    /// cooling or auto temperature leaf under the respective mode, no
    /// target under fan or dehumidify, nothing when the mode is missing
    /// or unknown.
    pub fn from_status(status: &DaikinStatus) -> (r: Option<TemperatureTarget>)
        ensures
            !status@.mode.enum_readable() ==> r is None,
            status@.mode.enum_readable() ==> {
                let m = Mode::spec_from_code(status@.mode.enum_code() as i32);
                match m {
                    Mode::Heating => (r is Some <==> status@
                        .target_heating_temperature.numeric_readable()) && (r matches Some(t)
                        ==> t matches TemperatureTarget::Heating(d) && d.wf() && d.value_e8()
                        == status@.target_heating_temperature.numeric_value_e8()),
                    Mode::Cooling => (r is Some <==> status@
                        .target_cooling_temperature.numeric_readable()) && (r matches Some(t)
                        ==> t matches TemperatureTarget::Cooling(d) && d.wf() && d.value_e8()
                        == status@.target_cooling_temperature.numeric_value_e8()),
                    Mode::Auto => (r is Some <==> status@
                        .target_automatic_temperature.numeric_readable()) && (r matches Some(t)
                        ==> t matches TemperatureTarget::Auto(d) && d.wf() && d.value_e8()
                        == status@.target_automatic_temperature.numeric_value_e8()),
                    Mode::Fan => r == Some(TemperatureTarget::NotApplicable),
                    Mode::Dehumidify => r == Some(TemperatureTarget::NotApplicable),
                    Mode::Unknown => r is None,
                }
            },
    {
        let mode = match status.mode.get_enum() {
            Some(m) => m,
            None => {
                return None;
            },
        };
        match mode {
            Mode::Heating => match status.target_heating_temperature.get_numeric() {
                Some(d) => Some(TemperatureTarget::Heating(d)),
                None => None,
            },
            Mode::Cooling => match status.target_cooling_temperature.get_numeric() {
                Some(d) => Some(TemperatureTarget::Cooling(d)),
                None => None,
            },
            Mode::Auto => match status.target_automatic_temperature.get_numeric() {
                Some(d) => Some(TemperatureTarget::Auto(d)),
                None => None,
            },
            Mode::Fan => Some(TemperatureTarget::NotApplicable),
            Mode::Dehumidify => Some(TemperatureTarget::NotApplicable),
            Mode::Unknown => None,
        }
    }

    /// Whether this target fits the given mode.
    pub fn is_valid_for_mode(&self, mode: &Mode) -> (r: bool)
        ensures
            r == spec_valid_for_mode(*self, *mode),
    {
        match (self, mode) {
            (TemperatureTarget::Heating(_), Mode::Heating) => true,
            (TemperatureTarget::Cooling(_), Mode::Cooling) => true,
            (TemperatureTarget::Auto(_), Mode::Auto) => true,
            (TemperatureTarget::NotApplicable, Mode::Fan) => true,
            (TemperatureTarget::NotApplicable, Mode::Dehumidify) => true,
            _ => false,
        }
    }

    /// Write this target into its own temperature leaf, without mode
    /// validation; no target writes nothing.
    pub fn apply_to_status(&self, status: &mut DaikinStatus)
        requires
            self.wf(),
        ensures
            final(status)@ == spec_applied(*self, old(status)@),
    {
        match self {
            TemperatureTarget::Heating(temp) => {
                let _ = status.target_heating_temperature.set_value(*temp);
            },
            TemperatureTarget::Cooling(temp) => {
                let _ = status.target_cooling_temperature.set_value(*temp);
            },
            TemperatureTarget::Auto(offset) => {
                let _ = status.target_automatic_temperature.set_value(*offset);
            },
            TemperatureTarget::NotApplicable => {},
        }
    }

    /// Write this target into the status only if it fits the current
    /// mode; report a mismatch or an undetermined mode without touching
    /// anything.
    pub fn apply_validated(&self, status: &mut DaikinStatus)
        -> (r: Result<(), TemperatureError>)
        requires
            self.wf(),
        ensures
            !old(status)@.mode.enum_readable() ==> r == Err::<(), TemperatureError>(
                TemperatureError::UnknownMode) && final(status)@ == old(status)@,
            old(status)@.mode.enum_readable() ==> {
                let m = Mode::spec_from_code(old(status)@.mode.enum_code() as i32);
                if spec_valid_for_mode(*self, m) {
                    r is Ok && final(status)@ == spec_applied(*self, old(status)@)
                } else {
                    r matches Err(e) && e matches TemperatureError::ModeMismatch {
                        actual_mode, .. } && actual_mode == m && final(status)@ == old(status)@
                }
            },
    {
        let mode = match status.mode.get_enum() {
            Some(m) => m,
            None => {
                return Err(TemperatureError::UnknownMode);
            },
        };
        if !self.is_valid_for_mode(&mode) {
            return Err(TemperatureError::ModeMismatch {
                expected_mode: self.mode_name(),
                actual_mode: mode,
            });
        }
        self.apply_to_status(status);
        Ok(())
    }

    /// The mode name this target is for.
    pub fn mode_name(&self) -> (r: &'static str)
        ensures
            self matches TemperatureTarget::Heating(_) ==> r@ == "Heating"@,
            self matches TemperatureTarget::Cooling(_) ==> r@ == "Cooling"@,
            self matches TemperatureTarget::Auto(_) ==> r@ == "Auto"@,
            self matches TemperatureTarget::NotApplicable ==> r@ == "None"@,
    {
        match self {
            TemperatureTarget::Heating(_) => "Heating",
            TemperatureTarget::Cooling(_) => "Cooling",
            TemperatureTarget::Auto(_) => "Auto",
            TemperatureTarget::NotApplicable => "None",
        }
    }

    /// The carried temperature, if there is one.
    pub fn value(&self) -> (r: Option<Decimal>)
        ensures
            match *self {
                TemperatureTarget::Heating(t) => r == Some(t),
                TemperatureTarget::Cooling(t) => r == Some(t),
                TemperatureTarget::Auto(t) => r == Some(t),
                TemperatureTarget::NotApplicable => r is None,
            },
    {
        match self {
            TemperatureTarget::Heating(t) => Some(*t),
            TemperatureTarget::Cooling(t) => Some(*t),
            TemperatureTarget::Auto(t) => Some(*t),
            TemperatureTarget::NotApplicable => None,
        }
    }
}

/// The status after a target writes its own leaf: only that leaf
/// changes.
pub open spec fn spec_applied(t: TemperatureTarget, sv: StatusView) -> StatusView {
    match t {
        TemperatureTarget::Heating(temp) => StatusView {
            target_heating_temperature: sv.target_heating_temperature.written(temp.value_e8()),
            ..sv
        },
        TemperatureTarget::Cooling(temp) => StatusView {
            target_cooling_temperature: sv.target_cooling_temperature.written(temp.value_e8()),
            ..sv
        },
        TemperatureTarget::Auto(offset) => StatusView {
            target_automatic_temperature: sv.target_automatic_temperature.written(
                offset.value_e8()),
            ..sv
        },
        TemperatureTarget::NotApplicable => sv,
    }
}

} // verus!
