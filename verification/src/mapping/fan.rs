//! Fan speed mapping.
//!
//! The device has six manual speed levels plus an auto mode. Two external
//! scales are served: a percentage (0-100, even 20-point steps, auto as a
//! separate flag) and a legacy linear scale (1 to 7, auto at 7).

use vstd::prelude::*;
use crate::types::{AutoModeWindSpeed, WindSpeed};

verus! {

/// Fan speed on the percentage scale, with auto mode as a separate flag.
#[derive(Clone, Copy, Debug, PartialEq, Eq, Structural)]
pub struct FanSpeed {
    /// Speed percentage (0-100). Only meaningful when `auto` is false.
    pub percent: u8,
    /// Whether auto mode is enabled.
    pub auto: bool,
}

impl FanSpeed {
    /// A manual fan speed; a percentage over 100 is clamped to 100.
    pub fn manual(percent: u8) -> (r: FanSpeed)
        ensures
            r.percent == if percent > 100 { 100u8 } else { percent },
            !r.auto,
    {
        FanSpeed { percent: if percent > 100 { 100 } else { percent }, auto: false }
    }

    /// The auto fan speed.
    pub fn auto() -> (r: FanSpeed)
        ensures
            r.percent == 0,
            r.auto,
    {
        FanSpeed { percent: 0, auto: true }
    }
}

/// The percentage each manual speed maps to: the six levels spread evenly
/// over 0 to 100; the auto speed sets the flag instead. The unknown
/// sentinel has no percentage.
pub open spec fn spec_speed_to_fan_speed(speed: Option<WindSpeed>) -> Option<FanSpeed> {
    match speed {
        Some(WindSpeed::Silent) => Some(FanSpeed { percent: 0, auto: false }),
        Some(WindSpeed::Lev1) => Some(FanSpeed { percent: 20, auto: false }),
        Some(WindSpeed::Lev2) => Some(FanSpeed { percent: 40, auto: false }),
        Some(WindSpeed::Lev3) => Some(FanSpeed { percent: 60, auto: false }),
        Some(WindSpeed::Lev4) => Some(FanSpeed { percent: 80, auto: false }),
        Some(WindSpeed::Lev5) => Some(FanSpeed { percent: 100, auto: false }),
        Some(WindSpeed::Auto) => Some(FanSpeed { percent: 0, auto: true }),
        _ => None,
    }
}

/// Convert a wind speed to the percentage scale.
pub fn speed_to_fan_speed(speed: Option<WindSpeed>) -> (r: Option<FanSpeed>)
    ensures
        r == spec_speed_to_fan_speed(speed),
{
    match speed {
        Some(WindSpeed::Silent) => Some(FanSpeed::manual(0)),
        Some(WindSpeed::Lev1) => Some(FanSpeed::manual(20)),
        Some(WindSpeed::Lev2) => Some(FanSpeed::manual(40)),
        Some(WindSpeed::Lev3) => Some(FanSpeed::manual(60)),
        Some(WindSpeed::Lev4) => Some(FanSpeed::manual(80)),
        Some(WindSpeed::Lev5) => Some(FanSpeed::manual(100)),
        Some(WindSpeed::Auto) => Some(FanSpeed::auto()),
        _ => None,
    }
}

/// The wind speed a percentage maps back to, by half-open 20-point bands
/// centered on the forward mapping; the auto flag wins over the percent.
pub open spec fn spec_fan_speed_to_speed(fan_speed: FanSpeed) -> WindSpeed {
    if fan_speed.auto {
        WindSpeed::Auto
    } else if fan_speed.percent <= 9 {
        WindSpeed::Silent
    } else if fan_speed.percent <= 29 {
        WindSpeed::Lev1
    } else if fan_speed.percent <= 49 {
        WindSpeed::Lev2
    } else if fan_speed.percent <= 69 {
        WindSpeed::Lev3
    } else if fan_speed.percent <= 89 {
        WindSpeed::Lev4
    } else {
        WindSpeed::Lev5
    }
}

/// Convert a percentage-scale fan speed back to a wind speed.
pub fn fan_speed_to_speed(fan_speed: &FanSpeed) -> (r: WindSpeed)
    ensures
        r == spec_fan_speed_to_speed(*fan_speed),
{
    if fan_speed.auto {
        return WindSpeed::Auto;
    }
    if fan_speed.percent <= 9 {
        WindSpeed::Silent
    } else if fan_speed.percent <= 29 {
        WindSpeed::Lev1
    } else if fan_speed.percent <= 49 {
        WindSpeed::Lev2
    } else if fan_speed.percent <= 69 {
        WindSpeed::Lev3
    } else if fan_speed.percent <= 89 {
        WindSpeed::Lev4
    } else {
        WindSpeed::Lev5
    }
}

/// The auto-mode fan speed a percentage-scale fan speed selects: auto at
/// or above half speed or when the auto flag is set, silent below.
pub open spec fn spec_fan_speed_to_auto_mode(fan_speed: FanSpeed) -> AutoModeWindSpeed {
    if fan_speed.auto || fan_speed.percent >= 50 {
        AutoModeWindSpeed::Auto
    } else {
        AutoModeWindSpeed::Silent
    }
}

/// Select the auto-mode fan speed for a percentage-scale fan speed.
pub fn fan_speed_to_auto_mode(fan_speed: &FanSpeed) -> (r: AutoModeWindSpeed)
    ensures
        r == spec_fan_speed_to_auto_mode(*fan_speed),
{
    if fan_speed.auto || fan_speed.percent >= 50 {
        AutoModeWindSpeed::Auto
    } else {
        AutoModeWindSpeed::Silent
    }
}

/// The legacy scale point of each wind speed: the six manual levels at 1
/// to 6, auto at 7. The unknown sentinel has no point on the scale.
pub open spec fn spec_speed_to_scale(speed: Option<WindSpeed>) -> Option<u8> {
    match speed {
        Some(WindSpeed::Silent) => Some(1u8),
        Some(WindSpeed::Lev1) => Some(2u8),
        Some(WindSpeed::Lev2) => Some(3u8),
        Some(WindSpeed::Lev3) => Some(4u8),
        Some(WindSpeed::Lev4) => Some(5u8),
        Some(WindSpeed::Lev5) => Some(6u8),
        Some(WindSpeed::Auto) => Some(7u8),
        _ => None,
    }
}

/// Convert a wind speed to the legacy 1-to-7 scale.
pub fn speed_to_scale(speed: Option<WindSpeed>) -> (r: Option<u8>)
    ensures
        r == spec_speed_to_scale(speed),
{
    match speed {
        Some(WindSpeed::Silent) => Some(1),
        Some(WindSpeed::Lev1) => Some(2),
        Some(WindSpeed::Lev2) => Some(3),
        Some(WindSpeed::Lev3) => Some(4),
        Some(WindSpeed::Lev4) => Some(5),
        Some(WindSpeed::Lev5) => Some(6),
        Some(WindSpeed::Auto) => Some(7),
        _ => None,
    }
}

/// The wind speed a legacy scale point maps back to; anything off the
/// manual points 1 to 6 is auto.
pub open spec fn spec_scale_to_speed(scale: u8) -> WindSpeed {
    if scale == 1 {
        WindSpeed::Silent
    } else if scale == 2 {
        WindSpeed::Lev1
    } else if scale == 3 {
        WindSpeed::Lev2
    } else if scale == 4 {
        WindSpeed::Lev3
    } else if scale == 5 {
        WindSpeed::Lev4
    } else if scale == 6 {
        WindSpeed::Lev5
    } else {
        WindSpeed::Auto
    }
}

/// Convert a legacy scale point back to a wind speed.
pub fn scale_to_speed(scale: u8) -> (r: WindSpeed)
    ensures
        r == spec_scale_to_speed(scale),
{
    if scale == 1 {
        WindSpeed::Silent
    } else if scale == 2 {
        WindSpeed::Lev1
    } else if scale == 3 {
        WindSpeed::Lev2
    } else if scale == 4 {
        WindSpeed::Lev3
    } else if scale == 5 {
        WindSpeed::Lev4
    } else if scale == 6 {
        WindSpeed::Lev5
    } else {
        WindSpeed::Auto
    }
}

/// The auto-mode fan speed a percentage-like scale value selects: silent
/// below half, auto from half up.
pub open spec fn spec_scale_to_auto_mode(scale: u8) -> AutoModeWindSpeed {
    if scale < 50 {
        AutoModeWindSpeed::Silent
    } else {
        AutoModeWindSpeed::Auto
    }
}

/// Select the auto-mode fan speed for a percentage-like scale value.
pub fn scale_to_auto_mode(scale: u8) -> (r: AutoModeWindSpeed)
    ensures
        r == spec_scale_to_auto_mode(scale),
{
    if scale < 50 {
        AutoModeWindSpeed::Silent
    } else {
        AutoModeWindSpeed::Auto
    }
}

/// Law: every one of the seven canonical wind speeds round-trips through
/// the percentage scale and through the legacy 1-to-7 scale.
pub proof fn lemma_fan_speed_roundtrip(speed: WindSpeed)
    requires
        speed != WindSpeed::Unknown,
    ensures
        spec_fan_speed_to_speed(spec_speed_to_fan_speed(Some(speed))->0) == speed,
        spec_scale_to_speed(spec_speed_to_scale(Some(speed))->0) == speed,
{
}

} // verus!
