//! Domain value types: the discrete codes a device reports, and the
//! conversion between each type and its numeric wire code.
//!
//! Decoding is total: a code absent from the known set resolves to the
//! `Unknown` sentinel of its type, never to an error, because devices
//! report undocumented codes in the field.

use vstd::prelude::*;
use crate::codec::Decimal;

verus! {

/// A domain type convertible to and from a numeric wire code.
pub trait DomainValue: Sized + Copy {
    /// Validity of a value of the type.
    spec fn inv(self) -> bool;

    /// The numeric value written to the wire for this value.
    spec fn spec_value(self) -> Decimal;

    /// The value a decoded integer code maps to. Total: unmapped codes
    /// yield the type's sentinel.
    spec fn spec_from_code(c: i32) -> Self;

    /// The numeric value to encode.
    fn as_value(self) -> (r: Decimal)
        requires
            self.inv(),
        ensures
            r == self.spec_value(),
            r.wf(),
    ;

    /// Decode an integer code, totally.
    fn from_code(c: i32) -> (r: Self)
        ensures
            r == Self::spec_from_code(c),
            r.inv(),
    ;
}

impl DomainValue for Decimal {
    open spec fn inv(self) -> bool {
        self.wf()
    }

    open spec fn spec_value(self) -> Decimal {
        self
    }

    open spec fn spec_from_code(c: i32) -> Decimal {
        Decimal { mant: c as i64, exp: 0 }
    }

    fn as_value(self) -> (r: Decimal) {
        self
    }

    fn from_code(c: i32) -> (r: Decimal) {
        Decimal::new(c as i64, 0)
    }
}

/// HVAC operating mode.
#[derive(Clone, Copy, Debug, PartialEq, Eq, Structural)]
pub enum Mode {
    Fan,
    Heating,
    Cooling,
    Auto,
    Dehumidify,
    Unknown,
}

pub open spec fn spec_mode_code(m: Mode) -> u8 {
    match m {
        Mode::Fan => 0,
        Mode::Heating => 1,
        Mode::Cooling => 2,
        Mode::Auto => 3,
        Mode::Dehumidify => 5,
        Mode::Unknown => 255,
    }
}

impl Mode {
    /// The mode's name, for messages.
    pub fn label(&self) -> (r: &'static str)
        ensures
            *self == Mode::Fan ==> r@ == "Fan"@,
            *self == Mode::Heating ==> r@ == "Heating"@,
            *self == Mode::Cooling ==> r@ == "Cooling"@,
            *self == Mode::Auto ==> r@ == "Auto"@,
            *self == Mode::Dehumidify ==> r@ == "Dehumidify"@,
            *self == Mode::Unknown ==> r@ == "Unknown"@,
    {
        match self {
            Mode::Fan => "Fan",
            Mode::Heating => "Heating",
            Mode::Cooling => "Cooling",
            Mode::Auto => "Auto",
            Mode::Dehumidify => "Dehumidify",
            Mode::Unknown => "Unknown",
        }
    }

    /// The wire code of this mode.
    pub fn code(self) -> (r: u8)
        ensures
            r == spec_mode_code(self),
    {
        match self {
            Mode::Fan => 0,
            Mode::Heating => 1,
            Mode::Cooling => 2,
            Mode::Auto => 3,
            Mode::Dehumidify => 5,
            Mode::Unknown => 255,
        }
    }
}

impl DomainValue for Mode {
    open spec fn inv(self) -> bool {
        true
    }

    open spec fn spec_value(self) -> Decimal {
        Decimal { mant: spec_mode_code(self) as i64, exp: 0 }
    }

    open spec fn spec_from_code(c: i32) -> Mode {
        if c == 0 {
            Mode::Fan
        } else if c == 1 {
            Mode::Heating
        } else if c == 2 {
            Mode::Cooling
        } else if c == 3 {
            Mode::Auto
        } else if c == 5 {
            Mode::Dehumidify
        } else {
            Mode::Unknown
        }
    }

    fn as_value(self) -> (r: Decimal) {
        Decimal::new(self.code() as i64, 0)
    }

    fn from_code(c: i32) -> (r: Mode) {
        if c == 0 {
            Mode::Fan
        } else if c == 1 {
            Mode::Heating
        } else if c == 2 {
            Mode::Cooling
        } else if c == 3 {
            Mode::Auto
        } else if c == 5 {
            Mode::Dehumidify
        } else {
            Mode::Unknown
        }
    }
}

/// Fan speed setting.
#[derive(Clone, Copy, Debug, PartialEq, Eq, Structural)]
pub enum WindSpeed {
    Silent,
    Lev1,
    Lev2,
    Lev3,
    Lev4,
    Lev5,
    Auto,
    Unknown,
}

pub open spec fn spec_wind_speed_code(w: WindSpeed) -> u8 {
    match w {
        WindSpeed::Silent => 0x0B,
        WindSpeed::Lev1 => 0x03,
        WindSpeed::Lev2 => 0x04,
        WindSpeed::Lev3 => 0x05,
        WindSpeed::Lev4 => 0x06,
        WindSpeed::Lev5 => 0x07,
        WindSpeed::Auto => 0x0A,
        WindSpeed::Unknown => 0xFF,
    }
}

impl WindSpeed {
    /// The wire code of this speed.
    pub fn code(self) -> (r: u8)
        ensures
            r == spec_wind_speed_code(self),
    {
        match self {
            WindSpeed::Silent => 0x0B,
            WindSpeed::Lev1 => 0x03,
            WindSpeed::Lev2 => 0x04,
            WindSpeed::Lev3 => 0x05,
            WindSpeed::Lev4 => 0x06,
            WindSpeed::Lev5 => 0x07,
            WindSpeed::Auto => 0x0A,
            WindSpeed::Unknown => 0xFF,
        }
    }
}

impl DomainValue for WindSpeed {
    open spec fn inv(self) -> bool {
        true
    }

    open spec fn spec_value(self) -> Decimal {
        Decimal { mant: spec_wind_speed_code(self) as i64, exp: 0 }
    }

    open spec fn spec_from_code(c: i32) -> WindSpeed {
        if c == 0x0B {
            WindSpeed::Silent
        } else if c == 0x03 {
            WindSpeed::Lev1
        } else if c == 0x04 {
            WindSpeed::Lev2
        } else if c == 0x05 {
            WindSpeed::Lev3
        } else if c == 0x06 {
            WindSpeed::Lev4
        } else if c == 0x07 {
            WindSpeed::Lev5
        } else if c == 0x0A {
            WindSpeed::Auto
        } else {
            WindSpeed::Unknown
        }
    }

    fn as_value(self) -> (r: Decimal) {
        Decimal::new(self.code() as i64, 0)
    }

    fn from_code(c: i32) -> (r: WindSpeed) {
        if c == 0x0B {
            WindSpeed::Silent
        } else if c == 0x03 {
            WindSpeed::Lev1
        } else if c == 0x04 {
            WindSpeed::Lev2
        } else if c == 0x05 {
            WindSpeed::Lev3
        } else if c == 0x06 {
            WindSpeed::Lev4
        } else if c == 0x07 {
            WindSpeed::Lev5
        } else if c == 0x0A {
            WindSpeed::Auto
        } else {
            WindSpeed::Unknown
        }
    }
}

/// Fan speed setting used while the device is in auto mode.
#[derive(Clone, Copy, Debug, PartialEq, Eq, Structural)]
pub enum AutoModeWindSpeed {
    Silent,
    Auto,
    Unknown,
}

pub open spec fn spec_auto_mode_wind_speed_code(w: AutoModeWindSpeed) -> u8 {
    match w {
        AutoModeWindSpeed::Silent => 0x0B,
        AutoModeWindSpeed::Auto => 0x0A,
        AutoModeWindSpeed::Unknown => 0xFF,
    }
}

impl AutoModeWindSpeed {
    /// The wire code of this speed.
    pub fn code(self) -> (r: u8)
        ensures
            r == spec_auto_mode_wind_speed_code(self),
    {
        match self {
            AutoModeWindSpeed::Silent => 0x0B,
            AutoModeWindSpeed::Auto => 0x0A,
            AutoModeWindSpeed::Unknown => 0xFF,
        }
    }
}

impl DomainValue for AutoModeWindSpeed {
    open spec fn inv(self) -> bool {
        true
    }

    open spec fn spec_value(self) -> Decimal {
        Decimal { mant: spec_auto_mode_wind_speed_code(self) as i64, exp: 0 }
    }

    open spec fn spec_from_code(c: i32) -> AutoModeWindSpeed {
        if c == 0x0B {
            AutoModeWindSpeed::Silent
        } else if c == 0x0A {
            AutoModeWindSpeed::Auto
        } else {
            AutoModeWindSpeed::Unknown
        }
    }

    fn as_value(self) -> (r: Decimal) {
        Decimal::new(self.code() as i64, 0)
    }

    fn from_code(c: i32) -> (r: AutoModeWindSpeed) {
        if c == 0x0B {
            AutoModeWindSpeed::Silent
        } else if c == 0x0A {
            AutoModeWindSpeed::Auto
        } else {
            AutoModeWindSpeed::Unknown
        }
    }
}

/// Vertical air direction.
#[derive(Clone, Copy, Debug, PartialEq, Eq, Structural)]
pub enum VerticalDirection {
    TopMost,
    Top,
    Center,
    Bottom,
    BottomMost,
    Swing,
    Auto,
    Nice,
    Unknown,
}

pub open spec fn spec_vertical_direction_code(d: VerticalDirection) -> u8 {
    match d {
        VerticalDirection::TopMost => 0x01,
        VerticalDirection::Top => 0x02,
        VerticalDirection::Center => 0x03,
        VerticalDirection::Bottom => 0x04,
        VerticalDirection::BottomMost => 0x05,
        VerticalDirection::Swing => 0x0F,
        VerticalDirection::Auto => 0x10,
        VerticalDirection::Nice => 0x17,
        VerticalDirection::Unknown => 0xFF,
    }
}

impl VerticalDirection {
    /// The wire code of this direction.
    pub fn code(self) -> (r: u8)
        ensures
            r == spec_vertical_direction_code(self),
    {
        match self {
            VerticalDirection::TopMost => 0x01,
            VerticalDirection::Top => 0x02,
            VerticalDirection::Center => 0x03,
            VerticalDirection::Bottom => 0x04,
            VerticalDirection::BottomMost => 0x05,
            VerticalDirection::Swing => 0x0F,
            VerticalDirection::Auto => 0x10,
            VerticalDirection::Nice => 0x17,
            VerticalDirection::Unknown => 0xFF,
        }
    }
}

impl DomainValue for VerticalDirection {
    open spec fn inv(self) -> bool {
        true
    }

    open spec fn spec_value(self) -> Decimal {
        Decimal { mant: spec_vertical_direction_code(self) as i64, exp: 0 }
    }

    open spec fn spec_from_code(c: i32) -> VerticalDirection {
        if c == 0x01 {
            VerticalDirection::TopMost
        } else if c == 0x02 {
            VerticalDirection::Top
        } else if c == 0x03 {
            VerticalDirection::Center
        } else if c == 0x04 {
            VerticalDirection::Bottom
        } else if c == 0x05 {
            VerticalDirection::BottomMost
        } else if c == 0x0F {
            VerticalDirection::Swing
        } else if c == 0x10 {
            VerticalDirection::Auto
        } else if c == 0x17 {
            VerticalDirection::Nice
        } else {
            VerticalDirection::Unknown
        }
    }

    fn as_value(self) -> (r: Decimal) {
        Decimal::new(self.code() as i64, 0)
    }

    fn from_code(c: i32) -> (r: VerticalDirection) {
        if c == 0x01 {
            VerticalDirection::TopMost
        } else if c == 0x02 {
            VerticalDirection::Top
        } else if c == 0x03 {
            VerticalDirection::Center
        } else if c == 0x04 {
            VerticalDirection::Bottom
        } else if c == 0x05 {
            VerticalDirection::BottomMost
        } else if c == 0x0F {
            VerticalDirection::Swing
        } else if c == 0x10 {
            VerticalDirection::Auto
        } else if c == 0x17 {
            VerticalDirection::Nice
        } else {
            VerticalDirection::Unknown
        }
    }
}

/// Horizontal air direction.
#[derive(Clone, Copy, Debug, PartialEq, Eq, Structural)]
pub enum HorizontalDirection {
    LeftMost,
    Left,
    LeftCenter,
    Center,
    RightCenter,
    Right,
    RightMost,
    Swing,
    Auto,
    Unknown,
}

pub open spec fn spec_horizontal_direction_code(d: HorizontalDirection) -> u8 {
    match d {
        HorizontalDirection::LeftMost => 0x02,
        HorizontalDirection::Left => 0x03,
        HorizontalDirection::LeftCenter => 0x04,
        HorizontalDirection::Center => 0x05,
        HorizontalDirection::RightCenter => 0x06,
        HorizontalDirection::Right => 0x07,
        HorizontalDirection::RightMost => 0x08,
        HorizontalDirection::Swing => 0x0F,
        HorizontalDirection::Auto => 0x10,
        HorizontalDirection::Unknown => 0xFF,
    }
}

impl HorizontalDirection {
    /// The wire code of this direction.
    pub fn code(self) -> (r: u8)
        ensures
            r == spec_horizontal_direction_code(self),
    {
        match self {
            HorizontalDirection::LeftMost => 0x02,
            HorizontalDirection::Left => 0x03,
            HorizontalDirection::LeftCenter => 0x04,
            HorizontalDirection::Center => 0x05,
            HorizontalDirection::RightCenter => 0x06,
            HorizontalDirection::Right => 0x07,
            HorizontalDirection::RightMost => 0x08,
            HorizontalDirection::Swing => 0x0F,
            HorizontalDirection::Auto => 0x10,
            HorizontalDirection::Unknown => 0xFF,
        }
    }
}

impl DomainValue for HorizontalDirection {
    open spec fn inv(self) -> bool {
        true
    }

    open spec fn spec_value(self) -> Decimal {
        Decimal { mant: spec_horizontal_direction_code(self) as i64, exp: 0 }
    }

    open spec fn spec_from_code(c: i32) -> HorizontalDirection {
        if c == 0x02 {
            HorizontalDirection::LeftMost
        } else if c == 0x03 {
            HorizontalDirection::Left
        } else if c == 0x04 {
            HorizontalDirection::LeftCenter
        } else if c == 0x05 {
            HorizontalDirection::Center
        } else if c == 0x06 {
            HorizontalDirection::RightCenter
        } else if c == 0x07 {
            HorizontalDirection::Right
        } else if c == 0x08 {
            HorizontalDirection::RightMost
        } else if c == 0x0F {
            HorizontalDirection::Swing
        } else if c == 0x10 {
            HorizontalDirection::Auto
        } else {
            HorizontalDirection::Unknown
        }
    }

    fn as_value(self) -> (r: Decimal) {
        Decimal::new(self.code() as i64, 0)
    }

    fn from_code(c: i32) -> (r: HorizontalDirection) {
        if c == 0x02 {
            HorizontalDirection::LeftMost
        } else if c == 0x03 {
            HorizontalDirection::Left
        } else if c == 0x04 {
            HorizontalDirection::LeftCenter
        } else if c == 0x05 {
            HorizontalDirection::Center
        } else if c == 0x06 {
            HorizontalDirection::RightCenter
        } else if c == 0x07 {
            HorizontalDirection::Right
        } else if c == 0x08 {
            HorizontalDirection::RightMost
        } else if c == 0x0F {
            HorizontalDirection::Swing
        } else if c == 0x10 {
            HorizontalDirection::Auto
        } else {
            HorizontalDirection::Unknown
        }
    }
}

/// Law: a code outside a type's known set decodes to its `Unknown`
/// sentinel; decoding never fails.
pub proof fn lemma_unknown_code_is_sentinel(c: i32)
    requires
        !(c == 0 || c == 1 || c == 2 || c == 3 || c == 5),
        !(0x01 <= c <= 0x08),
        !(c == 0x0A || c == 0x0B || c == 0x0F || c == 0x10 || c == 0x17),
    ensures
        Mode::spec_from_code(c) == Mode::Unknown,
        WindSpeed::spec_from_code(c) == WindSpeed::Unknown,
        AutoModeWindSpeed::spec_from_code(c) == AutoModeWindSpeed::Unknown,
        VerticalDirection::spec_from_code(c) == VerticalDirection::Unknown,
        HorizontalDirection::spec_from_code(c) == HorizontalDirection::Unknown,
{
}

} // verus!
