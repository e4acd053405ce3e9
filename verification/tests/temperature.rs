//! Tests of mode-dependent temperature targets.

use dsiot::codec::Decimal;
use dsiot::temperature::{TemperatureError, TemperatureTarget};
use dsiot::types::Mode;

#[test]
fn test_temperature_target_creation() {
    let heating = TemperatureTarget::heating(Decimal::new(22, 0));
    assert_eq!(heating.value(), Some(Decimal::new(22, 0)));

    let cooling = TemperatureTarget::cooling(Decimal::new(26, 0));
    assert_eq!(cooling.value(), Some(Decimal::new(26, 0)));

    let auto = TemperatureTarget::auto(Decimal::new(2, 0));
    assert_eq!(auto.value(), Some(Decimal::new(2, 0)));

    let none = TemperatureTarget::NotApplicable;
    assert_eq!(none.value(), None);
}

#[test]
fn test_mode_validation() {
    let heating = TemperatureTarget::heating(Decimal::new(22, 0));
    assert!(heating.is_valid_for_mode(&Mode::Heating));
    assert!(!heating.is_valid_for_mode(&Mode::Cooling));
    assert!(!heating.is_valid_for_mode(&Mode::Auto));
    assert!(!heating.is_valid_for_mode(&Mode::Fan));

    let cooling = TemperatureTarget::cooling(Decimal::new(26, 0));
    assert!(cooling.is_valid_for_mode(&Mode::Cooling));
    assert!(!cooling.is_valid_for_mode(&Mode::Heating));
    assert!(!cooling.is_valid_for_mode(&Mode::Auto));
    assert!(!cooling.is_valid_for_mode(&Mode::Fan));

    let auto = TemperatureTarget::auto(Decimal::new(0, 0));
    assert!(auto.is_valid_for_mode(&Mode::Auto));
    assert!(!auto.is_valid_for_mode(&Mode::Heating));
    assert!(!auto.is_valid_for_mode(&Mode::Cooling));

    let none = TemperatureTarget::NotApplicable;
    assert!(none.is_valid_for_mode(&Mode::Fan));
    assert!(none.is_valid_for_mode(&Mode::Dehumidify));
    assert!(!none.is_valid_for_mode(&Mode::Heating));
}

#[test]
fn test_mode_mismatch_error_display() {
    let err = TemperatureError::ModeMismatch {
        expected_mode: "Heating",
        actual_mode: Mode::Cooling,
    };
    assert!(err.message().contains("Heating"));
    assert!(err.message().contains("Cooling"));
}

// A fractional target keeps its exact decimal value.
#[test]
fn test_half_degree_target() {
    let cooling = TemperatureTarget::cooling(Decimal::new(245, -1));
    let v = cooling.value().unwrap();
    assert!(v.value_eq(Decimal::new(245, -1)));
    assert_eq!(v.to_e8(), 24_5000_0000i128);
}
