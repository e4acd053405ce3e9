//! Tests of constraint extraction from step metadata.

use dsiot::codec::Decimal;
use dsiot::constraints::ValueConstraints;
use dsiot::property::{Binary, BinaryStep, Metadata};

#[test]
fn test_from_metadata_with_step() {
    let step = BinaryStep {
        step: 0xF5, // base 5, exponent -1: a step of 0.5
        min: "24".to_string(),
        max: "40".to_string(),
    };
    let metadata = Metadata::Binary(Binary::Step(step));

    let constraints = ValueConstraints::from_metadata(&metadata).unwrap();
    assert!(constraints.min.value_eq(Decimal::new(18, 0)));
    assert!(constraints.max.value_eq(Decimal::new(32, 0)));
    assert!(constraints.step.value_eq(Decimal::new(5, -1)));
}

#[test]
fn test_from_metadata_without_step() {
    let metadata = Metadata::Binary(Binary::Enum { max: "FF".to_string() });

    assert!(ValueConstraints::from_metadata(&metadata).is_none());
}

#[test]
fn test_from_metadata_integer() {
    let metadata = Metadata::Integer;
    assert!(ValueConstraints::from_metadata(&metadata).is_none());
}

#[test]
fn from_metadata_zero_step_byte_is_unscaled() {
    let step = BinaryStep {
        step: 0,
        min: "00".to_string(),
        max: "01".to_string(),
    };
    let metadata = Metadata::Binary(Binary::Step(step));
    let constraints = ValueConstraints::from_metadata(&metadata).unwrap();
    assert!(constraints.min.value_eq(Decimal::new(0, 0)));
    assert!(constraints.max.value_eq(Decimal::new(1, 0)));
    // The step field keeps the raw coefficient, which is zero here.
    assert!(constraints.step.value_eq(Decimal::new(0, 0)));
}

#[test]
fn from_metadata_rejects_malformed_bounds() {
    let step = BinaryStep {
        step: 0xF5,
        min: "2".to_string(),
        max: "40".to_string(),
    };
    let metadata = Metadata::Binary(Binary::Step(step));
    assert!(ValueConstraints::from_metadata(&metadata).is_none());
}
