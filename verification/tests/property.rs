//! Tests of the property tree and the typed accessor.

use std::marker::PhantomData;

use dsiot::codec::{Decimal, ValueError};
use dsiot::property::{Binary, BinaryStep, Item, Metadata, PropValue, Property};
use dsiot::types::{Mode, WindSpeed};

fn step_item(value: &str, st: u8, mi: &str, mx: &str) -> Item<Decimal> {
    Item {
        name: "p_02".to_string(),
        value: PropValue::String(value.to_string()),
        metadata: Metadata::Binary(Binary::Step(BinaryStep {
            step: st,
            min: mi.to_string(),
            max: mx.to_string(),
        })),
        phantom: PhantomData,
    }
}

#[test]
fn get_f32() {
    // Hex "31" is 49; under a 0.5 step it reads 24.5.
    let p = step_item("31", 245, "24", "40");
    assert_eq!(p.get_numeric(), Some(Decimal::new(245, -1)));

    let p: Item<Decimal> = Item {
        name: "root_entity_name".to_string(),
        value: PropValue::String("e_1002".to_string()),
        metadata: Metadata::String,
        phantom: PhantomData,
    };
    assert_eq!(p.get_numeric(), None);
}

#[test]
fn get_string() {
    let p: Item<Decimal> = Item {
        name: "root_entity_name".to_string(),
        value: PropValue::String("e_1002".to_string()),
        metadata: Metadata::String,
        phantom: PhantomData,
    };
    assert_eq!(p.get_string(), Some("e_1002".to_string()));

    let p: Item<Decimal> = Item {
        name: "data_model_code".to_string(),
        value: PropValue::Integer(26),
        metadata: Metadata::Integer,
        phantom: PhantomData,
    };
    assert_eq!(p.get_string(), None);
    assert_eq!(p.get_int(), Some(26));
}

#[test]
fn get_string_raw_reverses_and_trims() {
    // Hex 006162 decodes to the bytes of "\0ab"; reversed it is "ba\0",
    // and the trailing NUL is trimmed.
    let p: Item<Decimal> = Item {
        name: "n".to_string(),
        value: PropValue::String("006162".to_string()),
        metadata: Metadata::Binary(Binary::String {}),
        phantom: PhantomData,
    };
    assert_eq!(p.get_string(), Some("ba".to_string()));
}

#[test]
fn propvalue() {
    let item = step_item("2600", 245, "EEFF", "4E00");
    let pv = item.value;
    let expect = PropValue::String("2600".to_string());
    assert_eq!(pv, expect);
}

#[test]
fn find_push() {
    let mut tree = Property::new_tree("root");
    let _child = tree.push(Property::new_tree("child")).unwrap();
    assert!(matches!(tree.find("child"), Some(Property::Tree { .. })));
    assert!(tree.find("absent").is_none());
}

#[test]
fn find_mut_borrows_the_first_match() {
    let mut tree = Property::new_tree("root");
    tree.push(Property::new_tree("child"));
    {
        let child = tree.find_mut("child").unwrap();
        child.push(Property::new_tree("grandchild"));
    }
    assert!(tree.find("child").unwrap().find("grandchild").is_some());
    assert!(tree.find_mut("absent").is_none());
}

#[test]
fn set_value_step_encodes_at_fixed_width() {
    let mut p = step_item("31", 245, "24", "40");
    // 28.0 / 0.5 = 56, one byte wide from the two-digit max.
    assert_eq!(p.set_value(Decimal::new(28, 0)), Ok(()));
    assert!(matches!(&p.value, PropValue::String(s) if s == "38"));
    // A grid value survives the round trip exactly.
    assert_eq!(p.get_numeric(), Some(Decimal::new(280, -1)));
    assert!(p.get_numeric().unwrap().value_eq(Decimal::new(28, 0)));
}

#[test]
fn set_value_rounds_toward_zero() {
    let mut p = step_item("31", 245, "24", "40");
    // 24.7 / 0.5 truncates to 49, which reads back as 24.5: within half
    // a step only on the grid.
    assert_eq!(p.set_value(Decimal::new(247, -1)), Ok(()));
    assert!(p.get_numeric().unwrap().value_eq(Decimal::new(245, -1)));
}

#[test]
fn set_value_string_metadata_is_unsupported() {
    let mut p: Item<Decimal> = Item {
        name: "n".to_string(),
        value: PropValue::String("text".to_string()),
        metadata: Metadata::String,
        phantom: PhantomData,
    };
    assert_eq!(p.set_value(Decimal::new(1, 0)), Err(ValueError::UnsupportedWrite));
    // The value is untouched.
    assert!(matches!(&p.value, PropValue::String(s) if s == "text"));
}

#[test]
fn set_value_enum_uses_max_width() {
    let mut p: Item<WindSpeed> = Item {
        name: "p_09".to_string(),
        value: PropValue::String("0a00".to_string()),
        metadata: Metadata::Binary(Binary::Enum { max: "F80C".to_string() }),
        phantom: PhantomData,
    };
    assert_eq!(p.set_value(WindSpeed::Lev4), Ok(()));
    assert!(matches!(&p.value, PropValue::String(s) if s == "0600"));
    assert_eq!(p.get_enum(), Some(WindSpeed::Lev4));
}

#[test]
fn set_value_other_metadata_clears() {
    let mut p: Item<Decimal> = Item {
        name: "n".to_string(),
        value: PropValue::String("ff".to_string()),
        metadata: Metadata::Undefined,
        phantom: PhantomData,
    };
    assert_eq!(p.set_value(Decimal::new(3, 0)), Ok(()));
    assert!(matches!(p.value, PropValue::Null));
}

#[test]
fn unknown_discriminant_decodes_to_sentinel() {
    let p: Item<Mode> = Item {
        name: "p_01".to_string(),
        value: PropValue::String("63".to_string()),
        metadata: Metadata::Binary(Binary::Enum { max: "2F00".to_string() }),
        phantom: PhantomData,
    };
    // 0x63 is no known mode: the sentinel comes back, never an error.
    assert_eq!(p.get_enum(), Some(Mode::Unknown));
}

#[test]
fn object_values_pass_through_cloning() {
    let payload = serde_json::Value::from(26);
    let p: Item<Decimal> = Item {
        name: "n".to_string(),
        value: PropValue::Object(payload),
        metadata: Metadata::Object,
        phantom: PhantomData,
    };
    let q = p.clone();
    assert_eq!(q.value, PropValue::Object(serde_json::Value::from(26)));
    // Object metadata supports no numeric reads.
    assert_eq!(q.get_numeric(), None);
}

#[test]
fn binary_step_coefficient() {
    let bs = BinaryStep { step: 0xF5, min: "24".to_string(), max: "40".to_string() };
    assert_eq!(bs.step(), Decimal::new(5, -1));
}
