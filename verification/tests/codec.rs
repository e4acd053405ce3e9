//! Tests of the binary value codec: hex integers, step bytes and exact
//! decimals.

use dsiot::codec::{Decimal, ValueError, decode_int, decode_step, effective_step, encode_hex};

#[test]
fn hex2int_test() {
    let hex = "18".to_string();
    let result = decode_int(&hex);
    assert_eq!(result, Ok(24));
    let hex = "eeff".to_string();
    let result = decode_int(&hex);
    assert_eq!(result, Ok(-18));
    let hex = "12345600".to_string();
    let result = decode_int(&hex);
    assert_eq!(result, Ok(5649426));
}

#[test]
fn decode_int_rejects_malformed() {
    assert_eq!(decode_int(""), Err(ValueError::MalformedHex));
    assert_eq!(decode_int("1"), Err(ValueError::MalformedHex));
    assert_eq!(decode_int("123"), Err(ValueError::MalformedHex));
    assert_eq!(decode_int("1234567890"), Err(ValueError::MalformedHex));
    assert_eq!(decode_int("zz"), Err(ValueError::MalformedHex));
}

#[test]
fn decode_int_widths() {
    // One byte sign-extends from eight bits.
    assert_eq!(decode_int("7f"), Ok(127));
    assert_eq!(decode_int("80"), Ok(-128));
    assert_eq!(decode_int("ff"), Ok(-1));
    // Two bytes sign-extend from sixteen bits, little-endian.
    assert_eq!(decode_int("0080"), Ok(-32768));
    assert_eq!(decode_int("2600"), Ok(38));
    // Three bytes never read negative.
    assert_eq!(decode_int("ffffff"), Ok(16777215));
    // Four bytes read as a 32-bit word.
    assert_eq!(decode_int("ffffffff"), Ok(-1));
    // Uppercase digits are accepted.
    assert_eq!(decode_int("EEFF"), Ok(-18));
}

#[test]
fn decode_step_splits_nibbles() {
    // 0xF5: base 5, exponent -1, so the coefficient is 0.5.
    let c = decode_step(0xF5);
    assert_eq!(c, Decimal::new(5, -1));
    assert!(c.value_eq(Decimal::new(5, -1)));
    // 0x01: base 1, exponent 0.
    assert_eq!(decode_step(0x01), Decimal::new(1, 0));
    // 0xF1: base 1, exponent -1, so 0.1.
    assert_eq!(decode_step(0xF1), Decimal::new(1, -1));
    // 0x72: base 2, exponent 7.
    assert_eq!(decode_step(0x72), Decimal::new(2, 7));
}

#[test]
fn effective_step_is_one_for_zero_base() {
    assert!(effective_step(0x00).value_eq(Decimal::new(1, 0)));
    assert!(effective_step(0xF0).value_eq(Decimal::new(1, 0)));
    assert!(effective_step(0xF5).value_eq(Decimal::new(5, -1)));
}

#[test]
fn encode_hex_little_endian_lowercase() {
    assert_eq!(encode_hex(24, 1), "18");
    assert_eq!(encode_hex(-18, 2), "eeff");
    assert_eq!(encode_hex(5649426, 4), "12345600");
    assert_eq!(encode_hex(56, 2), "3800");
    assert_eq!(encode_hex(-1, 1), "ff");
    assert_eq!(encode_hex(0, 3), "000000");
}

#[test]
fn encode_then_decode_is_identity() {
    for k in [-128i64, -18, -1, 0, 1, 24, 127] {
        let s = encode_hex(k, 1);
        assert_eq!(decode_int(&s), Ok(k as i32));
    }
    for k in [-32768i64, -18, 0, 38, 32767] {
        let s = encode_hex(k, 2);
        assert_eq!(decode_int(&s), Ok(k as i32));
    }
    for k in [0i64, 5649426, 16777215] {
        let s = encode_hex(k, 3);
        assert_eq!(decode_int(&s), Ok(k as i32));
    }
    for k in [i32::MIN as i64, -1, 0, i32::MAX as i64] {
        let s = encode_hex(k, 4);
        assert_eq!(decode_int(&s), Ok(k as i32));
    }
}

#[test]
fn decimal_value_semantics() {
    // One number, two representations.
    assert!(Decimal::new(245, -1).value_eq(Decimal::new(2450, -2)));
    assert!(Decimal::new(5, -1).value_le(Decimal::new(1, 0)));
    assert_eq!(Decimal::new(245, -1).to_e8(), 24_5000_0000i128);
    assert_eq!(Decimal::from_int(-9).to_e8(), -9_0000_0000i128);
}
