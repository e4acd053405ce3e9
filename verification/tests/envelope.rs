//! Tests of response envelope validation.

use dsiot::property::{Item, Metadata, PropValue, Property};
use dsiot::response::{DaikinResponse, Response};
use std::marker::PhantomData;

fn entry(from: &str, code: u32) -> Response {
    let leaf = Property::Node(Item {
        name: "1234".to_string(),
        value: PropValue::String("ok".to_string()),
        metadata: Metadata::String,
        phantom: PhantomData,
    });
    Response { from: from.to_string(), content: Some(leaf), status_code: code }
}

#[test]
fn test_valid_status_code() {
    let entries = vec![entry("/dsiot/edge/adr_0100.dgc_status", 2000)];
    let response = DaikinResponse::from_entries(entries).expect("Failed to validate");
    assert_eq!(response.responses[0].status_code, 2000);
}

#[test]
fn test_invalid_status_code() {
    let entries = vec![entry("/dsiot/edge/adr_0100.dgc_status", 4041)];
    let result = DaikinResponse::from_entries(entries);
    assert!(result.is_err());
}

#[test]
fn one_bad_entry_rejects_the_whole_envelope() {
    let entries = vec![
        entry("/dsiot/edge/adr_0100.dgc_status", 2000),
        entry("/dsiot/edge/adr_0200.dgc_status", 4041),
        entry("/dsiot/edge.adp_i", 5000),
    ];
    let err = DaikinResponse::from_entries(entries).unwrap_err();
    // Exactly the failing entries are surfaced, in order.
    assert_eq!(err.failing.len(), 2);
    assert_eq!(err.failing[0].status_code, 4041);
    assert_eq!(err.failing[1].status_code, 5000);
}

#[test]
fn all_codes_of_the_accepted_band_pass() {
    let entries = vec![
        entry("/a", 2000),
        entry("/b", 2004),
        entry("/c", 2009),
    ];
    assert!(DaikinResponse::from_entries(entries).is_ok());
    // 200 itself reads 20 on the leading digits and fails.
    let result = DaikinResponse::from_entries(vec![entry("/a", 200)]);
    assert!(result.is_err());
}
