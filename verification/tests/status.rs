//! Tests of the device status snapshot: extraction from a response,
//! conversion to a write request, and the round trip between them.

use std::marker::PhantomData;

use dsiot::codec::Decimal;
use dsiot::info::DaikinInfo;
use dsiot::property::{Binary, BinaryStep, Item, Metadata, PropValue, Property};
use dsiot::response::{DaikinResponse, Response};
use dsiot::status::{DaikinStatus, extract_field};
use dsiot::types::{AutoModeWindSpeed, HorizontalDirection, Mode, VerticalDirection, WindSpeed};

fn step_leaf(name: &str, pv: &str, st: u8, mi: &str, mx: &str) -> Property {
    Property::Node(Item {
        name: name.to_string(),
        value: PropValue::String(pv.to_string()),
        metadata: Metadata::Binary(Binary::Step(BinaryStep {
            step: st,
            min: mi.to_string(),
            max: mx.to_string(),
        })),
        phantom: PhantomData,
    })
}

fn enum_leaf(name: &str, pv: &str, mx: &str) -> Property {
    Property::Node(Item {
        name: name.to_string(),
        value: PropValue::String(pv.to_string()),
        metadata: Metadata::Binary(Binary::Enum { max: mx.to_string() }),
        phantom: PhantomData,
    })
}

fn string_leaf(name: &str, pv: &str) -> Property {
    Property::Node(Item {
        name: name.to_string(),
        value: PropValue::String(pv.to_string()),
        metadata: Metadata::String,
        phantom: PhantomData,
    })
}

/// The main status block a healthy device reports.
fn main_tree() -> Property {
    let mut a002 = Property::new_tree("e_A002");
    a002.push(step_leaf("p_01", "00", 1, "00", "01"));

    let mut a00b = Property::new_tree("e_A00B");
    a00b.push(step_leaf("p_01", "14", 1, "f7", "27"));
    a00b.push(step_leaf("p_02", "32", 1, "19", "55"));

    let mut a001 = Property::new_tree("e_A001");
    a001.push(step_leaf("p_03", "3800", 241, "0000", "FF00"));

    let mut e3001 = Property::new_tree("e_3001");
    e3001.push(enum_leaf("p_01", "0200", "2F00"));
    e3001.push(step_leaf("p_02", "31", 245, "24", "40"));
    e3001.push(step_leaf("p_03", "32", 245, "1C", "3C"));
    e3001.push(step_leaf("p_1F", "00", 245, "F6", "0A"));
    e3001.push(enum_leaf("p_09", "0A00", "F80C"));
    e3001.push(enum_leaf("p_26", "0A00", "000C"));
    e3001.push(enum_leaf("p_05", "10000000", "3F808100"));
    e3001.push(enum_leaf("p_06", "100000", "FD8101"));

    let mut e1002 = Property::new_tree("e_1002");
    e1002.push(a002);
    e1002.push(a00b);
    e1002.push(a001);
    e1002.push(e3001);

    let mut root = Property::new_tree("dgc_status");
    root.push(e1002);
    root
}

/// The outdoor unit's block.
fn outdoor_tree() -> Property {
    let mut a00d = Property::new_tree("e_A00D");
    a00d.push(step_leaf("p_01", "2600", 245, "EEFF", "4E00"));
    let mut e1003 = Property::new_tree("e_1003");
    e1003.push(a00d);
    let mut root = Property::new_tree("dgc_status");
    root.push(e1003);
    root
}

fn status_response() -> DaikinResponse {
    DaikinResponse::from_entries(vec![
        Response {
            from: "/dsiot/edge/adr_0100.dgc_status".to_string(),
            content: Some(main_tree()),
            status_code: 2000,
        },
        Response {
            from: "/dsiot/edge/adr_0200.dgc_status".to_string(),
            content: Some(outdoor_tree()),
            status_code: 2000,
        },
    ])
    .expect("a healthy response validates")
}

fn leaf_value<'a>(root: &'a Property, path: &[&str]) -> &'a PropValue {
    let mut cur = root;
    for seg in path {
        cur = cur.find(seg).expect("path segment present");
    }
    match cur {
        Property::Node(item) => &item.value,
        Property::Tree { .. } => panic!("expected a leaf"),
    }
}

#[test]
fn status_getter() {
    let res = status_response();
    let status = DaikinStatus::from_response(&res);

    assert!(status.power.get_numeric().unwrap().value_eq(Decimal::new(0, 0)));
    assert!(status.current_temperature.get_numeric().unwrap().value_eq(Decimal::new(20, 0)));
    assert!(status.current_humidity.get_numeric().unwrap().value_eq(Decimal::new(50, 0)));
    assert!(status
        .current_outside_temperature
        .get_numeric()
        .unwrap()
        .value_eq(Decimal::new(19, 0)));
    assert_eq!(status.mode.get_enum(), Some(Mode::Cooling));
    assert!(status
        .target_cooling_temperature
        .get_numeric()
        .unwrap()
        .value_eq(Decimal::new(245, -1)));
    assert!(status
        .target_heating_temperature
        .get_numeric()
        .unwrap()
        .value_eq(Decimal::new(25, 0)));
    assert!(status
        .target_automatic_temperature
        .get_numeric()
        .unwrap()
        .value_eq(Decimal::new(0, 0)));
    assert_eq!(status.wind_speed.get_enum(), Some(WindSpeed::Auto));
    assert_eq!(status.automode_wind_speed.get_enum(), Some(AutoModeWindSpeed::Auto));
    assert_eq!(
        status.vertical_wind_direction.get_enum(),
        Some(VerticalDirection::Auto)
    );
    assert_eq!(
        status.horizontal_wind_direction.get_enum(),
        Some(HorizontalDirection::Auto)
    );
}

#[test]
fn status_setter() {
    let res = status_response();
    let mut status = DaikinStatus::from_response(&res);

    status.power.set_value(Decimal::new(1, 0)).unwrap();
    status.mode.set_value(Mode::Cooling).unwrap();
    status
        .target_cooling_temperature
        .set_value(Decimal::new(245, -1))
        .unwrap();
    status
        .target_heating_temperature
        .set_value(Decimal::new(25, 0))
        .unwrap();
    status
        .target_automatic_temperature
        .set_value(Decimal::new(0, 0))
        .unwrap();
    status
        .automode_wind_speed
        .set_value(AutoModeWindSpeed::Silent)
        .unwrap();
    status.wind_speed.set_value(WindSpeed::Lev4).unwrap();
    status
        .vertical_wind_direction
        .set_value(VerticalDirection::BottomMost)
        .unwrap();
    status
        .horizontal_wind_direction
        .set_value(HorizontalDirection::RightCenter)
        .unwrap();

    let req = status.to_request();
    assert_eq!(req.requests.len(), 1);
    assert_eq!(req.requests[0].op, 3);
    assert_eq!(req.requests[0].to, "/dsiot/edge/adr_0100.dgc_status");

    let pc = &req.requests[0].pc;
    let expect = [
        (vec!["e_1002", "e_A002", "p_01"], "01"),
        (vec!["e_1002", "e_3001", "p_01"], "0200"),
        (vec!["e_1002", "e_3001", "p_02"], "31"),
        (vec!["e_1002", "e_3001", "p_03"], "32"),
        (vec!["e_1002", "e_3001", "p_1F"], "00"),
        (vec!["e_1002", "e_3001", "p_09"], "0600"),
        (vec!["e_1002", "e_3001", "p_26"], "0b00"),
        (vec!["e_1002", "e_3001", "p_05"], "05000000"),
        (vec!["e_1002", "e_3001", "p_06"], "060000"),
    ];
    for (path, hex) in expect {
        match leaf_value(pc, &path) {
            PropValue::String(s) => assert_eq!(s, hex, "at {path:?}"),
            other => panic!("expected a hex string at {path:?}, got {other:?}"),
        }
    }
}

// Status, request, simulated re-parse, status: the nine written fields
// survive unchanged when nothing was modified in between.
#[test]
fn status_request_reparse_roundtrip() {
    let res = status_response();
    let status = DaikinStatus::from_response(&res);
    let req = status.clone().to_request();

    let entry = req.requests.into_iter().next().unwrap();
    let res2 = DaikinResponse::from_entries(vec![Response {
        from: entry.to,
        content: Some(entry.pc),
        status_code: 2000,
    }])
    .unwrap();
    let status2 = DaikinStatus::from_response(&res2);

    assert_eq!(status2.power.name, status.power.name);
    assert_eq!(status2.power.value, status.power.value);
    assert!(matches!(status2.power.metadata, Metadata::Undefined));
    assert_eq!(status2.mode.name, status.mode.name);
    assert_eq!(status2.mode.value, status.mode.value);
    assert_eq!(
        status2.target_cooling_temperature.value,
        status.target_cooling_temperature.value
    );
    assert_eq!(
        status2.target_heating_temperature.value,
        status.target_heating_temperature.value
    );
    assert_eq!(
        status2.target_automatic_temperature.value,
        status.target_automatic_temperature.value
    );
    assert_eq!(status2.wind_speed.value, status.wind_speed.value);
    assert_eq!(status2.automode_wind_speed.value, status.automode_wind_speed.value);
    assert_eq!(
        status2.vertical_wind_direction.value,
        status.vertical_wind_direction.value
    );
    assert_eq!(
        status2.horizontal_wind_direction.value,
        status.horizontal_wind_direction.value
    );

    // The sensor fields live on paths the write request does not carry.
    assert_eq!(status2.current_temperature.name, "");
    assert!(matches!(status2.current_temperature.value, PropValue::Null));
    assert_eq!(status2.current_outside_temperature.name, "");
}

#[test]
fn macros_get_prop() {
    let res = status_response();

    let p: Item<Decimal> = extract_field(
        &res,
        "/dsiot/edge/adr_0100.dgc_status",
        &["e_1002", "e_A001", "p_03"],
    );
    assert_eq!(p.name, "p_03");
    // 0x0038 is 56; under a 0.1 step it reads 5.6.
    assert!(p.get_numeric().unwrap().value_eq(Decimal::new(56, -1)));

    let p: Item<Decimal> = extract_field(&res, "/hoge", &["fuga", "piyo"]);
    assert_eq!(p.name, "");
    assert!(matches!(p.value, PropValue::Null));
    assert!(matches!(p.metadata, Metadata::Undefined));
}

#[test]
fn set_child_prop() {
    let item: Item<Decimal> = Item {
        name: "p_03".to_string(),
        value: PropValue::String("3800".to_string()),
        metadata: Metadata::Undefined,
        phantom: PhantomData,
    };
    let prop = Property::new_tree("dgc_status");
    let prop = prop.set_path(&["e_1002", "e_A001", "p_03"], item);

    match leaf_value(&prop, &["e_1002", "e_A001", "p_03"]) {
        PropValue::String(s) => assert_eq!(s, "3800"),
        other => panic!("expected the written hex string, got {other:?}"),
    }
}

#[test]
fn info_getter() {
    let mut adp_d = Property::new_tree("adp_d");
    adp_d.push(string_leaf("name", "display_name"));
    let mut adp_i = Property::new_tree("adp_i");
    adp_i.push(string_leaf("mac", "00005E005342"));
    adp_i.push(string_leaf("ver", "2_7_0"));
    adp_i.push(string_leaf("edid", "0000000001234567"));

    let res = DaikinResponse::from_entries(vec![
        Response {
            from: "/dsiot/edge.adp_d".to_string(),
            content: Some(adp_d),
            status_code: 2000,
        },
        Response {
            from: "/dsiot/edge.adp_i".to_string(),
            content: Some(adp_i),
            status_code: 2000,
        },
    ])
    .unwrap();

    let info = DaikinInfo::from_response(&res);
    assert_eq!(info.name(), Some("display_name".to_string()));
    assert_eq!(info.mac(), Some("00005E005342".to_string()));
    assert_eq!(info.version(), Some("2.7.0".to_string()));
    assert_eq!(info.edid(), Some(19088743));
}

#[test]
fn info_new_and_bad_edid() {
    let info = DaikinInfo::new(
        Some("ac".to_string()),
        None,
        Some("1_2_3".to_string()),
        Some("zz".to_string()),
    );
    assert_eq!(info.name(), Some("ac".to_string()));
    assert_eq!(info.mac(), None);
    assert_eq!(info.version(), Some("1.2.3".to_string()));
    assert_eq!(info.edid(), None);
}
