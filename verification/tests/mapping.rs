//! Tests of the semantic mapping tables: mode projections, fan speed
//! scales and the swing flag.

use dsiot::mapping::fan::{
    self, FanSpeed, fan_speed_to_auto_mode, fan_speed_to_speed, speed_to_fan_speed,
};
use dsiot::mapping::{mode, swing};
use dsiot::types::{AutoModeWindSpeed, HorizontalDirection, Mode, VerticalDirection, WindSpeed};

#[test]
fn mapping_test_to_current_state() {
    assert_eq!(mode::to_current_state(Some(Mode::Fan)), 0);
    assert_eq!(mode::to_current_state(Some(Mode::Dehumidify)), 1);
    assert_eq!(mode::to_current_state(Some(Mode::Heating)), 2);
    assert_eq!(mode::to_current_state(Some(Mode::Cooling)), 3);
    assert_eq!(mode::to_current_state(Some(Mode::Auto)), 0);
    assert_eq!(mode::to_current_state(None), 0);
}

#[test]
fn mapping_test_to_target_state() {
    assert_eq!(mode::to_target_state(Some(Mode::Auto)), Some(0));
    assert_eq!(mode::to_target_state(Some(Mode::Heating)), Some(1));
    assert_eq!(mode::to_target_state(Some(Mode::Cooling)), Some(2));
    assert_eq!(mode::to_target_state(Some(Mode::Fan)), None);
    assert_eq!(mode::to_target_state(Some(Mode::Dehumidify)), None);
    assert_eq!(mode::to_target_state(None), None);
}

#[test]
fn mapping_test_from_target_state() {
    assert_eq!(mode::from_target_state(0), Some(Mode::Auto));
    assert_eq!(mode::from_target_state(1), Some(Mode::Heating));
    assert_eq!(mode::from_target_state(2), Some(Mode::Cooling));
    assert_eq!(mode::from_target_state(3), None);
    assert_eq!(mode::from_target_state(255), None);
}

#[test]
fn mapping_test_roundtrip() {
    for state in 0..=2 {
        let m = mode::from_target_state(state);
        assert_eq!(mode::to_target_state(m), Some(state));
    }
}

#[test]
fn test_speed_to_fan_speed() {
    assert_eq!(
        speed_to_fan_speed(Some(WindSpeed::Silent)),
        Some(FanSpeed::manual(0))
    );
    assert_eq!(
        speed_to_fan_speed(Some(WindSpeed::Lev1)),
        Some(FanSpeed::manual(20))
    );
    assert_eq!(
        speed_to_fan_speed(Some(WindSpeed::Lev2)),
        Some(FanSpeed::manual(40))
    );
    assert_eq!(
        speed_to_fan_speed(Some(WindSpeed::Lev3)),
        Some(FanSpeed::manual(60))
    );
    assert_eq!(
        speed_to_fan_speed(Some(WindSpeed::Lev4)),
        Some(FanSpeed::manual(80))
    );
    assert_eq!(
        speed_to_fan_speed(Some(WindSpeed::Lev5)),
        Some(FanSpeed::manual(100))
    );
    assert_eq!(speed_to_fan_speed(Some(WindSpeed::Auto)), Some(FanSpeed::auto()));
    assert_eq!(speed_to_fan_speed(Some(WindSpeed::Unknown)), None);
    assert_eq!(speed_to_fan_speed(None), None);
}

#[test]
fn test_fan_speed_to_speed() {
    assert_eq!(fan_speed_to_speed(&FanSpeed::manual(0)), WindSpeed::Silent);
    assert_eq!(fan_speed_to_speed(&FanSpeed::manual(9)), WindSpeed::Silent);
    assert_eq!(fan_speed_to_speed(&FanSpeed::manual(10)), WindSpeed::Lev1);
    assert_eq!(fan_speed_to_speed(&FanSpeed::manual(29)), WindSpeed::Lev1);
    assert_eq!(fan_speed_to_speed(&FanSpeed::manual(30)), WindSpeed::Lev2);
    assert_eq!(fan_speed_to_speed(&FanSpeed::manual(50)), WindSpeed::Lev3);
    assert_eq!(fan_speed_to_speed(&FanSpeed::manual(70)), WindSpeed::Lev4);
    assert_eq!(fan_speed_to_speed(&FanSpeed::manual(90)), WindSpeed::Lev5);
    assert_eq!(fan_speed_to_speed(&FanSpeed::manual(100)), WindSpeed::Lev5);
    assert_eq!(fan_speed_to_speed(&FanSpeed::auto()), WindSpeed::Auto);
}

#[test]
fn test_fan_speed_to_auto_mode() {
    assert_eq!(
        fan_speed_to_auto_mode(&FanSpeed::manual(0)),
        AutoModeWindSpeed::Silent
    );
    assert_eq!(
        fan_speed_to_auto_mode(&FanSpeed::manual(49)),
        AutoModeWindSpeed::Silent
    );
    assert_eq!(
        fan_speed_to_auto_mode(&FanSpeed::manual(50)),
        AutoModeWindSpeed::Auto
    );
    assert_eq!(
        fan_speed_to_auto_mode(&FanSpeed::manual(100)),
        AutoModeWindSpeed::Auto
    );
    assert_eq!(fan_speed_to_auto_mode(&FanSpeed::auto()), AutoModeWindSpeed::Auto);
}

#[test]
fn test_roundtrip_fan_speed() {
    let test_cases = [
        (0, WindSpeed::Silent),
        (20, WindSpeed::Lev1),
        (40, WindSpeed::Lev2),
        (60, WindSpeed::Lev3),
        (80, WindSpeed::Lev4),
        (100, WindSpeed::Lev5),
    ];
    for (percent, expected_speed) in test_cases {
        let fan_speed = FanSpeed::manual(percent);
        assert_eq!(fan_speed_to_speed(&fan_speed), expected_speed);
    }

    assert_eq!(fan_speed_to_speed(&FanSpeed::auto()), WindSpeed::Auto);
}

#[test]
fn mapping_test_speed_to_scale() {
    assert_eq!(fan::speed_to_scale(Some(WindSpeed::Silent)), Some(1));
    assert_eq!(fan::speed_to_scale(Some(WindSpeed::Lev1)), Some(2));
    assert_eq!(fan::speed_to_scale(Some(WindSpeed::Lev2)), Some(3));
    assert_eq!(fan::speed_to_scale(Some(WindSpeed::Lev3)), Some(4));
    assert_eq!(fan::speed_to_scale(Some(WindSpeed::Lev4)), Some(5));
    assert_eq!(fan::speed_to_scale(Some(WindSpeed::Lev5)), Some(6));
    assert_eq!(fan::speed_to_scale(Some(WindSpeed::Auto)), Some(7));
    assert_eq!(fan::speed_to_scale(Some(WindSpeed::Unknown)), None);
    assert_eq!(fan::speed_to_scale(None), None);
}

#[test]
fn mapping_test_scale_to_speed() {
    assert_eq!(fan::scale_to_speed(1), WindSpeed::Silent);
    assert_eq!(fan::scale_to_speed(2), WindSpeed::Lev1);
    assert_eq!(fan::scale_to_speed(3), WindSpeed::Lev2);
    assert_eq!(fan::scale_to_speed(4), WindSpeed::Lev3);
    assert_eq!(fan::scale_to_speed(5), WindSpeed::Lev4);
    assert_eq!(fan::scale_to_speed(6), WindSpeed::Lev5);
    assert_eq!(fan::scale_to_speed(7), WindSpeed::Auto);
    assert_eq!(fan::scale_to_speed(0), WindSpeed::Auto);
    assert_eq!(fan::scale_to_speed(100), WindSpeed::Auto);
}

#[test]
fn mapping_test_scale_to_auto_mode() {
    assert_eq!(fan::scale_to_auto_mode(0), AutoModeWindSpeed::Silent);
    assert_eq!(fan::scale_to_auto_mode(49), AutoModeWindSpeed::Silent);
    assert_eq!(fan::scale_to_auto_mode(50), AutoModeWindSpeed::Auto);
    assert_eq!(fan::scale_to_auto_mode(100), AutoModeWindSpeed::Auto);
}

#[test]
fn test_homekit_roundtrip() {
    let speeds = [
        WindSpeed::Silent,
        WindSpeed::Lev1,
        WindSpeed::Lev2,
        WindSpeed::Lev3,
        WindSpeed::Lev4,
        WindSpeed::Lev5,
        WindSpeed::Auto,
    ];
    for speed in speeds {
        let scale = fan::speed_to_scale(Some(speed.clone())).unwrap();
        assert_eq!(fan::scale_to_speed(scale), speed);
    }
}

#[test]
fn test_to_enabled() {
    assert!(swing::to_enabled(Some(VerticalDirection::Swing)));
    assert!(!swing::to_enabled(Some(VerticalDirection::Auto)));
    assert!(!swing::to_enabled(Some(VerticalDirection::Center)));
    assert!(!swing::to_enabled(None));
}

#[test]
fn test_from_enabled() {
    assert_eq!(
        swing::from_enabled(true),
        (VerticalDirection::Swing, HorizontalDirection::Swing)
    );
    assert_eq!(
        swing::from_enabled(false),
        (VerticalDirection::Auto, HorizontalDirection::Auto)
    );
}

#[test]
fn mode_mapping_test_to_current_state() {
    assert_eq!(dsiot::mode_mapping::to_current_state(Some(Mode::Fan)), 0);
    assert_eq!(dsiot::mode_mapping::to_current_state(Some(Mode::Dehumidify)), 1);
    assert_eq!(dsiot::mode_mapping::to_current_state(Some(Mode::Heating)), 2);
    assert_eq!(dsiot::mode_mapping::to_current_state(Some(Mode::Cooling)), 3);
    assert_eq!(dsiot::mode_mapping::to_current_state(Some(Mode::Auto)), 0);
    assert_eq!(dsiot::mode_mapping::to_current_state(None), 0);
}

#[test]
fn mode_mapping_test_to_target_state() {
    assert_eq!(dsiot::mode_mapping::to_target_state(Some(Mode::Auto)), Some(0));
    assert_eq!(dsiot::mode_mapping::to_target_state(Some(Mode::Heating)), Some(1));
    assert_eq!(dsiot::mode_mapping::to_target_state(Some(Mode::Cooling)), Some(2));
    assert_eq!(dsiot::mode_mapping::to_target_state(Some(Mode::Fan)), None);
    assert_eq!(dsiot::mode_mapping::to_target_state(Some(Mode::Dehumidify)), None);
    assert_eq!(dsiot::mode_mapping::to_target_state(None), None);
}

#[test]
fn mode_mapping_test_from_target_state() {
    assert_eq!(dsiot::mode_mapping::from_target_state(0), Some(Mode::Auto));
    assert_eq!(dsiot::mode_mapping::from_target_state(1), Some(Mode::Heating));
    assert_eq!(dsiot::mode_mapping::from_target_state(2), Some(Mode::Cooling));
    assert_eq!(dsiot::mode_mapping::from_target_state(3), None);
    assert_eq!(dsiot::mode_mapping::from_target_state(255), None);
}

#[test]
fn mode_mapping_test_roundtrip() {
    for state in 0..=2 {
        let m = dsiot::mode_mapping::from_target_state(state);
        assert_eq!(dsiot::mode_mapping::to_target_state(m), Some(state));
    }
}

#[test]
fn fan_mapping_test_speed_to_scale() {
    assert_eq!(dsiot::fan_mapping::speed_to_scale(Some(WindSpeed::Silent)), Some(1));
    assert_eq!(dsiot::fan_mapping::speed_to_scale(Some(WindSpeed::Lev1)), Some(2));
    assert_eq!(dsiot::fan_mapping::speed_to_scale(Some(WindSpeed::Lev2)), Some(3));
    assert_eq!(dsiot::fan_mapping::speed_to_scale(Some(WindSpeed::Lev3)), Some(4));
    assert_eq!(dsiot::fan_mapping::speed_to_scale(Some(WindSpeed::Lev4)), Some(5));
    assert_eq!(dsiot::fan_mapping::speed_to_scale(Some(WindSpeed::Lev5)), Some(6));
    assert_eq!(dsiot::fan_mapping::speed_to_scale(Some(WindSpeed::Auto)), Some(7));
    assert_eq!(dsiot::fan_mapping::speed_to_scale(Some(WindSpeed::Unknown)), None);
    assert_eq!(dsiot::fan_mapping::speed_to_scale(None), None);
}

#[test]
fn fan_mapping_test_scale_to_speed() {
    assert_eq!(dsiot::fan_mapping::scale_to_speed(1), WindSpeed::Silent);
    assert_eq!(dsiot::fan_mapping::scale_to_speed(2), WindSpeed::Lev1);
    assert_eq!(dsiot::fan_mapping::scale_to_speed(3), WindSpeed::Lev2);
    assert_eq!(dsiot::fan_mapping::scale_to_speed(4), WindSpeed::Lev3);
    assert_eq!(dsiot::fan_mapping::scale_to_speed(5), WindSpeed::Lev4);
    assert_eq!(dsiot::fan_mapping::scale_to_speed(6), WindSpeed::Lev5);
    assert_eq!(dsiot::fan_mapping::scale_to_speed(7), WindSpeed::Auto);
    assert_eq!(dsiot::fan_mapping::scale_to_speed(0), WindSpeed::Auto);
    assert_eq!(dsiot::fan_mapping::scale_to_speed(100), WindSpeed::Auto);
}

#[test]
fn fan_mapping_test_scale_to_auto_mode() {
    assert_eq!(dsiot::fan_mapping::scale_to_auto_mode(0), AutoModeWindSpeed::Silent);
    assert_eq!(dsiot::fan_mapping::scale_to_auto_mode(49), AutoModeWindSpeed::Silent);
    assert_eq!(dsiot::fan_mapping::scale_to_auto_mode(50), AutoModeWindSpeed::Auto);
    assert_eq!(dsiot::fan_mapping::scale_to_auto_mode(100), AutoModeWindSpeed::Auto);
}

#[test]
fn fan_mapping_test_roundtrip() {
    let speeds = [
        WindSpeed::Silent,
        WindSpeed::Lev1,
        WindSpeed::Lev2,
        WindSpeed::Lev3,
        WindSpeed::Lev4,
        WindSpeed::Lev5,
        WindSpeed::Auto,
    ];
    for speed in speeds {
        let scale = dsiot::fan_mapping::speed_to_scale(Some(speed)).unwrap();
        assert_eq!(dsiot::fan_mapping::scale_to_speed(scale), speed);
    }
}

#[test]
fn fan_mapping_constraints_scale() {
    let c = dsiot::fan_mapping::fan_speed_constraints();
    assert!(c.min.value_eq(dsiot::codec::Decimal::new(0, 0)));
    assert!(c.max.value_eq(dsiot::codec::Decimal::new(7, 0)));
    assert!(c.step.value_eq(dsiot::codec::Decimal::new(1, 0)));
}
