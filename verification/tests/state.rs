//! Tests of the device state machine: power and mode transitions.

use dsiot::state::{DeviceState, PowerState, StateTransition};
use dsiot::types::Mode;

fn make_test_state(power: PowerState, mode: Mode) -> DeviceState {
    DeviceState::new(power, mode)
}

#[test]
fn test_power_off_to_on() {
    let state = make_test_state(PowerState::Off, Mode::Cooling);
    let result = state.transition(Some(PowerState::On), None);
    assert!(result.is_ok());
    let new_state = result.unwrap();
    assert_eq!(new_state.power, PowerState::On);
    assert_eq!(new_state.mode, Mode::Cooling);
}

#[test]
fn test_power_on_to_off() {
    let state = make_test_state(PowerState::On, Mode::Heating);
    let result = state.transition(Some(PowerState::Off), None);
    assert!(result.is_ok());
    let new_state = result.unwrap();
    assert_eq!(new_state.power, PowerState::Off);
    assert_eq!(new_state.mode, Mode::Heating);
}

#[test]
fn test_mode_change_when_on() {
    let state = make_test_state(PowerState::On, Mode::Cooling);
    let result = state.transition(None, Some(Mode::Heating));
    assert!(result.is_ok());
    let new_state = result.unwrap();
    assert_eq!(new_state.power, PowerState::On);
    assert_eq!(new_state.mode, Mode::Heating);
}

#[test]
fn test_mode_change_when_off_allowed() {
    let state = make_test_state(PowerState::Off, Mode::Cooling);
    let result = state.transition(None, Some(Mode::Heating));
    assert!(result.is_ok());
    let new_state = result.unwrap();
    assert_eq!(new_state.power, PowerState::Off);
    assert_eq!(new_state.mode, Mode::Heating);
}

#[test]
fn test_power_on_and_mode_change() {
    let state = make_test_state(PowerState::Off, Mode::Cooling);
    let result = state.transition(Some(PowerState::On), Some(Mode::Auto));
    assert!(result.is_ok());
    let new_state = result.unwrap();
    assert_eq!(new_state.power, PowerState::On);
    assert_eq!(new_state.mode, Mode::Auto);
}

#[test]
fn test_power_off_and_mode_change_allowed() {
    let state = make_test_state(PowerState::On, Mode::Cooling);
    let result = state.transition(Some(PowerState::Off), Some(Mode::Heating));
    assert!(result.is_ok());
    let new_state = result.unwrap();
    assert_eq!(new_state.power, PowerState::Off);
    assert_eq!(new_state.mode, Mode::Heating);
}

#[test]
fn test_state_transition_builder() {
    let state = make_test_state(PowerState::Off, Mode::Fan);

    let result = StateTransition::new().turn_on().apply(&state);
    assert!(result.is_ok());
    assert_eq!(result.unwrap().power, PowerState::On);

    let result = StateTransition::new()
        .turn_on()
        .mode(Mode::Cooling)
        .apply(&state);
    assert!(result.is_ok());
    let new_state = result.unwrap();
    assert_eq!(new_state.power, PowerState::On);
    assert_eq!(new_state.mode, Mode::Cooling);
}

#[test]
fn test_no_change() {
    let state = make_test_state(PowerState::On, Mode::Cooling);
    let result = state.transition(None, None);
    assert!(result.is_ok());
    assert_eq!(result.unwrap(), state);
}
