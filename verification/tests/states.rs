use quecksilber::async_action_button::ActionState;
use quecksilber::event_timer::TimerMode;
use quecksilber::guarded_button::GuardState;
use quecksilber::indicator::IndicatorStatus;
use std::str::FromStr;

#[test]
fn action_state_roundtrip() {
    for state in [
        ActionState::Idle,
        ActionState::Pending,
        ActionState::Succeeded,
        ActionState::Failed,
    ] {
        let s = state.to_string();
        let parsed = ActionState::from_str(&s).unwrap();
        assert_eq!(parsed, state);
    }
}

#[test]
fn action_state_from_str_invalid() {
    assert!(ActionState::from_str("garbage").is_err());
}

#[test]
fn action_state_default_is_idle() {
    assert_eq!(ActionState::default(), ActionState::Idle);
}

#[test]
fn guard_state_roundtrip() {
    for state in [GuardState::Armed, GuardState::Confirming] {
        let s = state.to_string();
        let parsed = GuardState::from_str(&s).unwrap();
        assert_eq!(parsed, state);
    }
}

#[test]
fn guard_state_from_str_invalid() {
    assert!(GuardState::from_str("garbage").is_err());
}

#[test]
fn guard_state_default_is_armed() {
    assert_eq!(GuardState::default(), GuardState::Armed);
}

#[test]
fn indicator_status_display_roundtrip() {
    for status in [
        IndicatorStatus::Off,
        IndicatorStatus::Nominal,
        IndicatorStatus::Caution,
        IndicatorStatus::Alert,
    ] {
        let s = status.to_string();
        let parsed = IndicatorStatus::from_str(&s).unwrap();
        assert_eq!(parsed, status);
    }
}

#[test]
fn indicator_status_from_str_invalid() {
    let result = IndicatorStatus::from_str("garbage");
    assert!(result.is_err(), "Should fail to parse invalid status");
}

#[test]
fn indicator_status_default_is_off() {
    assert_eq!(IndicatorStatus::default(), IndicatorStatus::Off);
}

#[test]
fn timer_mode_roundtrip() {
    for mode in [TimerMode::CountUp, TimerMode::CountDown] {
        let s = mode.to_string();
        let parsed = TimerMode::from_str(&s).unwrap();
        assert_eq!(parsed, mode);
    }
}

#[test]
fn timer_mode_from_str_invalid() {
    assert!(TimerMode::from_str("garbage").is_err());
}

#[test]
fn state_names_are_variant_names() {
    assert_eq!(ActionState::Succeeded.to_string(), "Succeeded");
    assert_eq!(GuardState::Confirming.to_string(), "Confirming");
    assert_eq!(IndicatorStatus::Caution.to_string(), "Caution");
    assert_eq!(TimerMode::CountDown.to_string(), "CountDown");
}

#[test]
fn state_parse_is_case_sensitive() {
    assert!(ActionState::from_str("idle").is_err());
    assert!(IndicatorStatus::from_str("ALERT").is_err());
    assert!(TimerMode::from_str("").is_err());
    assert_eq!(GuardState::from_str("Armed"), Ok(GuardState::Armed));
}

#[test]
fn needle_tint_by_status() {
    assert!(!IndicatorStatus::Off.tints_needle());
    assert!(!IndicatorStatus::Nominal.tints_needle());
    assert!(IndicatorStatus::Caution.tints_needle());
    assert!(IndicatorStatus::Alert.tints_needle());
}
