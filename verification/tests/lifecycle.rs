use tapoctl::config::{ClientConfig, SupportedDevice, default_address, default_port, default_timeout};
use tapoctl::error::ErrorKind;
use tapoctl::registry::{Device, DeviceRegistry};
use tapoctl::session::{
    SessionAction, SessionCoordinator, SessionStatus, TapoSessionStatusExt,
    MAX_SESSION_RETRIES, REPEATED_FAILURE_COOLDOWN_MILLIS, SESSION_VALIDITY_MILLIS,
};

#[test]
fn ten_failed_acquisitions_reach_repeated_failure() {
    let mut session = SessionCoordinator::new();
    let mut now: u64 = 1_000;
    for attempt in 0..MAX_SESSION_RETRIES {
        assert!(!matches!(session.plan_ensure_fresh(now), SessionAction::NoOp));
        session.apply_acquire_failure(now);
        if attempt < MAX_SESSION_RETRIES - 1 {
            assert_eq!(session.status, SessionStatus::Failure);
        }
        now += 1;
    }
    let last = now - 1;
    assert_eq!(session.status, SessionStatus::RepeatedFailure);
    assert_eq!(session.refresh_failure_count, MAX_SESSION_RETRIES);
    assert_eq!(session.next_session_action, last + REPEATED_FAILURE_COOLDOWN_MILLIS);
}

#[test]
fn eleventh_attempt_is_suppressed_until_cooldown_elapses() {
    let mut session = SessionCoordinator::new();
    for _ in 0..MAX_SESSION_RETRIES {
        session.apply_acquire_failure(5_000);
    }
    assert_eq!(session.status, SessionStatus::RepeatedFailure);
    let before = session;
    // Before the cooldown elapses nothing is attempted: status and count stay.
    assert!(matches!(
        session.plan_ensure_fresh(5_000 + REPEATED_FAILURE_COOLDOWN_MILLIS - 1),
        SessionAction::NoOp
    ));
    assert_eq!(session, before);
    // Once the cooldown has elapsed an acquisition attempt is permitted again.
    assert!(matches!(
        session.plan_ensure_fresh(5_000 + REPEATED_FAILURE_COOLDOWN_MILLIS),
        SessionAction::Acquire
    ));
}

#[test]
fn below_threshold_retry_is_permitted_immediately() {
    let mut session = SessionCoordinator::new();
    session.apply_acquire_failure(7_777);
    assert_eq!(session.status, SessionStatus::Failure);
    assert_eq!(session.refresh_failure_count, 1);
    assert!(matches!(session.plan_ensure_fresh(7_777), SessionAction::Acquire));
}

#[test]
fn successful_acquisition_resets_counters() {
    let mut session = SessionCoordinator::new();
    session.apply_acquire_failure(10);
    let changed = session.apply_acquire_success(50);
    assert!(changed);
    assert_eq!(session.status, SessionStatus::Authenticated);
    assert!(session.handle_present);
    assert_eq!(session.refresh_failure_count, 0);
    assert_eq!(session.next_session_action, 50 + SESSION_VALIDITY_MILLIS);
    assert!(matches!(session.plan_ensure_fresh(51), SessionAction::NoOp));
    assert!(matches!(
        session.plan_ensure_fresh(50 + SESSION_VALIDITY_MILLIS),
        SessionAction::Refresh
    ));
}

#[test]
fn failed_refresh_of_live_session_restarts_count_at_one() {
    let mut session = SessionCoordinator::new();
    session.apply_acquire_success(50);
    let next_before = session.next_session_action;
    let changed = session.apply_refresh_failure();
    assert!(changed);
    assert_eq!(session.status, SessionStatus::Failure);
    assert_eq!(session.refresh_failure_count, 1);
    // The next action stays: an immediate retry on the next access is allowed.
    assert_eq!(session.next_session_action, next_before);
    assert!(session.handle_present);
}

#[test]
fn unchanged_status_reports_no_auth_change() {
    let mut session = SessionCoordinator::new();
    assert!(session.apply_acquire_success(10));
    assert!(!session.apply_refresh_success(20));
    assert!(session.apply_refresh_failure());
    assert!(!session.apply_refresh_failure());
}

#[test]
fn forced_refresh_goes_through_the_handle_when_one_exists() {
    let mut session = SessionCoordinator::new();
    assert!(matches!(session.plan_force_refresh(), SessionAction::Acquire));
    session.apply_acquire_success(10);
    assert!(matches!(session.plan_force_refresh(), SessionAction::Refresh));
}

#[test]
fn session_status_wire_codes() {
    assert_eq!(SessionStatus::Authenticated.rpc(), 0);
    assert_eq!(SessionStatus::Failure.rpc(), 1);
    assert_eq!(SessionStatus::RepeatedFailure.rpc(), 2);
}

fn device(name: &str, model: SupportedDevice) -> Device {
    Device {
        name: String::from(name),
        address: String::from("10.0.0.7"),
        device_type: model,
        session: SessionCoordinator::new(),
    }
}

#[test]
fn registry_resolves_registered_names() {
    let mut registry = DeviceRegistry::new();
    registry.register(device("desk", SupportedDevice::L530)).unwrap();
    registry.register(device("shelf", SupportedDevice::Generic)).unwrap();
    assert_eq!(registry.len(), 2);
    let idx = registry.get_device_by_name(&String::from("shelf")).unwrap();
    assert_eq!(registry.devices[idx].name, "shelf");
}

#[test]
fn unknown_device_name_is_not_found() {
    let registry = DeviceRegistry::new();
    let err = registry.get_device_by_name(&String::from("nope")).unwrap_err();
    assert_eq!(err.kind, ErrorKind::NotFound);
}

#[test]
fn duplicate_registration_is_refused() {
    let mut registry = DeviceRegistry::new();
    registry.register(device("desk", SupportedDevice::L530)).unwrap();
    let err = registry.register(device("desk", SupportedDevice::L510)).unwrap_err();
    assert_eq!(err.kind, ErrorKind::InvalidArgument);
    assert_eq!(registry.len(), 1);
}

#[test]
fn summaries_carry_identity_and_status() {
    let mut registry = DeviceRegistry::new();
    registry.register(device("desk", SupportedDevice::L530)).unwrap();
    let mut lamp = device("lamp", SupportedDevice::L510);
    lamp.session.apply_acquire_success(5);
    registry.register(lamp).unwrap();
    let listing = registry.summaries();
    assert_eq!(listing.len(), 2);
    assert_eq!(listing[0].name, "desk");
    assert_eq!(listing[0].device_type, "L530");
    assert_eq!(listing[0].address, "10.0.0.7");
    assert_eq!(listing[0].status, 1);
    assert_eq!(listing[1].name, "lamp");
    assert_eq!(listing[1].status, 0);
}

#[test]
fn client_config_absent_without_overrides() {
    assert!(ClientConfig::from(None, None, None).is_none());
}

#[test]
fn client_config_fills_gaps_with_defaults() {
    let config = ClientConfig::from(Some(String::from("light.local")), None, None).unwrap();
    assert_eq!(config.address, "light.local");
    assert_eq!(config.port, 19191);
    assert!(!config.secure);
    let config = ClientConfig::from(None, Some(9000), Some(true)).unwrap();
    assert_eq!(config.address, "127.0.0.1");
    assert_eq!(config.port, 9000);
    assert!(config.secure);
}

#[test]
fn configuration_defaults() {
    assert_eq!(default_address(), "127.0.0.1");
    assert_eq!(default_port(), 19191);
    assert_eq!(default_timeout(), 10000);
}
