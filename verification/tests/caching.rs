use tapoctl::cache::{State, INFO_VALIDITY_MILLIS};
use tapoctl::events::{
    filter_matches, subscriber_step, Event, EventType, RecvOutcome, SubscriberAction,
};
use tapoctl::rpc::{Device, InfoResponse};

fn snapshot(name: &str, brightness: u32, on_time: Option<u64>) -> InfoResponse {
    InfoResponse {
        name: String::from(name),
        brightness: Some(brightness),
        on_time,
        device_on: Some(true),
        ..InfoResponse::empty()
    }
}

#[test]
fn optimistic_write_is_idempotent() {
    let mut cache = State::new(1);
    let info = snapshot("desk", 80, Some(60));
    let first = cache.update_info_optimistically(0, info.clone(), 1_000);
    assert!(matches!(first, Some(Event::StateChange(_))));
    // An identical snapshot written again emits nothing and stores nothing.
    let second = cache.update_info_optimistically(0, info.clone(), 2_000);
    assert!(second.is_none());
    let third = cache.update_info_optimistically(0, info, 3_000);
    assert!(third.is_none());
}

#[test]
fn changed_snapshot_emits_again() {
    let mut cache = State::new(1);
    cache.update_info_optimistically(0, snapshot("desk", 80, Some(60)), 1_000);
    let event = cache.update_info_optimistically(0, snapshot("desk", 90, Some(60)), 2_000);
    match event {
        Some(Event::StateChange(info)) => assert_eq!(info.brightness, Some(90)),
        _ => panic!("expected a state-change event"),
    }
}

#[test]
fn fresh_read_extrapolates_on_time() {
    let mut cache = State::new(1);
    cache.store_fetched(0, snapshot("desk", 80, Some(60)), 1_000, false);
    let read = cache.read(0, 1_000 + 5_000).unwrap();
    assert_eq!(read.on_time, Some(65));
    assert_eq!(read.brightness, Some(80));
    assert_eq!(read.name, "desk");
}

#[test]
fn read_at_window_end_forces_fetch() {
    let mut cache = State::new(1);
    cache.store_fetched(0, snapshot("desk", 80, Some(60)), 1_000, false);
    assert!(cache.read(0, 1_000 + INFO_VALIDITY_MILLIS - 1).is_some());
    assert!(cache.read(0, 1_000 + INFO_VALIDITY_MILLIS).is_none());
    assert!(cache.read(0, 1_000 + INFO_VALIDITY_MILLIS + 5).is_none());
}

#[test]
fn empty_slot_reads_nothing() {
    let cache = State::new(2);
    assert!(cache.read(0, 50).is_none());
    assert!(cache.read(1, 50).is_none());
}

#[test]
fn missing_on_time_stays_missing_under_extrapolation() {
    let mut cache = State::new(1);
    cache.store_fetched(0, snapshot("desk", 80, None), 1_000, false);
    let read = cache.read(0, 20_000).unwrap();
    assert_eq!(read.on_time, None);
}

#[test]
fn store_fetched_emits_only_when_asked() {
    let mut cache = State::new(1);
    let silent = cache.store_fetched(0, snapshot("desk", 80, Some(1)), 1_000, false);
    assert!(silent.is_none());
    let loud = cache.store_fetched(0, snapshot("desk", 81, Some(1)), 2_000, true);
    assert!(matches!(loud, Some(Event::StateChange(_))));
}

fn auth_event() -> Event {
    Event::AuthChange(Device {
        name: String::from("desk"),
        device_type: String::from("L530"),
        address: String::from("10.0.0.7"),
        status: 1,
    })
}

fn state_event() -> Event {
    Event::StateChange(snapshot("desk", 80, None))
}

#[test]
fn auth_filtered_subscriber_never_sees_state_changes() {
    let filter = vec![EventType::DeviceAuthChange.code()];
    let action = subscriber_step(&filter, RecvOutcome::Received(state_event()));
    assert!(matches!(action, SubscriberAction::Skip));
    let action = subscriber_step(&filter, RecvOutcome::Received(auth_event()));
    assert!(matches!(action, SubscriberAction::Forward(Event::AuthChange(_))));
}

#[test]
fn state_filtered_subscriber_never_sees_auth_changes() {
    let filter = vec![EventType::DeviceStateChange.code()];
    let action = subscriber_step(&filter, RecvOutcome::Received(auth_event()));
    assert!(matches!(action, SubscriberAction::Skip));
    let action = subscriber_step(&filter, RecvOutcome::Received(state_event()));
    assert!(matches!(action, SubscriberAction::Forward(Event::StateChange(_))));
}

#[test]
fn unfiltered_subscriber_receives_both() {
    let filter: Vec<i32> = vec![];
    assert!(matches!(
        subscriber_step(&filter, RecvOutcome::Received(auth_event())),
        SubscriberAction::Forward(_)
    ));
    assert!(matches!(
        subscriber_step(&filter, RecvOutcome::Received(state_event())),
        SubscriberAction::Forward(_)
    ));
}

#[test]
fn lagged_or_closed_subscriber_is_terminated() {
    let filter: Vec<i32> = vec![];
    assert!(matches!(subscriber_step(&filter, RecvOutcome::Lagged), SubscriberAction::Terminate));
    assert!(matches!(subscriber_step(&filter, RecvOutcome::Closed), SubscriberAction::Terminate));
}

#[test]
fn filter_matching_by_code() {
    assert!(filter_matches(&vec![], 0));
    assert!(filter_matches(&vec![0, 1], 1));
    assert!(!filter_matches(&vec![1], 0));
}

#[test]
fn event_type_codes_round_trip() {
    assert_eq!(EventType::DeviceStateChange.code(), 0);
    assert_eq!(EventType::DeviceAuthChange.code(), 1);
    assert_eq!(EventType::from_code(0), Some(EventType::DeviceStateChange));
    assert_eq!(EventType::from_code(1), Some(EventType::DeviceAuthChange));
    assert_eq!(EventType::from_code(7), None);
}

#[test]
fn event_reports_its_type() {
    assert_eq!(state_event().event_type(), EventType::DeviceStateChange);
    assert_eq!(auth_event().event_type(), EventType::DeviceAuthChange);
}

#[test]
fn snapshot_equality_is_field_by_field() {
    let a = snapshot("desk", 80, Some(60));
    let mut b = a.duplicate();
    assert!(a.equals(&b));
    b.brightness = Some(81);
    assert!(!a.equals(&b));
    let mut c = a.duplicate();
    c.name = String::from("shelf");
    assert!(!a.equals(&c));
}
