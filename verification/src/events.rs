use vstd::prelude::*;

use crate::rpc::{Device, InfoResponse};

verus! {

/// The kinds of events the service broadcasts to subscribers.
#[derive(Clone, Copy, Debug, PartialEq, Eq, Structural)]
pub enum EventType {
    /// A device's reported properties changed.
    DeviceStateChange,
    /// A device's session status changed.
    DeviceAuthChange,
}

/// The wire code of each event type.
pub open spec fn spec_event_code(t: EventType) -> i32 {
    match t {
        EventType::DeviceStateChange => 0,
        EventType::DeviceAuthChange => 1,
    }
}

impl EventType {
    /// The wire code of this event type.
    pub fn code(&self) -> (r: i32)
        ensures
            r == spec_event_code(*self),
    {
        match self {
            EventType::DeviceStateChange => 0,
            EventType::DeviceAuthChange => 1,
        }
    }

    /// The event type a wire code stands for, if any.
    pub fn from_code(code: i32) -> (r: Option<EventType>)
        ensures
            r == Some(EventType::DeviceStateChange) <==> code == 0,
            r == Some(EventType::DeviceAuthChange) <==> code == 1,
            r is None <==> !(code == 0 || code == 1),
    {
        if code == 0 {
            Some(EventType::DeviceStateChange)
        } else if code == 1 {
            Some(EventType::DeviceAuthChange)
        } else {
            None
        }
    }
}

/// One broadcast event: a state change carrying the new snapshot, or an
/// auth change carrying the device's public identity and new status.
#[derive(Clone, Debug)]
pub enum Event {
    StateChange(InfoResponse),
    AuthChange(Device),
}

impl Event {
    /// The type of this event.
    pub open spec fn spec_event_type(self) -> EventType {
        match self {
            Event::StateChange(_) => EventType::DeviceStateChange,
            Event::AuthChange(_) => EventType::DeviceAuthChange,
        }
    }

    pub fn event_type(&self) -> (r: EventType)
        ensures
            r == self.spec_event_type(),
    {
        match self {
            Event::StateChange(_) => EventType::DeviceStateChange,
            Event::AuthChange(_) => EventType::DeviceAuthChange,
        }
    }
}

/// Whether a subscriber with the given type filter receives an event with the
/// given wire code: an empty filter admits every event, otherwise exactly the
/// listed codes pass.
pub open spec fn spec_filter_matches(types: Seq<i32>, code: i32) -> bool {
    types.len() == 0 || types.contains(code)
}

/// Whether an event with wire code `code` passes the subscriber filter
/// `types`.
pub fn filter_matches(types: &Vec<i32>, code: i32) -> (r: bool)
    ensures
        r == spec_filter_matches(types@, code),
{
    if types.len() == 0 {
        return true;
    }
    let mut i: usize = 0;
    while i < types.len()
        invariant
            i <= types@.len(),
            forall|j: int| 0 <= j < i ==> types@[j] != code,
        decreases types@.len() - i,
    {
        if types[i] == code {
            return true;
        }
        i += 1;
    }
    false
}

/// What a subscriber's forwarding task observed on its shared broadcast
/// receiver.
#[derive(Clone, Debug)]
pub enum RecvOutcome {
    /// An event arrived.
    Received(Event),
    /// The subscriber overran the shared backlog and lost events.
    Lagged,
    /// The broadcast channel was closed.
    Closed,
}

/// What a subscriber's forwarding task must do next.
#[derive(Clone, Debug)]
pub enum SubscriberAction {
    /// The event passes the filter: forward it to the subscriber's own queue.
    Forward(Event),
    /// The event is filtered out: drop it and keep receiving.
    Skip,
    /// The stream is torn down: report the failure and exit, rather than
    /// silently skipping or reordering events.
    Terminate,
}

impl SubscriberAction {
    /// The action taken for one receive outcome under the given filter.
    pub open spec fn spec_step(types: Seq<i32>, outcome: RecvOutcome) -> SubscriberAction {
        match outcome {
            RecvOutcome::Received(event) => {
                if spec_filter_matches(types, spec_event_code(event.spec_event_type())) {
                    SubscriberAction::Forward(event)
                } else {
                    SubscriberAction::Skip
                }
            },
            RecvOutcome::Lagged => SubscriberAction::Terminate,
            RecvOutcome::Closed => SubscriberAction::Terminate,
        }
    }
}

/// Decide what a subscriber's forwarding task does with one receive outcome:
/// forward a matching event, drop a filtered one, and terminate the stream on
/// lag or closure.
pub fn subscriber_step(types: &Vec<i32>, outcome: RecvOutcome) -> (r: SubscriberAction)
    ensures
        r == SubscriberAction::spec_step(types@, outcome),
{
    match outcome {
        RecvOutcome::Received(event) => {
            let code = event.event_type().code();
            if filter_matches(types, code) {
                SubscriberAction::Forward(event)
            } else {
                SubscriberAction::Skip
            }
        },
        RecvOutcome::Lagged => SubscriberAction::Terminate,
        RecvOutcome::Closed => SubscriberAction::Terminate,
    }
}

/// A subscriber filtered to one event type never receives events of another
/// type, and an unfiltered subscriber receives every event.
pub proof fn lemma_event_filtering(only: EventType, event: Event)
    ensures
        event.spec_event_type() == only ==> SubscriberAction::spec_step(
            seq![spec_event_code(only)],
            RecvOutcome::Received(event),
        ) == SubscriberAction::Forward(event),
        event.spec_event_type() != only ==> SubscriberAction::spec_step(
            seq![spec_event_code(only)],
            RecvOutcome::Received(event),
        ) == SubscriberAction::Skip,
        SubscriberAction::spec_step(Seq::<i32>::empty(), RecvOutcome::Received(event))
            == SubscriberAction::Forward(event),
{
    let filter = seq![spec_event_code(only)];
    let code = spec_event_code(event.spec_event_type());
    if event.spec_event_type() == only {
        assert(filter.contains(code)) by {
            assert(filter[0] == code);
        }
    } else {
        assert(!filter.contains(code)) by {
            assert(forall|j: int| 0 <= j < filter.len() ==> filter[j] != code);
        }
    }
}

} // verus!
