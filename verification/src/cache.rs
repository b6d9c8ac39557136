use vstd::prelude::*;

use crate::events::Event;
use crate::rpc::InfoResponse;
use crate::session::{spec_sat_add, sat_add};

verus! {

/// How long a cached snapshot stays valid before a device is queried again.
pub const INFO_VALIDITY_MILLIS: u64 = 30 * 1000;

/// One cached snapshot together with the moment it was created.
#[derive(Clone, Debug)]
pub struct DeviceInfo {
    pub response: InfoResponse,
    pub created: u64,
}

/// The milliseconds elapsed from `created` to `now`; zero when the clock
/// reads earlier than the snapshot.
pub open spec fn spec_elapsed(created: u64, now: u64) -> u64 {
    if now >= created {
        (now - created) as u64
    } else {
        0
    }
}

/// A cached snapshot as it is handed out at time `now`: the on-time grows by
/// the elapsed wall-clock seconds, everything else is reported as stored.
pub open spec fn spec_extrapolate(entry: DeviceInfo, now: u64) -> InfoResponse {
    InfoResponse {
        on_time: match entry.response.on_time {
            Some(t) => Some(spec_sat_add(t, spec_elapsed(entry.created, now) / 1000)),
            None => None,
        },
        ..entry.response
    }
}

/// Whether a cache slot holds a snapshot younger than the validity window at
/// time `now`.
pub open spec fn spec_entry_fresh(entry: Option<DeviceInfo>, now: u64) -> bool {
    &&& entry is Some
    &&& spec_elapsed(entry->0.created, now) < INFO_VALIDITY_MILLIS
}

/// What a read of a cache slot returns at time `now`: the extrapolated
/// snapshot while the slot is fresh, nothing once it is missing or expired.
pub open spec fn spec_entry_read(entry: Option<DeviceInfo>, now: u64) -> Option<InfoResponse> {
    if spec_entry_fresh(entry, now) {
        Some(spec_extrapolate(entry->0, now))
    } else {
        None
    }
}

/// Whether an optimistic write of `response` into a slot is a no-op: the slot
/// already holds an identical snapshot.
pub open spec fn spec_write_is_noop(entry: Option<DeviceInfo>, response: InfoResponse) -> bool {
    entry is Some && entry->0.response.matches(response)
}

/// A cache slot after an optimistic write at time `now`.
pub open spec fn spec_write_optimistic(
    entry: Option<DeviceInfo>,
    response: InfoResponse,
    now: u64,
) -> Option<DeviceInfo> {
    if spec_write_is_noop(entry, response) {
        entry
    } else {
        Some(DeviceInfo { response, created: now })
    }
}

/// The per-device snapshot cache: one slot per registered device, each
/// holding the last-known snapshot and its creation time.
#[derive(Clone, Debug)]
pub struct State {
    pub info: Vec<Option<DeviceInfo>>,
}

impl State {
    /// An empty cache with one slot per registered device.
    pub fn new(device_count: usize) -> (r: State)
        ensures
            r.info@.len() == device_count,
            forall|i: int| 0 <= i < device_count ==> r.info@[i] is None,
    {
        let mut info: Vec<Option<DeviceInfo>> = Vec::new();
        let mut i: usize = 0;
        while i < device_count
            invariant
                i <= device_count,
                info@.len() == i,
                forall|j: int| 0 <= j < i ==> info@[j] is None,
            decreases device_count - i,
        {
            info.push(None);
            i += 1;
        }
        State { info }
    }

    /// Read the cached snapshot for `device` at time `now`. Returns the
    /// snapshot, with its on-time extrapolated by the elapsed seconds, as
    /// long as the entry is younger than the validity window; returns nothing
    /// once the entry is missing or expired, in which case the caller must
    /// fetch a fresh snapshot through the device handle and store it.
    pub fn read(&self, device: usize, now: u64) -> (r: Option<InfoResponse>)
        requires
            device < self.info@.len(),
        ensures
            r == spec_entry_read(self.info@[device as int], now),
    {
        match &self.info[device] {
            Some(entry) => {
                let elapsed: u64 = if now >= entry.created {
                    now - entry.created
                } else {
                    0
                };
                if elapsed < INFO_VALIDITY_MILLIS {
                    let on_time = match entry.response.on_time {
                        Some(t) => Some(sat_add(t, elapsed / 1000)),
                        None => None,
                    };
                    Some(InfoResponse { on_time, ..entry.response.duplicate() })
                } else {
                    None
                }
            },
            None => None,
        }
    }

    /// Store a snapshot freshly fetched from the device. Emits a state-change
    /// event only when asked to: the silent form serves the write path, which
    /// broadcasts itself once the final state is known.
    pub fn store_fetched(
        &mut self,
        device: usize,
        response: InfoResponse,
        now: u64,
        send_state: bool,
    ) -> (ev: Option<Event>)
        requires
            device < old(self).info@.len(),
        ensures
            final(self).info@ == old(self).info@.update(
                device as int,
                Some(DeviceInfo { response, created: now }),
            ),
            if send_state {
                ev == Some(Event::StateChange(response))
            } else {
                ev is None
            },
    {
        let event = if send_state {
            Some(Event::StateChange(response.duplicate()))
        } else {
            None
        };
        self.info.set(device, Some(DeviceInfo { response, created: now }));
        event
    }

    /// Write the expected post-command snapshot for `device` without
    /// re-querying it. When the cached snapshot is already identical nothing
    /// is stored and no event is emitted; otherwise the snapshot is stored
    /// with creation time `now` and exactly one state-change event carrying
    /// it is handed back for broadcast.
    pub fn update_info_optimistically(
        &mut self,
        device: usize,
        response: InfoResponse,
        now: u64,
    ) -> (ev: Option<Event>)
        requires
            device < old(self).info@.len(),
        ensures
            final(self).info@ == old(self).info@.update(
                device as int,
                spec_write_optimistic(old(self).info@[device as int], response, now),
            ),
            ev is Some <==> !spec_write_is_noop(old(self).info@[device as int], response),
            ev is Some ==> ev == Some(Event::StateChange(response)),
    {
        let noop = match &self.info[device] {
            Some(entry) => entry.response.equals(&response),
            None => false,
        };
        if noop {
            let ghost entry = self.info@[device as int];
            proof {
                assert(self.info@.update(device as int, entry) =~= self.info@);
            }
            None
        } else {
            let event = Event::StateChange(response.duplicate());
            self.info.set(device, Some(DeviceInfo { response, created: now }));
            Some(event)
        }
    }
}

/// An optimistic write is idempotent: writing the same snapshot twice in a
/// row stores it and emits a state-change event at most once; the second
/// write finds the slot identical, stores nothing and emits nothing.
pub proof fn lemma_optimistic_write_idempotent(
    entry: Option<DeviceInfo>,
    response: InfoResponse,
    t1: u64,
    t2: u64,
)
    ensures
        ({
            let once = spec_write_optimistic(entry, response, t1);
            &&& spec_write_is_noop(once, response)
            &&& spec_write_optimistic(once, response, t2) == once
        }),
{
    assert(response.matches(response));
}

/// Cache freshness: after a snapshot is stored at `t0`, a read within the
/// validity window returns the same logical snapshot with its on-time grown
/// by the elapsed seconds, while a read at or past the window's end returns
/// nothing and so forces a new device fetch.
pub proof fn lemma_cache_freshness(response: InfoResponse, t0: u64, epsilon: u64)
    requires
        t0 + epsilon <= u64::MAX,
    ensures
        ({
            let stored = Some(DeviceInfo { response, created: t0 });
            let at = (t0 + epsilon) as u64;
            &&& epsilon < INFO_VALIDITY_MILLIS ==> spec_entry_read(stored, at) == Some(
                InfoResponse {
                    on_time: match response.on_time {
                        Some(t) => Some(spec_sat_add(t, epsilon / 1000)),
                        None => None,
                    },
                    ..response
                },
            )
            &&& epsilon >= INFO_VALIDITY_MILLIS ==> spec_entry_read(stored, at) is None
        }),
{
    let at = (t0 + epsilon) as u64;
    assert(spec_elapsed(t0, at) == epsilon);
}

} // verus!
