use vstd::prelude::*;

verus! {

/// How long a freshly acquired or refreshed session stays valid.
pub const SESSION_VALIDITY_MILLIS: u64 = 60 * 60 * 1000;

/// How long acquisition attempts are throttled once a device has failed
/// repeatedly.
pub const REPEATED_FAILURE_COOLDOWN_MILLIS: u64 = 10 * 60 * 1000;

/// How many consecutive failed acquisition attempts drive a device into the
/// repeated-failure state.
pub const MAX_SESSION_RETRIES: u32 = 10;

/// The authentication state of one device's session.
#[derive(Clone, Copy, Debug, PartialEq, Eq, Structural)]
pub enum SessionStatus {
    Authenticated,
    Failure,
    RepeatedFailure,
}

/// The wire code of each session status.
pub open spec fn spec_status_code(status: SessionStatus) -> int {
    match status {
        SessionStatus::Authenticated => 0,
        SessionStatus::Failure => 1,
        SessionStatus::RepeatedFailure => 2,
    }
}

/// The wire representation of a session status.
pub trait TapoSessionStatusExt {
    /// The wire code the value maps to.
    spec fn spec_rpc(&self) -> int;

    fn rpc(&self) -> (r: i32)
        ensures
            r == self.spec_rpc(),
    ;
}

impl TapoSessionStatusExt for SessionStatus {
    open spec fn spec_rpc(&self) -> int {
        spec_status_code(*self)
    }

    fn rpc(&self) -> (r: i32) {
        match self {
            SessionStatus::Authenticated => 0,
            SessionStatus::Failure => 1,
            SessionStatus::RepeatedFailure => 2,
        }
    }
}

/// `a + b`, saturating at the largest timestamp.
pub open spec fn spec_sat_add(a: u64, b: u64) -> u64 {
    if a + b > u64::MAX {
        u64::MAX
    } else {
        (a + b) as u64
    }
}

pub fn sat_add(a: u64, b: u64) -> (r: u64)
    ensures
        r == spec_sat_add(a, b),
{
    if a > u64::MAX - b {
        u64::MAX
    } else {
        a + b
    }
}

/// What an access to a device must do about its session before the device
/// operation may run.
#[derive(Clone, Copy, Debug, PartialEq, Eq, Structural)]
pub enum SessionAction {
    /// The session is still fresh, or throttled: touch nothing.
    NoOp,
    /// A handle exists: refresh its session.
    Refresh,
    /// No handle was ever acquired, or it was lost: attempt acquisition.
    Acquire,
}

/// The authentication lifecycle of one device: its status, the next moment a
/// session action is due, how many acquisition attempts failed in a row, and
/// whether a live handle is held.
///
/// Timestamps are milliseconds of wall-clock time; the caller supplies `now`
/// so that every transition is a pure function of state and clock.
#[derive(Clone, Copy, Debug, PartialEq, Eq, Structural)]
pub struct SessionCoordinator {
    pub status: SessionStatus,
    pub next_session_action: u64,
    pub refresh_failure_count: u32,
    pub handle_present: bool,
}

impl SessionCoordinator {
    /// The failure count never exceeds the retry cap.
    pub open spec fn wf(self) -> bool {
        self.refresh_failure_count <= MAX_SESSION_RETRIES
    }

    /// A device before its first acquisition attempt: no handle, no failures
    /// yet, and an action due immediately.
    pub fn new() -> (r: SessionCoordinator)
        ensures
            r == (SessionCoordinator {
                status: SessionStatus::Failure,
                next_session_action: 0,
                refresh_failure_count: 0,
                handle_present: false,
            }),
            r.wf(),
    {
        SessionCoordinator {
            status: SessionStatus::Failure,
            next_session_action: 0,
            refresh_failure_count: 0,
            handle_present: false,
        }
    }

    /// What ensuring freshness at time `now` must do: nothing while the next
    /// mandatory action lies in the future, otherwise a forced refresh.
    pub open spec fn spec_plan_ensure_fresh(self, now: u64) -> SessionAction {
        if now < self.next_session_action {
            SessionAction::NoOp
        } else if self.handle_present {
            SessionAction::Refresh
        } else {
            SessionAction::Acquire
        }
    }

    /// Decide what `ensureFresh` must do at time `now`. A no-op unless the
    /// next mandatory action is due; otherwise the same decision a forced
    /// refresh takes.
    pub fn plan_ensure_fresh(&self, now: u64) -> (r: SessionAction)
        ensures
            r == self.spec_plan_ensure_fresh(now),
            r is NoOp <==> now < self.next_session_action,
    {
        if now < self.next_session_action {
            SessionAction::NoOp
        } else if self.handle_present {
            SessionAction::Refresh
        } else {
            SessionAction::Acquire
        }
    }

    /// Decide what `forceRefresh` must do: refresh through the handle when one
    /// exists, attempt acquisition otherwise.
    pub fn plan_force_refresh(&self) -> (r: SessionAction)
        ensures
            r is Refresh <==> self.handle_present,
            r is Acquire <==> !self.handle_present,
    {
        if self.handle_present {
            SessionAction::Refresh
        } else {
            SessionAction::Acquire
        }
    }

    /// The state after a successful refresh of an existing handle's session.
    pub open spec fn spec_refresh_success(self, now: u64) -> SessionCoordinator {
        SessionCoordinator {
            status: SessionStatus::Authenticated,
            next_session_action: spec_sat_add(now, SESSION_VALIDITY_MILLIS),
            refresh_failure_count: 0,
            handle_present: self.handle_present,
        }
    }

    /// Record a successful session refresh at time `now`: authenticated, the
    /// next action one validity window away, failures cleared. Returns whether
    /// the status visibly changed (which owes exactly one auth-change event).
    pub fn apply_refresh_success(&mut self, now: u64) -> (changed: bool)
        ensures
            *final(self) == old(self).spec_refresh_success(now),
            changed == (final(self).status != old(self).status),
            final(self).wf(),
    {
        let changed = !matches!(self.status, SessionStatus::Authenticated);
        self.status = SessionStatus::Authenticated;
        self.next_session_action = sat_add(now, SESSION_VALIDITY_MILLIS);
        self.refresh_failure_count = 0;
        changed
    }

    /// The state after a failed refresh of an existing handle's session.
    pub open spec fn spec_refresh_failure(self) -> SessionCoordinator {
        SessionCoordinator {
            status: SessionStatus::Failure,
            next_session_action: self.next_session_action,
            refresh_failure_count: 1,
            handle_present: self.handle_present,
        }
    }

    /// Record a failed session refresh: status drops to `Failure`, the failure
    /// count restarts at one, and the next action stays where it was, so an
    /// immediate retry on the next access is permitted.
    pub fn apply_refresh_failure(&mut self) -> (changed: bool)
        ensures
            *final(self) == old(self).spec_refresh_failure(),
            changed == (final(self).status != old(self).status),
            final(self).wf(),
    {
        let changed = !matches!(self.status, SessionStatus::Failure);
        self.status = SessionStatus::Failure;
        self.refresh_failure_count = 1;
        changed
    }

    /// The state after a successful handle acquisition.
    pub open spec fn spec_acquire_success(self, now: u64) -> SessionCoordinator {
        SessionCoordinator {
            status: SessionStatus::Authenticated,
            next_session_action: spec_sat_add(now, SESSION_VALIDITY_MILLIS),
            refresh_failure_count: 0,
            handle_present: true,
        }
    }

    /// Record a successful handle acquisition at time `now`: the handle is
    /// stored, counters reset, and the next action lies one validity window
    /// away.
    pub fn apply_acquire_success(&mut self, now: u64) -> (changed: bool)
        ensures
            *final(self) == old(self).spec_acquire_success(now),
            changed == (final(self).status != old(self).status),
            final(self).wf(),
    {
        let changed = !matches!(self.status, SessionStatus::Authenticated);
        self.status = SessionStatus::Authenticated;
        self.next_session_action = sat_add(now, SESSION_VALIDITY_MILLIS);
        self.refresh_failure_count = 0;
        self.handle_present = true;
        changed
    }

    /// The state after a failed handle acquisition at time `now`: the count
    /// grows toward the cap; at the cap the device enters `RepeatedFailure`
    /// and further attempts are throttled for one cooldown, below it the next
    /// attempt stays permitted immediately.
    pub open spec fn spec_acquire_failure(self, now: u64) -> SessionCoordinator {
        let count = if self.refresh_failure_count + 1 >= MAX_SESSION_RETRIES {
            MAX_SESSION_RETRIES
        } else {
            (self.refresh_failure_count + 1) as u32
        };
        if count >= MAX_SESSION_RETRIES {
            SessionCoordinator {
                status: SessionStatus::RepeatedFailure,
                next_session_action: spec_sat_add(now, REPEATED_FAILURE_COOLDOWN_MILLIS),
                refresh_failure_count: count,
                handle_present: self.handle_present,
            }
        } else {
            SessionCoordinator {
                status: SessionStatus::Failure,
                next_session_action: self.next_session_action,
                refresh_failure_count: count,
                handle_present: self.handle_present,
            }
        }
    }

    /// Record a failed handle acquisition at time `now`.
    pub fn apply_acquire_failure(&mut self, now: u64) -> (changed: bool)
        requires
            old(self).wf(),
        ensures
            *final(self) == old(self).spec_acquire_failure(now),
            changed == (final(self).status != old(self).status),
            final(self).wf(),
    {
        let count = if self.refresh_failure_count >= MAX_SESSION_RETRIES - 1 {
            MAX_SESSION_RETRIES
        } else {
            self.refresh_failure_count + 1
        };
        self.refresh_failure_count = count;
        if count >= MAX_SESSION_RETRIES {
            let changed = !matches!(self.status, SessionStatus::RepeatedFailure);
            self.status = SessionStatus::RepeatedFailure;
            self.next_session_action = sat_add(now, REPEATED_FAILURE_COOLDOWN_MILLIS);
            changed
        } else {
            let changed = !matches!(self.status, SessionStatus::Failure);
            self.status = SessionStatus::Failure;
            changed
        }
    }
}

/// The state after a sequence of failed acquisition attempts, one per entry
/// of `nows`, applied oldest first.
pub open spec fn spec_acquire_failures(s: SessionCoordinator, nows: Seq<u64>) -> SessionCoordinator
    decreases nows.len(),
{
    if nows.len() == 0 {
        s
    } else {
        spec_acquire_failures(s.spec_acquire_failure(nows[0]), nows.drop_first())
    }
}

/// Consecutive failed acquisition attempts accumulate: the failure count after
/// `n` failures is the old count plus `n`, capped at the retry limit, and once
/// the cap is reached the status is `RepeatedFailure` with the next attempt
/// throttled until one cooldown after the last failure.
pub proof fn lemma_acquire_failures_accumulate(s: SessionCoordinator, nows: Seq<u64>)
    requires
        s.wf(),
        nows.len() > 0,
    ensures
        ({
            let t = spec_acquire_failures(s, nows);
            &&& t.wf()
            &&& t.refresh_failure_count == if s.refresh_failure_count + nows.len()
                >= MAX_SESSION_RETRIES {
                MAX_SESSION_RETRIES as int
            } else {
                s.refresh_failure_count + nows.len()
            }
            &&& (t.status is RepeatedFailure <==> s.refresh_failure_count + nows.len()
                >= MAX_SESSION_RETRIES)
            &&& (t.status is RepeatedFailure ==> t.next_session_action == spec_sat_add(
                nows.last(),
                REPEATED_FAILURE_COOLDOWN_MILLIS,
            ))
            &&& t.handle_present == s.handle_present
        }),
    decreases nows.len(),
{
    let step = s.spec_acquire_failure(nows[0]);
    if nows.len() == 1 {
        assert(spec_acquire_failures(s, nows) == step);
        assert(nows.last() == nows[0]);
    } else {
        lemma_acquire_failures_accumulate(step, nows.drop_first());
        assert(nows.drop_first().last() == nows.last());
    }
}

/// Ten consecutive failed acquisition attempts drive the status to
/// `RepeatedFailure`; a further attempt before the cooldown has elapsed is
/// suppressed entirely, and once the cooldown has elapsed an attempt is
/// permitted again.
pub proof fn lemma_session_backoff(s: SessionCoordinator, nows: Seq<u64>)
    requires
        s.refresh_failure_count == 0,
        s.wf(),
        nows.len() == MAX_SESSION_RETRIES,
    ensures
        ({
            let t = spec_acquire_failures(s, nows);
            &&& t.status is RepeatedFailure
            &&& t.next_session_action == spec_sat_add(nows.last(), REPEATED_FAILURE_COOLDOWN_MILLIS)
            &&& forall|later: u64|
                later < t.next_session_action ==> t.spec_plan_ensure_fresh(later) is NoOp
            &&& forall|later: u64|
                later >= t.next_session_action ==> !(t.spec_plan_ensure_fresh(later) is NoOp)
        }),
{
    lemma_acquire_failures_accumulate(s, nows);
}

} // verus!
