//! The session state machine: one approved launch from plan to end, with
//! monotonic deadline tracking and the warning schedule.

use vstd::prelude::*;

use crate::api::{SessionEndReason, SessionState, WarningThreshold};
use crate::host::HostSessionHandle;
use crate::ids::{EntryId, SessionId};
use crate::policy::spec_secs_to_millis;
use crate::time::{MonotonicInstant, WallTime, MAX_DAY_INDEX};

verus! {

/// The immutable schedule computed at approval: what to run, for at most how
/// long, and when to warn.
#[derive(Debug)]
pub struct SessionPlan {
    pub session_id: SessionId,
    pub entry_id: EntryId,
    pub label: String,
    /// Cap on the session, in milliseconds; None means unlimited.
    pub max_duration_millis: Option<u64>,
    pub warnings: Vec<WarningThreshold>,
}

/// The warning schedule for a finite cap `m`: for each threshold strictly
/// below the cap, the threshold in seconds and the elapsed time (in
/// milliseconds) at which it fires, in configuration order.
pub open spec fn spec_warning_times_of(ws: Seq<WarningThreshold>, m: u64) -> Seq<(u64, u64)>
    decreases ws.len(),
{
    if ws.len() == 0 {
        Seq::empty()
    } else {
        let rest = spec_warning_times_of(ws.drop_last(), m);
        let t = ws.last().seconds_before;
        if spec_secs_to_millis(t) < m {
            rest.push((t, (m - spec_secs_to_millis(t)) as u64))
        } else {
            rest
        }
    }
}

impl SessionPlan {
    /// The plan's warning schedule; empty for unlimited sessions, and free
    /// of thresholds at or above the cap.
    pub open spec fn spec_warning_times(self) -> Seq<(u64, u64)> {
        match self.max_duration_millis {
            Some(m) => spec_warning_times_of(self.warnings@, m),
            None => Seq::empty(),
        }
    }

    /// Warning times as (threshold seconds, fires-after milliseconds).
    /// Thresholds at or beyond the session cap are filtered out here, at
    /// plan time, and so can never fire.
    pub fn warning_times(&self) -> (r: Vec<(u64, u64)>)
        ensures
            r@ == self.spec_warning_times(),
    {
        let mut out: Vec<(u64, u64)> = Vec::new();
        let m = match self.max_duration_millis {
            Some(m) => m,
            None => {
                return out;
            },
        };
        let n = self.warnings.len();
        let mut i: usize = 0;
        while i < n
            invariant
                i <= n,
                n == self.warnings@.len(),
                self.max_duration_millis == Some(m),
                out@ == spec_warning_times_of(self.warnings@.subrange(0, i as int), m),
            decreases n - i,
        {
            proof {
                assert(self.warnings@.subrange(0, i as int + 1).drop_last() =~= self.warnings@
                    .subrange(0, i as int));
            }
            let t = self.warnings[i].seconds_before;
            let t_millis = crate::policy::secs_to_millis(t);
            if t_millis < m {
                out.push((t, m - t_millis));
            }
            i += 1;
        }
        proof {
            assert(self.warnings@.subrange(0, n as int) =~= self.warnings@);
        }
        out
    }
}

/// Entries of the schedule that are due at `elapsed` and not yet issued,
/// each paired with the time remaining now.
pub open spec fn spec_pending_of(
    wt: Seq<(u64, u64)>,
    issued: Seq<u64>,
    elapsed: u64,
    remaining: u64,
) -> Seq<(u64, u64)>
    decreases wt.len(),
{
    if wt.len() == 0 {
        Seq::empty()
    } else {
        let rest = spec_pending_of(wt.drop_last(), issued, elapsed, remaining);
        if wt.last().1 <= elapsed && !issued.contains(wt.last().0) {
            rest.push((wt.last().0, remaining))
        } else {
            rest
        }
    }
}

/// One live session.
#[derive(Debug)]
pub struct ActiveSession {
    pub plan: SessionPlan,
    pub state: SessionState,
    /// Wall-clock start, for display and audit only.
    pub started_at: WallTime,
    /// Monotonic start; all enforcement is relative to this.
    pub started_at_mono: MonotonicInstant,
    /// Wall-clock deadline for display; None means unlimited.
    pub deadline: Option<WallTime>,
    /// Monotonic deadline for enforcement; None means unlimited.
    pub deadline_mono: Option<MonotonicInstant>,
    /// Thresholds (seconds before expiry) already issued.
    pub warnings_issued: Vec<u64>,
    /// Supervisor handle, attached once the spawn succeeds.
    pub host_handle: Option<HostSessionHandle>,
}

impl ActiveSession {
    /// The deadlines exist exactly for finite plans (an extension may move
    /// them, so only their existence is invariant), the wall-clock fields
    /// are valid moments, and no issued threshold repeats.
    pub open spec fn wf(self) -> bool {
        &&& self.started_at.wf()
        &&& match self.plan.max_duration_millis {
            Some(m) => self.deadline_mono is Some && (self.deadline matches Some(d) && d.wf()),
            None => self.deadline_mono is None && self.deadline is None,
        }
        &&& forall|i: int, j: int|
            0 <= i < j < self.warnings_issued@.len() ==> self.warnings_issued@[i]
                != self.warnings_issued@[j]
    }

    /// Whether a plan can start at this moment without arithmetic overflow.
    pub open spec fn spec_plan_fits(
        plan: SessionPlan,
        now: WallTime,
        now_mono: MonotonicInstant,
    ) -> bool {
        &&& now.wf()
        &&& match plan.max_duration_millis {
            Some(m) => now_mono.millis + m <= u64::MAX && now.spec_total_secs() + m / 1000
                < MAX_DAY_INDEX * 86400,
            None => true,
        }
    }

    /// Starts a session from an approved plan: Launching, with deadlines set
    /// from the cap, and no warnings issued yet.
    pub fn new(plan: SessionPlan, now: WallTime, now_mono: MonotonicInstant) -> (r: ActiveSession)
        requires
            Self::spec_plan_fits(plan, now, now_mono),
        ensures
            r.wf(),
            r.plan == plan,
            r.state == SessionState::Launching,
            r.started_at == now,
            r.started_at_mono == now_mono,
            r.warnings_issued@.len() == 0,
            r.host_handle is None,
            plan.max_duration_millis is None ==> r.deadline_mono is None && r.deadline is None,
            plan.max_duration_millis matches Some(m) ==> r.deadline_mono == Some(
                MonotonicInstant { millis: (now_mono.millis + m) as u64 },
            ) && (r.deadline matches Some(d) && d.wf() && d.spec_total_secs()
                == now.spec_total_secs() + m / 1000),
    {
        let (deadline, deadline_mono) = match plan.max_duration_millis {
            Some(m) => {
                let d_mono = now_mono.add_millis(m);
                let d_wall = now.plus_secs(m / 1000);
                (Some(d_wall), Some(d_mono))
            },
            None => (None, None),
        };
        ActiveSession {
            plan,
            state: SessionState::Launching,
            started_at: now,
            started_at_mono: now_mono,
            deadline,
            deadline_mono,
            warnings_issued: Vec::new(),
            host_handle: None,
        }
    }

    /// Attaches the supervisor handle once the spawn succeeded; the session
    /// is then Running.
    pub fn attach_handle(&mut self, handle: HostSessionHandle)
        ensures
            *final(self) == (ActiveSession {
                host_handle: Some(handle),
                state: SessionState::Running,
                ..*old(self)
            }),
    {
        self.host_handle = Some(handle);
        self.state = SessionState::Running;
    }

    /// Milliseconds until the deadline, zero once past; None for unlimited.
    pub open spec fn spec_time_remaining(self, now_mono: MonotonicInstant) -> Option<u64> {
        match self.deadline_mono {
            Some(d) => Some(
                if d.millis > now_mono.millis {
                    (d.millis - now_mono.millis) as u64
                } else {
                    0u64
                },
            ),
            None => None,
        }
    }

    pub fn time_remaining(&self, now_mono: MonotonicInstant) -> (r: Option<u64>)
        ensures
            r == self.spec_time_remaining(now_mono),
    {
        match self.deadline_mono {
            Some(d) => Some(d.saturating_duration_until(now_mono)),
            None => None,
        }
    }

    /// Expired: the monotonic deadline exists and has been reached. An
    /// unlimited session never expires, whatever the wall clock does.
    pub open spec fn spec_is_expired(self, now_mono: MonotonicInstant) -> bool {
        self.deadline_mono matches Some(d) && now_mono.millis >= d.millis
    }

    pub fn is_expired(&self, now_mono: MonotonicInstant) -> (r: bool)
        ensures
            r == self.spec_is_expired(now_mono),
    {
        match self.deadline_mono {
            Some(d) => now_mono.millis >= d.millis,
            None => false,
        }
    }

    /// Milliseconds run so far (zero if the clock reads before the start).
    pub open spec fn spec_duration_so_far(self, now_mono: MonotonicInstant) -> u64 {
        if now_mono.millis >= self.started_at_mono.millis {
            (now_mono.millis - self.started_at_mono.millis) as u64
        } else {
            0u64
        }
    }

    pub fn duration_so_far(&self, now_mono: MonotonicInstant) -> (r: u64)
        ensures
            r == self.spec_duration_so_far(now_mono),
    {
        now_mono.duration_since(self.started_at_mono)
    }

    /// The due, not yet issued warnings at this moment; empty for unlimited
    /// sessions.
    pub open spec fn spec_pending(self, now_mono: MonotonicInstant) -> Seq<(u64, u64)> {
        match self.deadline_mono {
            None => Seq::empty(),
            Some(d) => spec_pending_of(
                self.plan.spec_warning_times(),
                self.warnings_issued@,
                self.spec_duration_so_far(now_mono),
                if d.millis > now_mono.millis {
                    (d.millis - now_mono.millis) as u64
                } else {
                    0u64
                },
            ),
        }
    }

    /// The warnings that should fire now: due by elapsed time and not yet
    /// issued, each with the time remaining.
    pub fn pending_warnings(&self, now_mono: MonotonicInstant) -> (r: Vec<(u64, u64)>)
        ensures
            r@ == self.spec_pending(now_mono),
    {
        let mut out: Vec<(u64, u64)> = Vec::new();
        let remaining = match self.deadline_mono {
            Some(d) => d.saturating_duration_until(now_mono),
            None => {
                return out;
            },
        };
        let elapsed = now_mono.duration_since(self.started_at_mono);
        let wt = self.plan.warning_times();
        let n = wt.len();
        let mut i: usize = 0;
        while i < n
            invariant
                i <= n,
                n == wt@.len(),
                wt@ == self.plan.spec_warning_times(),
                out@ == spec_pending_of(
                    wt@.subrange(0, i as int),
                    self.warnings_issued@,
                    elapsed,
                    remaining,
                ),
            decreases n - i,
        {
            proof {
                assert(wt@.subrange(0, i as int + 1).drop_last() =~= wt@.subrange(0, i as int));
            }
            if wt[i].1 <= elapsed && !contains_u64(&self.warnings_issued, wt[i].0) {
                out.push((wt[i].0, remaining));
            }
            i += 1;
        }
        proof {
            assert(wt@.subrange(0, n as int) =~= wt@);
        }
        out
    }

    /// Records a threshold as issued (at most once) and moves a Running
    /// session to Warned.
    pub fn mark_warning_issued(&mut self, threshold: u64)
        ensures
            final(self).warnings_issued@ == if old(self).warnings_issued@.contains(threshold) {
                old(self).warnings_issued@
            } else {
                old(self).warnings_issued@.push(threshold)
            },
            final(self).state == if old(self).state == SessionState::Running {
                SessionState::Warned
            } else {
                old(self).state
            },
            final(self).plan == old(self).plan,
            final(self).started_at == old(self).started_at,
            final(self).started_at_mono == old(self).started_at_mono,
            final(self).deadline == old(self).deadline,
            final(self).deadline_mono == old(self).deadline_mono,
            final(self).host_handle == old(self).host_handle,
            old(self).wf() ==> final(self).wf(),
    {
        if !contains_u64(&self.warnings_issued, threshold) {
            self.warnings_issued.push(threshold);
        }
        if self.state == SessionState::Running {
            self.state = SessionState::Warned;
        }
    }

    /// Moves the session to Expiring.
    pub fn mark_expiring(&mut self)
        ensures
            *final(self) == (ActiveSession { state: SessionState::Expiring, ..*old(self) }),
    {
        self.state = SessionState::Expiring;
    }

    /// Moves the session to Ended.
    pub fn mark_ended(&mut self)
        ensures
            *final(self) == (ActiveSession { state: SessionState::Ended, ..*old(self) }),
    {
        self.state = SessionState::Ended;
    }
}

/// Whether the vector holds the value.
pub fn contains_u64(v: &Vec<u64>, x: u64) -> (r: bool)
    ensures
        r == v@.contains(x),
{
    let n = v.len();
    let mut i: usize = 0;
    while i < n
        invariant
            i <= n,
            n == v@.len(),
            forall|k: int| 0 <= k < i ==> v@[k] != x,
        decreases n - i,
    {
        if v[i] == x {
            proof {
                assert(v@.contains(x));
            }
            return true;
        }
        i += 1;
    }
    proof {
        assert(!v@.contains(x));
    }
    false
}

/// What stopping a session yields for the caller.
#[derive(Debug)]
pub struct StopResult {
    pub session_id: SessionId,
    pub entry_id: EntryId,
    pub reason: SessionEndReason,
    pub duration_millis: u64,
}

/// Every entry of the warning schedule lies strictly below the cap: a
/// threshold at or beyond the session's maximum duration never fires.
pub proof fn lemma_warning_times_below_cap(ws: Seq<WarningThreshold>, m: u64)
    ensures
        forall|i: int|
            0 <= i < spec_warning_times_of(ws, m).len() ==> spec_secs_to_millis(
                (#[trigger] spec_warning_times_of(ws, m)[i]).0,
            ) < m,
    decreases ws.len(),
{
    if ws.len() > 0 {
        lemma_warning_times_below_cap(ws.drop_last(), m);
        let whole = spec_warning_times_of(ws, m);
        let rest = spec_warning_times_of(ws.drop_last(), m);
        assert forall|i: int| 0 <= i < whole.len() implies spec_secs_to_millis(
            (#[trigger] whole[i]).0,
        ) < m by {
            if i < rest.len() {
                assert(whole[i] == rest[i]);
            } else {
                assert(spec_secs_to_millis(ws.last().seconds_before) < m);
            }
        }
    }
}

/// Every pending warning comes from the schedule and is not yet issued.
pub proof fn lemma_pending_from_schedule(
    wt: Seq<(u64, u64)>,
    issued: Seq<u64>,
    elapsed: u64,
    remaining: u64,
)
    ensures
        forall|i: int|
            0 <= i < spec_pending_of(wt, issued, elapsed, remaining).len() ==> {
                let p = #[trigger] spec_pending_of(wt, issued, elapsed, remaining)[i];
                &&& exists|j: int| 0 <= j < wt.len() && (#[trigger] wt[j]).0 == p.0
                &&& !issued.contains(p.0)
            },
    decreases wt.len(),
{
    if wt.len() > 0 {
        lemma_pending_from_schedule(wt.drop_last(), issued, elapsed, remaining);
        let whole = spec_pending_of(wt, issued, elapsed, remaining);
        let rest = spec_pending_of(wt.drop_last(), issued, elapsed, remaining);
        assert forall|i: int| 0 <= i < whole.len() implies {
            let p = #[trigger] whole[i];
            &&& exists|j: int| 0 <= j < wt.len() && (#[trigger] wt[j]).0 == p.0
            &&& !issued.contains(p.0)
        } by {
            if i < rest.len() {
                let p = rest[i];
                let j = choose|j: int| 0 <= j < wt.drop_last().len() && (#[trigger] wt.drop_last()[j]).0 == p.0;
                assert(wt[j] == wt.drop_last()[j]);
            } else {
                assert(whole[i] == (wt.last().0, remaining));
                assert(wt[wt.len() - 1].0 == whole[i].0);
            }
        }
    }
}

/// Nothing the session decides depends on the wall clock: two sessions that
/// agree on everything but their wall-clock fields agree on expiry, time
/// remaining, elapsed time and pending warnings, and a finite session is
/// expired exactly when the cap has elapsed on the monotonic clock.
pub proof fn lemma_wall_clock_independence(
    s1: ActiveSession,
    s2: ActiveSession,
    now_mono: MonotonicInstant,
)
    requires
        s1.plan == s2.plan,
        s1.started_at_mono == s2.started_at_mono,
        s1.deadline_mono == s2.deadline_mono,
        s1.warnings_issued@ == s2.warnings_issued@,
        s1.plan.max_duration_millis matches Some(m) ==> s1.deadline_mono == Some(
            MonotonicInstant { millis: (s1.started_at_mono.millis + m) as u64 },
        ) && s1.started_at_mono.millis + m <= u64::MAX,
    ensures
        s1.spec_is_expired(now_mono) == s2.spec_is_expired(now_mono),
        s1.spec_time_remaining(now_mono) == s2.spec_time_remaining(now_mono),
        s1.spec_duration_so_far(now_mono) == s2.spec_duration_so_far(now_mono),
        s1.spec_pending(now_mono) == s2.spec_pending(now_mono),
        s1.plan.max_duration_millis matches Some(m) ==> (s1.spec_is_expired(now_mono)
            <==> now_mono.millis >= s1.started_at_mono.millis
                + s1.plan.max_duration_millis->0),
{
}

} // verus!
