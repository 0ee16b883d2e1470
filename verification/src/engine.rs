//! The policy engine: evaluates availability, approves or denies launches,
//! tracks the one active session against its monotonic deadline, fires
//! warnings, detects expiry, and accounts usage and cooldown at session end.

use vstd::prelude::*;

use crate::api::{
    EntryView, ReasonCode, SessionEndReason, SessionInfo, SessionState, ServiceStateSnapshot,
    WarningSeverity, WarningThreshold, API_VERSION,
};
use crate::host::{HostCapabilities, HostSessionHandle};
use crate::ids::{EntryId, SessionId};
use crate::policy::{spec_is_available, spec_first_remaining, Entry, Policy};
use crate::session::{contains_u64, ActiveSession, SessionPlan, StopResult};
use crate::store::{AuditEventType, Store};
use crate::time::{MonotonicInstant, WallTime};

verus! {

use vstd::string::StringExecFns;

/// One step of the session trace: a session began, or one ended.
#[derive(Debug, Clone, Copy, PartialEq, Eq, Structural)]
pub enum TraceEvent {
    SessionStarted,
    SessionEnded,
}

/// Started events minus ended events over a trace.
pub open spec fn spec_balance(h: Seq<TraceEvent>) -> int
    decreases h.len(),
{
    if h.len() == 0 {
        0
    } else {
        spec_balance(h.drop_last()) + (match h.last() {
            TraceEvent::SessionStarted => 1,
            TraceEvent::SessionEnded => -1,
        })
    }
}

/// The engine's verdict on a launch request.
#[derive(Debug)]
pub enum LaunchDecision {
    Approved(SessionPlan),
    Denied { reasons: Vec<ReasonCode> },
}

/// The engine's verdict on a stop request.
#[derive(Debug)]
pub enum StopDecision {
    Stopped(StopResult),
    NoActiveSession,
}

/// Events the engine emits for broadcasting and orchestration.
#[derive(Debug)]
pub enum CoreEvent {
    SessionStarted {
        session_id: SessionId,
        entry_id: EntryId,
        label: String,
        deadline: Option<WallTime>,
    },
    Warning {
        session_id: SessionId,
        threshold_seconds: u64,
        time_remaining_millis: u64,
        severity: WarningSeverity,
        message: Option<String>,
    },
    ExpireDue { session_id: SessionId },
    SessionEnded {
        session_id: SessionId,
        entry_id: EntryId,
        reason: SessionEndReason,
        duration_millis: u64,
    },
    PolicyReloaded { entry_count: usize },
    EntryAvailabilityChanged { entry_id: EntryId, enabled: bool },
}

/// The smaller of two optional bounds; None means unbounded.
pub open spec fn spec_opt_min(a: Option<u64>, b: Option<u64>) -> Option<u64> {
    match (a, b) {
        (Some(x), Some(y)) => Some(if x <= y { x } else { y }),
        (Some(x), None) => Some(x),
        (None, Some(y)) => Some(y),
        (None, None) => None,
    }
}

/// The cap on a session of this entry started now: the least of its max run,
/// the time left in the current window (when windows apply), and the
/// unspent daily quota. All None means unlimited.
pub open spec fn spec_compute_max_duration(entry: Entry, now: WallTime, used_sat: u64) -> Option<
    u64,
> {
    let from_windows: Option<u64> = if entry.availability.always {
        None
    } else {
        match spec_first_remaining(entry.availability.windows@, now) {
            Some(secs) => Some((secs * 1000) as u64),
            None => None,
        }
    };
    let from_quota: Option<u64> = match entry.limits.daily_quota_millis {
        Some(q) => Some(
            if q >= used_sat {
                (q - used_sat) as u64
            } else {
                0u64
            },
        ),
        None => None,
    };
    spec_opt_min(spec_opt_min(entry.limits.max_run_millis, from_windows), from_quota)
}

/// A remaining-in-window value is small: under a day and a half of seconds.
proof fn lemma_first_remaining_bound(ws: Seq<crate::time::TimeWindow>, t: WallTime)
    requires
        t.wf(),
    ensures
        match spec_first_remaining(ws, t) {
            Some(x) => 0 <= x < 2_000_000,
            None => true,
        },
    decreases ws.len(),
{
    if ws.len() > 0 {
        lemma_first_remaining_bound(ws.drop_first(), t);
    }
}

/// The core policy engine.
pub struct CoreEngine {
    pub policy: Policy,
    pub store: Store,
    pub capabilities: HostCapabilities,
    pub current_session: Option<ActiveSession>,
    pub history: Ghost<Seq<TraceEvent>>,
}

impl CoreEngine {
    /// Well-formed: the store is sound, the session (when present) is sound,
    /// and the session trace balances with the presence of a session — with
    /// every prefix of the trace balancing to zero or one.
    pub open spec fn wf(self) -> bool {
        &&& self.store.wf()
        &&& match self.current_session {
            Some(s) => s.wf() && spec_balance(self.history@) == 1,
            None => spec_balance(self.history@) == 0,
        }
        &&& forall|p: int| 0 <= p <= self.history@.len() ==> 0 <= spec_balance(
            #[trigger] self.history@.take(p),
        ) <= 1
    }

    /// Room for `k` more audit records.
    pub open spec fn audit_room(self, k: int) -> bool {
        self.store.spec_audits().len() + k <= u64::MAX
    }

    /// Builds the engine over a validated policy, a store, and the host's
    /// capability set; records the policy load in the audit log.
    pub fn new(policy: Policy, store: Store, capabilities: HostCapabilities, now: WallTime) -> (r:
        CoreEngine)
        requires
            store.wf(),
            store.spec_audits().len() < u64::MAX,
        ensures
            r.wf(),
            r.current_session is None,
            r.history@.len() == 0,
            r.policy == policy,
            r.capabilities == capabilities,
            r.store.spec_audits().len() == store.spec_audits().len() + 1,
            forall|id: Seq<char>, day: u64| r.store.spec_usage(id, day) == store.spec_usage(id, day),
            forall|id: Seq<char>| r.store.spec_cooldown(id) == store.spec_cooldown(id),
    {
        let entry_count = policy.entries.len();
        let mut store = store;
        store.append_audit(now, AuditEventType::PolicyLoaded { entry_count });
        CoreEngine {
            policy,
            store,
            capabilities,
            current_session: None,
            history: Ghost(Seq::empty()),
        }
    }

    /// Replaces the policy and logs the reload; the active session, if any,
    /// continues under its existing plan.
    pub fn reload_policy(&mut self, policy: Policy, now: WallTime) -> (r: CoreEvent)
        requires
            old(self).wf(),
            old(self).audit_room(1),
        ensures
            final(self).wf(),
            final(self).policy == policy,
            final(self).current_session == old(self).current_session,
            final(self).history == old(self).history,
            final(self).capabilities == old(self).capabilities,
            r matches CoreEvent::PolicyReloaded { entry_count } && entry_count
                == policy.entries@.len(),
    {
        let entry_count = policy.entries.len();
        self.policy = policy;
        self.store.append_audit(now, AuditEventType::PolicyLoaded { entry_count });
        CoreEvent::PolicyReloaded { entry_count }
    }

    pub fn has_active_session(&self) -> (r: bool)
        ensures
            r == self.current_session is Some,
    {
        self.current_session.is_some()
    }

    /// The reasons an entry cannot start now, in evaluation order: disabled,
    /// unsupported kind, outside its windows, another session active, in
    /// cooldown, quota spent.
    pub open spec fn spec_entry_reasons(
        self,
        entry: Entry,
        now: WallTime,
        now_mono: MonotonicInstant,
    ) -> Seq<ReasonCode> {
        (if entry.disabled {
            seq![ReasonCode::Disabled { reason: entry.disabled_reason }]
        } else {
            Seq::empty()
        }) + (if !self.capabilities.spec_supports(entry.kind.spec_tag()) {
            seq![ReasonCode::UnsupportedKind { kind: entry.kind.spec_tag() }]
        } else {
            Seq::empty()
        }) + (if !spec_is_available(entry.availability, now) {
            seq![ReasonCode::OutsideTimeWindow { next_window_start: None }]
        } else {
            Seq::empty()
        }) + (match self.current_session {
            Some(s) => seq![
                ReasonCode::SessionActive {
                    entry_id: s.plan.entry_id,
                    remaining_millis: s.spec_time_remaining(now_mono),
                },
            ],
            None => Seq::empty(),
        }) + (match self.store.spec_cooldown(entry.id@) {
            Some(until) => if until.spec_total_secs() > now.spec_total_secs() {
                seq![ReasonCode::CooldownActive { available_at: until }]
            } else {
                Seq::empty()
            },
            None => Seq::empty(),
        }) + (match entry.limits.daily_quota_millis {
            Some(q) => if self.store.spec_usage_sat(entry.id@, now.days) >= q {
                seq![
                    ReasonCode::QuotaExhausted {
                        used_millis: self.store.spec_usage_sat(entry.id@, now.days),
                        quota_millis: q,
                    },
                ]
            } else {
                Seq::empty()
            },
            None => Seq::empty(),
        })
    }

    /// The full relation between an entry and its published view.
    pub open spec fn spec_view_ok(
        self,
        entry: Entry,
        now: WallTime,
        now_mono: MonotonicInstant,
        view: EntryView,
    ) -> bool {
        &&& view.entry_id@ == entry.id@
        &&& view.label == entry.label
        &&& view.icon_ref == entry.icon_ref
        &&& view.kind_tag == entry.kind.spec_tag()
        &&& view.reasons@ == self.spec_entry_reasons(entry, now, now_mono)
        &&& view.enabled == (self.spec_entry_reasons(entry, now, now_mono).len() == 0)
        &&& view.max_run_if_started_now == (if self.spec_entry_reasons(
            entry,
            now,
            now_mono,
        ).len() == 0 {
            spec_compute_max_duration(entry, now, self.store.spec_usage_sat(entry.id@, now.days))
        } else {
            None::<u64>
        })
    }

    /// Evaluates one entry: collects every reason it cannot start now, and,
    /// when none applies, the cap a session started now would get.
    #[verifier::rlimit(80)]
    pub fn evaluate_entry(&self, entry: &Entry, now: WallTime, now_mono: MonotonicInstant) -> (view:
        EntryView)
        requires
            self.wf(),
            now.wf(),
        ensures
            self.spec_view_ok(*entry, now, now_mono, view),
    {
        let mut reasons: Vec<ReasonCode> = Vec::new();
        if entry.disabled {
            reasons.push(ReasonCode::Disabled {
                reason: match &entry.disabled_reason {
                    Some(m) => Some(m.clone()),
                    None => None,
                },
            });
        }
        let kind_tag = entry.kind.tag();
        if !self.capabilities.supports_kind(kind_tag) {
            reasons.push(ReasonCode::UnsupportedKind { kind: kind_tag });
        }
        if !entry.availability.is_available(&now) {
            reasons.push(ReasonCode::OutsideTimeWindow { next_window_start: None });
        }
        match &self.current_session {
            Some(s) => {
                reasons.push(ReasonCode::SessionActive {
                    entry_id: s.plan.entry_id.clone(),
                    remaining_millis: s.time_remaining(now_mono),
                });
            },
            None => {},
        }
        match self.store.get_cooldown_until(&entry.id) {
            Some(until) => {
                if now.is_before(&until) {
                    reasons.push(ReasonCode::CooldownActive { available_at: until });
                }
            },
            None => {},
        }
        let used = self.store.get_usage(&entry.id, now.days);
        match entry.limits.daily_quota_millis {
            Some(q) => {
                if used >= q {
                    reasons.push(ReasonCode::QuotaExhausted { used_millis: used, quota_millis: q });
                }
            },
            None => {},
        }
        let enabled = reasons.len() == 0;
        proof {
            assert(reasons@ =~= self.spec_entry_reasons(*entry, now, now_mono));
        }
        let max_run_if_started_now = if enabled {
            self.compute_max_duration(entry, now, used)
        } else {
            None
        };
        EntryView {
            entry_id: entry.id.clone(),
            label: entry.label.clone(),
            icon_ref: match &entry.icon_ref {
                Some(s) => Some(s.clone()),
                None => None,
            },
            kind_tag,
            enabled,
            reasons,
            max_run_if_started_now,
        }
    }

    /// The least of max run, window remainder, and unspent quota; None when
    /// nothing bounds the session.
    fn compute_max_duration(&self, entry: &Entry, now: WallTime, used: u64) -> (r: Option<u64>)
        requires
            now.wf(),
            used == self.store.spec_usage_sat(entry.id@, now.days),
        ensures
            r == spec_compute_max_duration(*entry, now, used),
    {
        let from_windows: Option<u64> = match entry.availability.remaining_in_window(&now) {
            Some(secs) => {
                proof {
                    lemma_first_remaining_bound(entry.availability.windows@, now);
                }
                Some(secs * 1000)
            },
            None => None,
        };
        let from_quota: Option<u64> = match entry.limits.daily_quota_millis {
            Some(q) => Some(
                if q >= used {
                    q - used
                } else {
                    0
                },
            ),
            None => None,
        };
        let m1 = opt_min(entry.limits.max_run_millis, from_windows);
        opt_min(m1, from_quota)
    }

    /// All entries, each with its availability verdict.
    pub fn list_entries(&self, now: WallTime, now_mono: MonotonicInstant) -> (views: Vec<EntryView>)
        requires
            self.wf(),
            now.wf(),
        ensures
            views@.len() == self.policy.entries@.len(),
            forall|i: int|
                0 <= i < views@.len() ==> self.spec_view_ok(
                    self.policy.entries@[i],
                    now,
                    now_mono,
                    #[trigger] views@[i],
                ),
    {
        let mut views: Vec<EntryView> = Vec::new();
        let n = self.policy.entries.len();
        let mut i: usize = 0;
        while i < n
            invariant
                i <= n,
                n == self.policy.entries@.len(),
                self.wf(),
                now.wf(),
                views@.len() == i,
                forall|k: int|
                    0 <= k < i ==> self.spec_view_ok(
                        self.policy.entries@[k],
                        now,
                        now_mono,
                        #[trigger] views@[k],
                    ),
            decreases n - i,
        {
            let view = self.evaluate_entry(&self.policy.entries[i], now, now_mono);
            views.push(view);
            i += 1;
        }
        views
    }

    /// Decides a launch request. An unknown entry is denied as disabled;
    /// a known entry is denied with its current reasons, logged; an enabled
    /// entry is approved with a fresh plan carrying its label, warnings and
    /// the cap computed now. Only a denial of a known entry touches the
    /// audit log; nothing else changes.
    pub fn request_launch(
        &mut self,
        entry_id: &EntryId,
        now: WallTime,
        now_mono: MonotonicInstant,
    ) -> (r: LaunchDecision)
        requires
            old(self).wf(),
            now.wf(),
            old(self).audit_room(1),
        ensures
            final(self).wf(),
            final(self).policy == old(self).policy,
            final(self).capabilities == old(self).capabilities,
            final(self).current_session == old(self).current_session,
            final(self).history == old(self).history,
            final(self).store.spec_usage_rows() == old(self).store.spec_usage_rows(),
            final(self).store.spec_cooldown_rows() == old(self).store.spec_cooldown_rows(),
            final(self).store.spec_snapshot() == old(self).store.spec_snapshot(),
            match crate::policy::spec_find_entry(old(self).policy.entries@, entry_id@) {
                None => {
                    &&& r matches LaunchDecision::Denied { reasons } && reasons@.len() == 1 && (
                    reasons@[0] matches ReasonCode::Disabled { reason } && (reason matches Some(m)
                        && m@ == "Entry not found"@))
                    &&& final(self).store.spec_audits() == old(self).store.spec_audits()
                },
                Some(i) => {
                    let entry = old(self).policy.entries@[i];
                    let rs = old(self).spec_entry_reasons(entry, now, now_mono);
                    if rs.len() == 0 {
                        &&& r matches LaunchDecision::Approved(plan) && plan.entry_id@ == entry.id@
                            && plan.label == entry.label && plan.max_duration_millis
                            == spec_compute_max_duration(
                            entry,
                            now,
                            old(self).store.spec_usage_sat(entry.id@, now.days),
                        ) && plan.warnings@ == entry.warnings@
                        &&& final(self).store.spec_audits() == old(self).store.spec_audits()
                    } else {
                        &&& r matches LaunchDecision::Denied { reasons } && reasons@ == rs
                        &&& final(self).store.spec_audits().len() == old(
                            self,
                        ).store.spec_audits().len() + 1
                        &&& final(self).store.spec_audits().last().event matches
                            AuditEventType::LaunchDenied { entry_id: eid, reasons: ars } && eid@
                            == entry.id@ && ars@ == rs
                    }
                },
            },
    {
        let entry = match self.policy.get_entry(entry_id) {
            Some(e) => e,
            None => {
                let mut reasons: Vec<ReasonCode> = Vec::new();
                reasons.push(ReasonCode::Disabled {
                    reason: Some(String::from_str("Entry not found")),
                });
                return LaunchDecision::Denied { reasons };
            },
        };
        let view = self.evaluate_entry(entry, now, now_mono);
        if !view.enabled {
            let audit_reasons = crate::api::clone_reasons(&view.reasons);
            let eid = entry.id.clone();
            self.store.append_audit(
                now,
                AuditEventType::LaunchDenied { entry_id: eid, reasons: audit_reasons },
            );
            return LaunchDecision::Denied { reasons: view.reasons };
        }
        let plan = SessionPlan {
            session_id: SessionId::new(),
            entry_id: entry.id.clone(),
            label: entry.label.clone(),
            max_duration_millis: view.max_run_if_started_now,
            warnings: crate::api::clone_warnings(&entry.warnings),
        };
        LaunchDecision::Approved(plan)
    }

    /// Opens the session for an approved plan: the one Session comes into
    /// being, Launching, its deadlines fixed from the cap, and the start is
    /// logged. Requires that no session is active.
    pub fn start_session(
        &mut self,
        plan: SessionPlan,
        now: WallTime,
        now_mono: MonotonicInstant,
    ) -> (r: CoreEvent)
        requires
            old(self).wf(),
            old(self).current_session is None,
            ActiveSession::spec_plan_fits(plan, now, now_mono),
            old(self).audit_room(1),
        ensures
            final(self).wf(),
            final(self).policy == old(self).policy,
            final(self).capabilities == old(self).capabilities,
            final(self).history@ == old(self).history@.push(TraceEvent::SessionStarted),
            final(self).current_session matches Some(s) && {
                &&& s.plan == plan
                &&& s.state == SessionState::Launching
                &&& s.started_at == now
                &&& s.started_at_mono == now_mono
                &&& s.warnings_issued@.len() == 0
                &&& s.host_handle is None
                &&& (plan.max_duration_millis matches Some(m) ==> s.deadline_mono == Some(
                    MonotonicInstant { millis: (now_mono.millis + m) as u64 },
                ) && (s.deadline matches Some(d) && d.spec_total_secs() == now.spec_total_secs()
                    + m / 1000))
                &&& (plan.max_duration_millis is None ==> s.deadline_mono is None && s.deadline
                    is None)
                &&& (r matches CoreEvent::SessionStarted {
                    session_id,
                    entry_id,
                    label,
                    deadline,
                } && session_id == plan.session_id && entry_id@ == plan.entry_id@ && label@
                    == plan.label@ && deadline == s.deadline)
            },
            final(self).store.spec_usage_rows() == old(self).store.spec_usage_rows(),
            final(self).store.spec_cooldown_rows() == old(self).store.spec_cooldown_rows(),
            final(self).store.spec_snapshot() == old(self).store.spec_snapshot(),
            final(self).store.spec_audits().len() == old(self).store.spec_audits().len() + 1,
    {
        let session = ActiveSession::new(plan, now, now_mono);
        let deadline = session.deadline;
        let event = CoreEvent::SessionStarted {
            session_id: session.plan.session_id,
            entry_id: session.plan.entry_id.clone(),
            label: session.plan.label.clone(),
            deadline,
        };
        self.store.append_audit(
            now,
            AuditEventType::SessionStarted {
                session_id: session.plan.session_id,
                entry_id: session.plan.entry_id.clone(),
                label: session.plan.label.clone(),
                deadline,
            },
        );
        proof {
            lemma_history_push(self.history@, TraceEvent::SessionStarted);
        }
        self.history = Ghost(self.history@.push(TraceEvent::SessionStarted));
        self.current_session = Some(session);
        event
    }

    /// Hands the supervisor handle to the active session, which is then
    /// Running; without an active session nothing changes.
    pub fn attach_host_handle(&mut self, handle: HostSessionHandle)
        requires
            old(self).wf(),
        ensures
            final(self).wf(),
            final(self).policy == old(self).policy,
            final(self).capabilities == old(self).capabilities,
            final(self).history == old(self).history,
            final(self).store == old(self).store,
            match old(self).current_session {
                Some(s) => final(self).current_session == Some(
                    ActiveSession {
                        host_handle: Some(handle),
                        state: SessionState::Running,
                        ..s
                    },
                ),
                None => final(self).current_session is None,
            },
    {
        match &mut self.current_session {
            Some(s) => {
                s.attach_handle(handle);
            },
            None => {},
        }
    }

    /// One periodic step: fires every due warning once (moving a Running
    /// session to Warned and logging each), and, when the monotonic deadline
    /// has passed, moves the session to Expiring and signals it. Unlimited
    /// sessions produce nothing; without a session nothing happens. Every
    /// warning fired carries a threshold strictly below the session cap, and
    /// no threshold fires twice over the session's lifetime.
    #[verifier::rlimit(100)]
    pub fn tick(&mut self, now_mono: MonotonicInstant, now: WallTime) -> (events: Vec<CoreEvent>)
        requires
            old(self).wf(),
            old(self).audit_room(
                1 + match old(self).current_session {
                    Some(s) => s.plan.warnings@.len() as int,
                    None => 0int,
                },
            ),
        ensures
            final(self).wf(),
            final(self).policy == old(self).policy,
            final(self).capabilities == old(self).capabilities,
            final(self).history == old(self).history,
            final(self).store.spec_usage_rows() == old(self).store.spec_usage_rows(),
            final(self).store.spec_cooldown_rows() == old(self).store.spec_cooldown_rows(),
            final(self).store.spec_snapshot() == old(self).store.spec_snapshot(),
            match old(self).current_session {
                None => *final(self) == *old(self) && events@.len() == 0,
                Some(s) => match s.deadline_mono {
                    None => *final(self) == *old(self) && events@.len() == 0,
                    Some(dm) => {
                        let fired = spec_dedup(s.spec_pending(now_mono), s.warnings_issued@);
                        let expire = s.spec_is_expired(now_mono) && s.state
                            != SessionState::Expiring && s.state != SessionState::Ended;
                        &&& events@.len() == fired.len() + (if expire {
                            1int
                        } else {
                            0int
                        })
                        &&& forall|k: int|
                            0 <= k < fired.len() ==> ((#[trigger] events@[k]) matches
                                CoreEvent::Warning {
                                session_id,
                                threshold_seconds,
                                time_remaining_millis,
                                severity,
                                message,
                            } && session_id == s.plan.session_id && threshold_seconds == fired[k].0
                                && time_remaining_millis == fired[k].1 && severity
                                == spec_severity_for(s.plan.warnings@, fired[k].0) && message
                                == spec_message_for(s.plan.warnings@, fired[k].0))
                        &&& expire ==> (events@.last() matches CoreEvent::ExpireDue { session_id }
                            && session_id == s.plan.session_id)
                        &&& final(self).current_session matches Some(s2) && {
                            &&& s2.plan == s.plan
                            &&& s2.started_at == s.started_at
                            &&& s2.started_at_mono == s.started_at_mono
                            &&& s2.deadline == s.deadline
                            &&& s2.deadline_mono == s.deadline_mono
                            &&& s2.host_handle == s.host_handle
                            &&& s2.warnings_issued@ == s.warnings_issued@ + thresholds_of(fired)
                            &&& s2.state == (if expire {
                                SessionState::Expiring
                            } else if fired.len() > 0 && s.state == SessionState::Running {
                                SessionState::Warned
                            } else {
                                s.state
                            })
                        }
                        &&& final(self).store.spec_audits().len() == old(
                            self,
                        ).store.spec_audits().len() + fired.len()
                        &&& forall|k: int|
                            0 <= k < fired.len() ==> ((#[trigger] final(self).store.spec_audits()[old(
                                self,
                            ).store.spec_audits().len() + k]).event matches
                                AuditEventType::WarningIssued { session_id, threshold_seconds }
                                && session_id == s.plan.session_id && threshold_seconds
                                == fired[k].0)
                        &&& (s.plan.max_duration_millis matches Some(m) ==> forall|k: int|
                            0 <= k < fired.len() ==> crate::policy::spec_secs_to_millis(
                                (#[trigger] fired[k]).0,
                            ) < m)
                        &&& forall|k1: int, k2: int|
                            0 <= k1 < k2 < fired.len() ==> (#[trigger] fired[k1]).0 != (
                            #[trigger] fired[k2]).0
                        &&& forall|k: int|
                            0 <= k < fired.len() ==> !s.warnings_issued@.contains(
                                (#[trigger] fired[k]).0,
                            )
                    },
                },
            },
    {
        let mut events: Vec<CoreEvent> = Vec::new();
        let mut session = match self.current_session.take() {
            Some(s) => s,
            None => {
                return events;
            },
        };
        let ghost s0 = session;
        if session.deadline_mono.is_none() {
            self.current_session = Some(session);
            return events;
        }
        let pending = session.pending_warnings(now_mono);
        let ghost old_issued = session.warnings_issued@;
        let ghost old_state = session.state;
        let ghost old_audits = self.store.spec_audits();
        let ghost mut fired_so_far: Seq<(u64, u64)> = Seq::empty();
        proof {
            assert(pending@.skip(0) =~= pending@);
            lemma_pending_len(
                session.plan.spec_warning_times(),
                old_issued,
                s0.spec_duration_so_far(now_mono),
                match s0.deadline_mono {
                    Some(d) => if d.millis > now_mono.millis {
                        (d.millis - now_mono.millis) as u64
                    } else {
                        0u64
                    },
                    None => 0u64,
                },
            );
            lemma_schedule_lengths(s0.plan.warnings@, s0.plan.max_duration_millis->0);
        }
        let n = pending.len();
        let mut i: usize = 0;
        while i < n
            invariant
                i <= n,
                n == pending@.len(),
                pending@ == s0.spec_pending(now_mono),
                pending@.len() <= s0.plan.warnings@.len(),
                old_issued == s0.warnings_issued@,
                old_state == s0.state,
                session.plan == s0.plan,
                session.started_at == s0.started_at,
                session.started_at_mono == s0.started_at_mono,
                session.deadline == s0.deadline,
                session.deadline_mono == s0.deadline_mono,
                session.host_handle == s0.host_handle,
                session.warnings_issued@ == old_issued + thresholds_of(fired_so_far),
                session.state == (if fired_so_far.len() > 0 && old_state == SessionState::Running {
                    SessionState::Warned
                } else {
                    old_state
                }),
                s0.wf() ==> session.wf(),
                fired_so_far.len() <= i,
                spec_dedup(pending@, old_issued) == fired_so_far + spec_dedup(
                    pending@.skip(i as int),
                    session.warnings_issued@,
                ),
                events@.len() == fired_so_far.len(),
                forall|k: int|
                    0 <= k < fired_so_far.len() ==> ((#[trigger] events@[k]) matches
                        CoreEvent::Warning {
                        session_id,
                        threshold_seconds,
                        time_remaining_millis,
                        severity,
                        message,
                    } && session_id == s0.plan.session_id && threshold_seconds == fired_so_far[k].0
                        && time_remaining_millis == fired_so_far[k].1 && severity
                        == spec_severity_for(s0.plan.warnings@, fired_so_far[k].0) && message
                        == spec_message_for(s0.plan.warnings@, fired_so_far[k].0)),
                self.store.wf(),
                self.store.spec_audits().len() == old_audits.len() + fired_so_far.len(),
                old_audits.len() + pending@.len() + 1 <= u64::MAX,
                forall|k: int|
                    0 <= k < old_audits.len() ==> #[trigger] self.store.spec_audits()[k]
                        == old_audits[k],
                forall|k: int|
                    0 <= k < fired_so_far.len() ==> ((#[trigger] self.store.spec_audits()[old_audits.len()
                        + k]).event matches AuditEventType::WarningIssued {
                        session_id,
                        threshold_seconds,
                    } && session_id == s0.plan.session_id && threshold_seconds == fired_so_far[k].0),
                self.store.spec_usage_rows() == old(self).store.spec_usage_rows(),
                self.store.spec_cooldown_rows() == old(self).store.spec_cooldown_rows(),
                self.store.spec_snapshot() == old(self).store.spec_snapshot(),
                self.policy == old(self).policy,
                self.capabilities == old(self).capabilities,
                self.history == old(self).history,
                self.current_session is None,
            decreases n - i,
        {
            proof {
                assert(pending@.skip(i as int)[0] == pending@[i as int]);
                assert(pending@.skip(i as int).drop_first() =~= pending@.skip(i as int + 1));
            }
            let t = pending[i].0;
            let rem = pending[i].1;
            if !contains_u64(&session.warnings_issued, t) {
                let ghost issued_before = session.warnings_issued@;
                let (sev, msg) = severity_message_for(&session.plan.warnings, t);
                session.mark_warning_issued(t);
                self.store.append_audit(
                    now,
                    AuditEventType::WarningIssued {
                        session_id: session.plan.session_id,
                        threshold_seconds: t,
                    },
                );
                events.push(CoreEvent::Warning {
                    session_id: session.plan.session_id,
                    threshold_seconds: t,
                    time_remaining_millis: rem,
                    severity: sev,
                    message: msg,
                });
                proof {
                    fired_so_far = fired_so_far.push((t, rem));
                    assert(thresholds_of(fired_so_far) =~= thresholds_of(fired_so_far.drop_last())
                        .push(t));
                    assert(session.warnings_issued@ =~= old_issued + thresholds_of(fired_so_far));
                }
            }
            i += 1;
        }
        proof {
            assert(pending@.skip(n as int) =~= Seq::<(u64, u64)>::empty());
            assert(fired_so_far + Seq::<(u64, u64)>::empty() =~= fired_so_far);
            assert(fired_so_far == spec_dedup(pending@, old_issued));
            lemma_dedup_distinct_fresh(pending@, old_issued);
            lemma_dedup_subset(pending@, old_issued);
            crate::session::lemma_pending_from_schedule(
                s0.plan.spec_warning_times(),
                old_issued,
                s0.spec_duration_so_far(now_mono),
                match s0.deadline_mono {
                    Some(d) => if d.millis > now_mono.millis {
                        (d.millis - now_mono.millis) as u64
                    } else {
                        0u64
                    },
                    None => 0u64,
                },
            );
            if s0.plan.max_duration_millis is Some {
                crate::session::lemma_warning_times_below_cap(
                    s0.plan.warnings@,
                    s0.plan.max_duration_millis->0,
                );
            }
        }
        let expire = session.is_expired(now_mono) && session.state != SessionState::Expiring
            && session.state != SessionState::Ended;
        if expire {
            session.mark_expiring();
            events.push(CoreEvent::ExpireDue { session_id: session.plan.session_id });
        }
        self.current_session = Some(session);
        events
    }

    /// The cooldown configured for the session's entry, if any.
    pub open spec fn spec_session_cooldown(self, s: ActiveSession) -> Option<u64> {
        match crate::policy::spec_find_entry(self.policy.entries@, s.plan.entry_id@) {
            Some(i) => self.policy.entries@[i].limits.cooldown_millis,
            None => None,
        }
    }

    /// Whether ending the session now stays within wall-clock bounds.
    pub open spec fn spec_end_fits(self, now: WallTime) -> bool {
        match self.current_session {
            Some(s) => match self.spec_session_cooldown(s) {
                Some(cd) => now.spec_total_secs() + cd / 1000 < crate::time::MAX_DAY_INDEX * 86400,
                None => true,
            },
            None => true,
        }
    }

    /// The bookkeeping both ways of ending a session share, stated over the
    /// old and new engine: the session is gone, its run time is credited to
    /// today, the cooldown (when configured) is written as now plus the
    /// configured span, the end is logged, and the trace records it.
    pub open spec fn spec_ended_ok(
        old_e: CoreEngine,
        new_e: CoreEngine,
        s: ActiveSession,
        reason: SessionEndReason,
        now_mono: MonotonicInstant,
        now: WallTime,
    ) -> bool {
        let dur = s.spec_duration_so_far(now_mono);
        &&& new_e.current_session is None
        &&& new_e.history@ == old_e.history@.push(TraceEvent::SessionEnded)
        &&& new_e.store.spec_usage(s.plan.entry_id@, now.days) == old_e.store.spec_usage(
            s.plan.entry_id@,
            now.days,
        ) + dur
        &&& forall|id2: Seq<char>, day2: u64|
            !(id2 == s.plan.entry_id@ && day2 == now.days) ==> new_e.store.spec_usage(id2, day2)
                == old_e.store.spec_usage(id2, day2)
        &&& match old_e.spec_session_cooldown(s) {
            Some(cd) => new_e.store.spec_cooldown(s.plan.entry_id@) matches Some(u) && u.wf()
                && u.spec_total_secs() == now.spec_total_secs() + cd / 1000,
            None => new_e.store.spec_cooldown(s.plan.entry_id@) == old_e.store.spec_cooldown(
                s.plan.entry_id@,
            ),
        }
        &&& forall|id2: Seq<char>|
            id2 != s.plan.entry_id@ ==> new_e.store.spec_cooldown(id2)
                == old_e.store.spec_cooldown(id2)
        &&& new_e.store.spec_audits().len() == old_e.store.spec_audits().len() + 1
        &&& (new_e.store.spec_audits().last().event matches AuditEventType::SessionEnded {
            session_id,
            entry_id,
            reason: r2,
            duration_millis,
        } && session_id == s.plan.session_id && entry_id@ == s.plan.entry_id@ && r2 == reason
            && duration_millis == dur)
        &&& new_e.store.spec_snapshot() == old_e.store.spec_snapshot()
        &&& new_e.policy == old_e.policy
        &&& new_e.capabilities == old_e.capabilities
    }

    fn end_session_bookkeeping(
        &mut self,
        session: &ActiveSession,
        reason: &SessionEndReason,
        duration: u64,
        now: WallTime,
    )
        requires
            old(self).store.wf(),
            now.wf(),
            old(self).audit_room(1),
            match old(self).spec_session_cooldown(*session) {
                Some(cd) => now.spec_total_secs() + cd / 1000 < crate::time::MAX_DAY_INDEX * 86400,
                None => true,
            },
        ensures
            final(self).store.wf(),
            final(self).current_session == old(self).current_session,
            final(self).history == old(self).history,
            final(self).policy == old(self).policy,
            final(self).capabilities == old(self).capabilities,
            final(self).store.spec_usage(session.plan.entry_id@, now.days) == old(
                self,
            ).store.spec_usage(session.plan.entry_id@, now.days) + duration,
            forall|id2: Seq<char>, day2: u64|
                !(id2 == session.plan.entry_id@ && day2 == now.days) ==> final(self).store.spec_usage(id2, day2) == old(self).store.spec_usage(id2, day2),
            match old(self).spec_session_cooldown(*session) {
                Some(cd) => final(self).store.spec_cooldown(session.plan.entry_id@) matches Some(u)
                    && u.wf() && u.spec_total_secs() == now.spec_total_secs() + cd / 1000,
                None => final(self).store.spec_cooldown(session.plan.entry_id@) == old(
                    self,
                ).store.spec_cooldown(session.plan.entry_id@),
            },
            forall|id2: Seq<char>|
                id2 != session.plan.entry_id@ ==> final(self).store.spec_cooldown(id2) == old(
                    self,
                ).store.spec_cooldown(id2),
            final(self).store.spec_audits().len() == old(self).store.spec_audits().len() + 1,
            (final(self).store.spec_audits().last().event matches AuditEventType::SessionEnded {
                session_id,
                entry_id,
                reason: r2,
                duration_millis,
            } && session_id == session.plan.session_id && entry_id@ == session.plan.entry_id@ && r2
                == *reason && duration_millis == duration),
            final(self).store.spec_snapshot() == old(self).store.spec_snapshot(),
    {
        self.store.add_usage(&session.plan.entry_id, now.days, duration);
        let ghost st1 = self.store;
        let cooldown: Option<u64> = match self.policy.get_entry(&session.plan.entry_id) {
            Some(entry) => entry.limits.cooldown_millis,
            None => None,
        };
        match cooldown {
            Some(cd) => {
                let until = now.plus_secs(cd / 1000);
                self.store.set_cooldown_until(&session.plan.entry_id, until);
            },
            None => {},
        }
        let ghost st2 = self.store;
        self.store.append_audit(
            now,
            AuditEventType::SessionEnded {
                session_id: session.plan.session_id,
                entry_id: session.plan.entry_id.clone(),
                reason: reason.clone(),
                duration_millis: duration,
            },
        );
        proof {
            assert(st1.spec_cooldown_rows() == old(self).store.spec_cooldown_rows());
            assert(self.store.spec_cooldown_rows() == st2.spec_cooldown_rows());
            assert forall|id2: Seq<char>|
                id2 != session.plan.entry_id@ implies self.store.spec_cooldown(id2) == old(
                self,
            ).store.spec_cooldown(id2) by {
                assert(st1.spec_cooldown(id2) == old(self).store.spec_cooldown(id2));
                assert(st2.spec_cooldown(id2) == st1.spec_cooldown(id2));
                assert(self.store.spec_cooldown(id2) == st2.spec_cooldown(id2));
            }
        }
    }

    /// Ends the active session on request: credits its run time to today,
    /// writes the entry's cooldown if one is configured, logs the end, and
    /// hands the result (with the exact monotonic duration) back. Without a
    /// session the answer is NoActiveSession and nothing changes.
    pub fn stop_current(
        &mut self,
        reason: SessionEndReason,
        now_mono: MonotonicInstant,
        now: WallTime,
    ) -> (r: StopDecision)
        requires
            old(self).wf(),
            now.wf(),
            old(self).audit_room(1),
            old(self).spec_end_fits(now),
        ensures
            final(self).wf(),
            match old(self).current_session {
                None => r is NoActiveSession && *final(self) == *old(self),
                Some(s) => {
                    &&& (r matches StopDecision::Stopped(res) && res.session_id
                        == s.plan.session_id && res.entry_id@ == s.plan.entry_id@ && res.reason
                        == reason && res.duration_millis == s.spec_duration_so_far(now_mono))
                    &&& Self::spec_ended_ok(*old(self), *final(self), s, reason, now_mono, now)
                },
            },
    {
        let session = match self.current_session.take() {
            Some(s) => s,
            None => {
                return StopDecision::NoActiveSession;
            },
        };
        let duration = session.duration_so_far(now_mono);
        self.end_session_bookkeeping(&session, &reason, duration, now);
        proof {
            lemma_history_push(self.history@, TraceEvent::SessionEnded);
        }
        self.history = Ghost(self.history@.push(TraceEvent::SessionEnded));
        StopDecision::Stopped(StopResult {
            session_id: session.plan.session_id,
            entry_id: session.plan.entry_id,
            reason,
            duration_millis: duration,
        })
    }

    /// Closes the session after the supervisor reported the child gone. The
    /// reason is Expired when termination had been initiated (the session
    /// was Expiring), otherwise the child's own exit; bookkeeping is the
    /// same as for an explicit stop. None without a session.
    pub fn notify_session_exited(
        &mut self,
        exit_code: Option<i32>,
        now_mono: MonotonicInstant,
        now: WallTime,
    ) -> (r: Option<CoreEvent>)
        requires
            old(self).wf(),
            now.wf(),
            old(self).audit_room(1),
            old(self).spec_end_fits(now),
        ensures
            final(self).wf(),
            match old(self).current_session {
                None => r is None && *final(self) == *old(self),
                Some(s) => {
                    let reason = if s.state == SessionState::Expiring {
                        SessionEndReason::Expired
                    } else {
                        SessionEndReason::ProcessExited { exit_code }
                    };
                    &&& (r matches Some(ev) && ev matches CoreEvent::SessionEnded {
                        session_id,
                        entry_id,
                        reason: r2,
                        duration_millis,
                    } && session_id == s.plan.session_id && entry_id@ == s.plan.entry_id@ && r2
                        == reason && duration_millis == s.spec_duration_so_far(now_mono))
                    &&& Self::spec_ended_ok(*old(self), *final(self), s, reason, now_mono, now)
                },
            },
    {
        let session = match self.current_session.take() {
            Some(s) => s,
            None => {
                return None;
            },
        };
        let duration = session.duration_so_far(now_mono);
        let reason = if session.state == SessionState::Expiring {
            SessionEndReason::Expired
        } else {
            SessionEndReason::ProcessExited { exit_code }
        };
        self.end_session_bookkeeping(&session, &reason, duration, now);
        proof {
            lemma_history_push(self.history@, TraceEvent::SessionEnded);
        }
        self.history = Ghost(self.history@.push(TraceEvent::SessionEnded));
        Some(CoreEvent::SessionEnded {
            session_id: session.plan.session_id,
            entry_id: session.plan.entry_id,
            reason,
            duration_millis: duration,
        })
    }

    /// Whether extending by this much stays within clock bounds.
    pub open spec fn spec_extend_fits(self, by_millis: u64) -> bool {
        match self.current_session {
            Some(s) => match (s.deadline_mono, s.deadline) {
                (Some(dm), Some(d)) => dm.millis + by_millis <= u64::MAX && d.spec_total_secs()
                    + by_millis / 1000 < crate::time::MAX_DAY_INDEX * 86400,
                _ => true,
            },
            None => true,
        }
    }

    /// Extends the active session: both deadlines move forward by exactly
    /// the requested span, already-issued warnings stay issued, and the
    /// extension is logged. An unlimited session (no deadline) or an idle
    /// engine answers None and changes nothing.
    pub fn extend_current(
        &mut self,
        by_millis: u64,
        now_mono: MonotonicInstant,
        now: WallTime,
    ) -> (r: Option<WallTime>)
        requires
            old(self).wf(),
            now.wf(),
            old(self).audit_room(1),
            old(self).spec_extend_fits(by_millis),
        ensures
            final(self).wf(),
            final(self).policy == old(self).policy,
            final(self).capabilities == old(self).capabilities,
            final(self).history == old(self).history,
            match old(self).current_session {
                None => r is None && *final(self) == *old(self),
                Some(s) => match s.deadline_mono {
                    None => r is None && *final(self) == *old(self),
                    Some(dm) => {
                        &&& final(self).current_session matches Some(s2) && {
                            &&& s2.plan == s.plan
                            &&& s2.state == s.state
                            &&& s2.started_at == s.started_at
                            &&& s2.started_at_mono == s.started_at_mono
                            &&& s2.host_handle == s.host_handle
                            &&& s2.warnings_issued@ == s.warnings_issued@
                            &&& s2.deadline_mono matches Some(dm2) && dm2.millis == dm.millis
                                + by_millis
                            &&& (s2.deadline matches Some(d2) && s.deadline matches Some(d1)
                                && d2.spec_total_secs() == d1.spec_total_secs() + by_millis / 1000)
                            &&& r == s2.deadline
                        }
                        &&& final(self).store.spec_audits().len() == old(
                            self,
                        ).store.spec_audits().len() + 1
                        &&& (final(self).store.spec_audits().last().event matches
                            AuditEventType::SessionExtended {
                            session_id,
                            extended_by_millis,
                            new_deadline,
                        } && session_id == s.plan.session_id && extended_by_millis == by_millis)
                        &&& final(self).store.spec_usage_rows() == old(self).store.spec_usage_rows()
                        &&& final(self).store.spec_cooldown_rows() == old(
                            self,
                        ).store.spec_cooldown_rows()
                        &&& final(self).store.spec_snapshot() == old(self).store.spec_snapshot()
                    },
                },
            },
    {
        let mut session = match self.current_session.take() {
            Some(s) => s,
            None => {
                return None;
            },
        };
        let dm = match session.deadline_mono {
            Some(dm) => dm,
            None => {
                self.current_session = Some(session);
                return None;
            },
        };
        let d = match session.deadline {
            Some(d) => d,
            None => {
                self.current_session = Some(session);
                return None;
            },
        };
        let new_dm = dm.add_millis(by_millis);
        let new_d = d.plus_secs(by_millis / 1000);
        session.deadline_mono = Some(new_dm);
        session.deadline = Some(new_d);
        self.store.append_audit(
            now,
            AuditEventType::SessionExtended {
                session_id: session.plan.session_id,
                extended_by_millis: by_millis,
                new_deadline: new_d,
            },
        );
        self.current_session = Some(session);
        Some(new_d)
    }

    /// The service state as shown to clients: the session (if any) with its
    /// remaining time, and every entry's availability.
    pub fn get_state(&self, now: WallTime, now_mono: MonotonicInstant) -> (r: ServiceStateSnapshot)
        requires
            self.wf(),
            now.wf(),
        ensures
            r.api_version == API_VERSION,
            r.policy_loaded,
            r.entry_count == self.policy.entries@.len(),
            r.entries@.len() == self.policy.entries@.len(),
            forall|i: int|
                0 <= i < r.entries@.len() ==> self.spec_view_ok(
                    self.policy.entries@[i],
                    now,
                    now_mono,
                    #[trigger] r.entries@[i],
                ),
            match self.current_session {
                Some(s) => r.current_session matches Some(info) && {
                    &&& info.session_id == s.plan.session_id
                    &&& info.entry_id@ == s.plan.entry_id@
                    &&& info.label@ == s.plan.label@
                    &&& info.state == s.state
                    &&& info.started_at == s.started_at
                    &&& info.deadline == s.deadline
                    &&& info.time_remaining_millis == s.spec_time_remaining(now_mono)
                    &&& info.warnings_issued@ == s.warnings_issued@
                },
                None => r.current_session is None,
            },
    {
        let current_session = match &self.current_session {
            Some(s) => {
                let mut ws: Vec<u64> = Vec::new();
                let wn = s.warnings_issued.len();
                let mut wi: usize = 0;
                while wi < wn
                    invariant
                        wi <= wn,
                        wn == s.warnings_issued@.len(),
                        self.current_session matches Some(cs) && cs == *s,
                        ws@ =~= s.warnings_issued@.subrange(0, wi as int),
                    decreases wn - wi,
                {
                    ws.push(s.warnings_issued[wi]);
                    wi += 1;
                    proof {
                        assert(ws@ =~= s.warnings_issued@.subrange(0, wi as int));
                    }
                }
                proof {
                    assert(ws@ =~= s.warnings_issued@);
                }
                Some(SessionInfo {
                    session_id: s.plan.session_id,
                    entry_id: s.plan.entry_id.clone(),
                    label: s.plan.label.clone(),
                    state: s.state,
                    started_at: s.started_at,
                    deadline: s.deadline,
                    time_remaining_millis: s.time_remaining(now_mono),
                    warnings_issued: ws,
                })
            },
            None => None,
        };
        let entries = self.list_entries(now, now_mono);
        let entry_count = self.policy.entries.len();
        ServiceStateSnapshot {
            api_version: API_VERSION,
            policy_loaded: true,
            current_session,
            entry_count,
            entries,
        }
    }

    /// The number of audit records written so far.
    pub fn audit_len(&self) -> (r: usize)
        ensures
            r == self.store.spec_audits().len(),
    {
        self.store.audit_count()
    }

    /// Whether ending the active session now stays within clock bounds.
    pub fn end_fits(&self, now: WallTime) -> (r: bool)
        requires
            now.wf(),
        ensures
            r == self.spec_end_fits(now),
    {
        let session = match &self.current_session {
            Some(s) => s,
            None => {
                return true;
            },
        };
        let cooldown = match self.policy.get_entry(&session.plan.entry_id) {
            Some(entry) => entry.limits.cooldown_millis,
            None => None,
        };
        match cooldown {
            Some(cd) => {
                now.total_secs_fits(cd / 1000)
            },
            None => true,
        }
    }

    /// Whether extending the active session by this much stays within clock
    /// bounds.
    pub fn extend_fits(&self, by_millis: u64) -> (r: bool)
        requires
            self.wf(),
        ensures
            r == self.spec_extend_fits(by_millis),
    {
        let session = match &self.current_session {
            Some(s) => s,
            None => {
                return true;
            },
        };
        match (session.deadline_mono, session.deadline) {
            (Some(dm), Some(d)) => {
                dm.millis <= u64::MAX - by_millis && d.total_secs_fits(by_millis / 1000)
            },
            _ => true,
        }
    }

    /// The active session, for inspection.
    pub fn current_session(&self) -> (r: Option<&ActiveSession>)
        ensures
            match self.current_session {
                Some(s) => r matches Some(rs) && *rs == s,
                None => r is None,
            },
    {
        self.current_session.as_ref()
    }
}

/// At every prefix of the engine's trace, sessions started exceed sessions
/// ended by zero or one; the full trace balances with whether a session is
/// active now.
pub proof fn lemma_session_trace_balance(e: CoreEngine)
    requires
        e.wf(),
    ensures
        forall|p: int|
            0 <= p <= e.history@.len() ==> 0 <= spec_balance(#[trigger] e.history@.take(p)) <= 1,
        spec_balance(e.history@) == (if e.current_session is Some {
            1int
        } else {
            0int
        }),
{
}

/// An active cooldown or a spent daily quota each put their reason code in
/// the entry's reason list, so a launch attempt is denied carrying it.
pub proof fn lemma_denial_reasons(
    e: CoreEngine,
    entry: Entry,
    now: WallTime,
    now_mono: MonotonicInstant,
)
    ensures
        (e.store.spec_cooldown(entry.id@) matches Some(until) && until.spec_total_secs()
            > now.spec_total_secs()) ==> exists|i: int|
            0 <= i < e.spec_entry_reasons(entry, now, now_mono).len() && ((
            #[trigger] e.spec_entry_reasons(entry, now, now_mono)[i]) matches
                ReasonCode::CooldownActive { available_at } && available_at == e.store.spec_cooldown(
                entry.id@,
            )->0),
        (entry.limits.daily_quota_millis matches Some(q) && e.store.spec_usage_sat(
            entry.id@,
            now.days,
        ) >= q) ==> exists|i: int|
            0 <= i < e.spec_entry_reasons(entry, now, now_mono).len() && ((
            #[trigger] e.spec_entry_reasons(entry, now, now_mono)[i]) matches
                ReasonCode::QuotaExhausted { used_millis, quota_millis } && used_millis
                == e.store.spec_usage_sat(entry.id@, now.days) && quota_millis
                == entry.limits.daily_quota_millis->0),
{
    let rs = e.spec_entry_reasons(entry, now, now_mono);
    let seg1: Seq<ReasonCode> = if entry.disabled {
        seq![ReasonCode::Disabled { reason: entry.disabled_reason }]
    } else {
        Seq::empty()
    };
    let seg2: Seq<ReasonCode> = if !e.capabilities.spec_supports(entry.kind.spec_tag()) {
        seq![ReasonCode::UnsupportedKind { kind: entry.kind.spec_tag() }]
    } else {
        Seq::empty()
    };
    let seg3: Seq<ReasonCode> = if !crate::policy::spec_is_available(entry.availability, now) {
        seq![ReasonCode::OutsideTimeWindow { next_window_start: None }]
    } else {
        Seq::empty()
    };
    let seg4: Seq<ReasonCode> = match e.current_session {
        Some(s) => seq![
            ReasonCode::SessionActive {
                entry_id: s.plan.entry_id,
                remaining_millis: s.spec_time_remaining(now_mono),
            },
        ],
        None => Seq::empty(),
    };
    let seg5: Seq<ReasonCode> = match e.store.spec_cooldown(entry.id@) {
        Some(until) => if until.spec_total_secs() > now.spec_total_secs() {
            seq![ReasonCode::CooldownActive { available_at: until }]
        } else {
            Seq::empty()
        },
        None => Seq::empty(),
    };
    let seg6: Seq<ReasonCode> = match entry.limits.daily_quota_millis {
        Some(q) => if e.store.spec_usage_sat(entry.id@, now.days) >= q {
            seq![
                ReasonCode::QuotaExhausted {
                    used_millis: e.store.spec_usage_sat(entry.id@, now.days),
                    quota_millis: q,
                },
            ]
        } else {
            Seq::empty()
        },
        None => Seq::empty(),
    };
    assert(rs == seg1 + seg2 + seg3 + seg4 + seg5 + seg6);
    if e.store.spec_cooldown(entry.id@) matches Some(until) && until.spec_total_secs()
        > now.spec_total_secs() {
        let i = seg1.len() + seg2.len() + seg3.len() + seg4.len();
        assert(rs[i as int] == seg5[0]);
    }
    if entry.limits.daily_quota_millis matches Some(q) && e.store.spec_usage_sat(
        entry.id@,
        now.days,
    ) >= q {
        let i = seg1.len() + seg2.len() + seg3.len() + seg4.len() + seg5.len();
        assert(rs[i as int] == seg6[0]);
    }
}

/// The launch decision's firing order, deduplicated: entries whose
/// threshold was already seen are dropped, in order.
pub open spec fn spec_dedup(p: Seq<(u64, u64)>, seen: Seq<u64>) -> Seq<(u64, u64)>
    decreases p.len(),
{
    if p.len() == 0 {
        Seq::empty()
    } else if seen.contains(p[0].0) {
        spec_dedup(p.drop_first(), seen)
    } else {
        seq![p[0]] + spec_dedup(p.drop_first(), seen.push(p[0].0))
    }
}

/// The thresholds of a warning batch.
pub open spec fn thresholds_of(p: Seq<(u64, u64)>) -> Seq<u64> {
    p.map_values(|x: (u64, u64)| x.0)
}

/// The severity configured for a threshold: its first configured warning's,
/// or Warn when none names it.
pub open spec fn spec_severity_for(ws: Seq<WarningThreshold>, t: u64) -> WarningSeverity
    decreases ws.len(),
{
    if ws.len() == 0 {
        WarningSeverity::Warn
    } else if ws[0].seconds_before == t {
        ws[0].severity
    } else {
        spec_severity_for(ws.drop_first(), t)
    }
}

/// The message configured for a threshold: its first configured warning's.
pub open spec fn spec_message_for(ws: Seq<WarningThreshold>, t: u64) -> Option<String>
    decreases ws.len(),
{
    if ws.len() == 0 {
        None
    } else if ws[0].seconds_before == t {
        ws[0].message_template
    } else {
        spec_message_for(ws.drop_first(), t)
    }
}

fn severity_message_for(ws: &Vec<WarningThreshold>, t: u64) -> (r: (WarningSeverity, Option<
    String,
>))
    ensures
        r.0 == spec_severity_for(ws@, t),
        r.1 == spec_message_for(ws@, t),
{
    let n = ws.len();
    let mut i: usize = 0;
    proof {
        assert(ws@.skip(0) =~= ws@);
    }
    while i < n
        invariant
            i <= n,
            n == ws@.len(),
            spec_severity_for(ws@, t) == spec_severity_for(ws@.skip(i as int), t),
            spec_message_for(ws@, t) == spec_message_for(ws@.skip(i as int), t),
        decreases n - i,
    {
        proof {
            assert(ws@.skip(i as int)[0] == ws@[i as int]);
            assert(ws@.skip(i as int).drop_first() =~= ws@.skip(i as int + 1));
        }
        if ws[i].seconds_before == t {
            return (
                ws[i].severity,
                match &ws[i].message_template {
                    Some(m) => Some(m.clone()),
                    None => None,
                },
            );
        }
        i += 1;
    }
    proof {
        assert(ws@.skip(n as int) =~= Seq::<WarningThreshold>::empty());
    }
    (WarningSeverity::Warn, None)
}

/// The deduplicated batch has pairwise distinct thresholds, none of them in
/// `seen`.
pub proof fn lemma_dedup_distinct_fresh(p: Seq<(u64, u64)>, seen: Seq<u64>)
    ensures
        forall|k1: int, k2: int|
            0 <= k1 < k2 < spec_dedup(p, seen).len() ==> (#[trigger] spec_dedup(p, seen)[k1]).0 != (
            #[trigger] spec_dedup(p, seen)[k2]).0,
        forall|k: int|
            0 <= k < spec_dedup(p, seen).len() ==> !seen.contains(
                (#[trigger] spec_dedup(p, seen)[k]).0,
            ),
    decreases p.len(),
{
    if p.len() > 0 {
        if seen.contains(p[0].0) {
            lemma_dedup_distinct_fresh(p.drop_first(), seen);
            assert(spec_dedup(p, seen) == spec_dedup(p.drop_first(), seen));
        } else {
            let seen2 = seen.push(p[0].0);
            lemma_dedup_distinct_fresh(p.drop_first(), seen2);
            let whole = spec_dedup(p, seen);
            let rest = spec_dedup(p.drop_first(), seen2);
            assert(whole == seq![p[0]] + rest);
            assert(whole[0] == p[0]);
            assert(forall|k: int| 1 <= k < whole.len() ==> whole[k] == rest[k - 1]);
            assert forall|k: int|
                0 <= k < whole.len() implies !seen.contains((#[trigger] whole[k]).0) by {
                if k == 0 {
                } else {
                    assert(whole[k] == rest[k - 1]);
                    assert(!seen2.contains(rest[k - 1].0));
                    assert(seen2.contains(whole[k].0) == (seen.contains(whole[k].0) || whole[k].0
                        == p[0].0)) by {
                        if seen.contains(whole[k].0) {
                            let w = choose|w: int| 0 <= w < seen.len() && seen[w] == whole[k].0;
                            assert(seen2[w] == whole[k].0);
                            assert(seen2.contains(whole[k].0));
                        }
                        if whole[k].0 == p[0].0 {
                            assert(seen2[seen.len() as int] == whole[k].0);
                            assert(seen2.contains(whole[k].0));
                        }
                        if seen2.contains(whole[k].0) {
                            let w = choose|w: int|
                                0 <= w < seen2.len() && seen2[w] == whole[k].0;
                            if w < seen.len() {
                                assert(seen[w] == whole[k].0);
                            }
                        }
                    }
                }
            }
            assert forall|k1: int, k2: int|
                0 <= k1 < k2 < whole.len() implies (#[trigger] whole[k1]).0 != (
            #[trigger] whole[k2]).0 by {
                if k1 == 0 {
                    assert(whole[k2] == rest[k2 - 1]);
                    assert(!seen2.contains(rest[k2 - 1].0));
                    assert(seen2[seen.len() as int] == p[0].0);
                    if rest[k2 - 1].0 == p[0].0 {
                        assert(seen2.contains(rest[k2 - 1].0));
                    }
                } else {
                    assert(whole[k1] == rest[k1 - 1]);
                    assert(whole[k2] == rest[k2 - 1]);
                }
            }
        }
    }
}

/// Every element of the deduplicated batch comes from the batch itself.
pub proof fn lemma_dedup_subset(p: Seq<(u64, u64)>, seen: Seq<u64>)
    ensures
        forall|k: int|
            0 <= k < spec_dedup(p, seen).len() ==> exists|j: int|
                0 <= j < p.len() && p[j] == #[trigger] spec_dedup(p, seen)[k],
        spec_dedup(p, seen).len() <= p.len(),
    decreases p.len(),
{
    if p.len() > 0 {
        let whole = spec_dedup(p, seen);
        if seen.contains(p[0].0) {
            lemma_dedup_subset(p.drop_first(), seen);
            assert forall|k: int|
                0 <= k < whole.len() implies exists|j: int|
                0 <= j < p.len() && p[j] == #[trigger] whole[k] by {
                let j0 = choose|j0: int|
                    0 <= j0 < p.drop_first().len() && p.drop_first()[j0] == whole[k];
                assert(p[j0 + 1] == whole[k]);
            }
        } else {
            lemma_dedup_subset(p.drop_first(), seen.push(p[0].0));
            let rest = spec_dedup(p.drop_first(), seen.push(p[0].0));
            assert forall|k: int|
                0 <= k < whole.len() implies exists|j: int|
                0 <= j < p.len() && p[j] == #[trigger] whole[k] by {
                if k == 0 {
                    assert(p[0] == whole[0]);
                } else {
                    assert(whole[k] == rest[k - 1]);
                    let j0 = choose|j0: int|
                        0 <= j0 < p.drop_first().len() && p.drop_first()[j0] == rest[k - 1];
                    assert(p[j0 + 1] == whole[k]);
                }
            }
        }
    }
}

/// The pending batch is no longer than the schedule, which is no longer
/// than the configured warnings.
pub proof fn lemma_schedule_lengths(ws: Seq<WarningThreshold>, m: u64)
    ensures
        crate::session::spec_warning_times_of(ws, m).len() <= ws.len(),
    decreases ws.len(),
{
    if ws.len() > 0 {
        lemma_schedule_lengths(ws.drop_last(), m);
    }
}

/// Pending warnings never outnumber the schedule.
pub proof fn lemma_pending_len(wt: Seq<(u64, u64)>, issued: Seq<u64>, elapsed: u64, remaining: u64)
    ensures
        crate::session::spec_pending_of(wt, issued, elapsed, remaining).len() <= wt.len(),
    decreases wt.len(),
{
    if wt.len() > 0 {
        lemma_pending_len(wt.drop_last(), issued, elapsed, remaining);
    }
}

/// Growing a trace keeps every old prefix and adds one: the balance stays in
/// range when a start happens at balance zero or an end at balance one.
proof fn lemma_history_push(h: Seq<TraceEvent>, ev: TraceEvent)
    requires
        forall|p: int| 0 <= p <= h.len() ==> 0 <= spec_balance(#[trigger] h.take(p)) <= 1,
        ev == TraceEvent::SessionStarted ==> spec_balance(h) == 0,
        ev == TraceEvent::SessionEnded ==> spec_balance(h) == 1,
    ensures
        spec_balance(h.push(ev)) == spec_balance(h) + (match ev {
            TraceEvent::SessionStarted => 1int,
            TraceEvent::SessionEnded => -1int,
        }),
        forall|p: int|
            0 <= p <= h.push(ev).len() ==> 0 <= spec_balance(#[trigger] h.push(ev).take(p)) <= 1,
{
    assert(h.take(h.len() as int) =~= h);
    assert(h.push(ev).drop_last() =~= h);
    assert forall|p: int|
        0 <= p <= h.push(ev).len() implies 0 <= spec_balance(#[trigger] h.push(ev).take(p))
        <= 1 by {
        if p <= h.len() {
            assert(h.push(ev).take(p) =~= h.take(p));
        } else {
            assert(h.push(ev).take(p) =~= h.push(ev));
        }
    }
}

fn opt_min(a: Option<u64>, b: Option<u64>) -> (r: Option<u64>)
    ensures
        r == spec_opt_min(a, b),
{
    match (a, b) {
        (Some(x), Some(y)) => Some(
            if x <= y {
                x
            } else {
                y
            },
        ),
        (Some(x), None) => Some(x),
        (None, Some(y)) => Some(y),
        (None, None) => None,
    }
}

} // verus!
