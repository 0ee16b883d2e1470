//! The store: append-only audit log with monotonically increasing ids,
//! per-entry/per-day usage accounting, cooldown expiries, and the recovery
//! snapshot. The rows live here as plain values with exact contracts; the
//! process around the service mirrors them to durable storage.
//!
//! Usage is kept as a journal of additions whose per-key total is the
//! recorded usage; cooldowns as a journal where the last write for a key
//! wins and clearing drops the key's rows.

use vstd::prelude::*;

use crate::api::{ClientRole, ReasonCode, SessionEndReason};
use crate::ids::{ClientId, EntryId, SessionId};
use crate::time::WallTime;

verus! {

/// Errors of the persistence layer around the store.
#[derive(Debug)]
pub enum StoreError {
    Database(String),
    Serialization(String),
    Io(String),
    NotFound(String),
}

/// One audit record's payload.
#[derive(Debug)]
pub enum AuditEventType {
    ServiceStarted,
    ServiceStopped,
    PolicyLoaded { entry_count: usize },
    SessionStarted {
        session_id: SessionId,
        entry_id: EntryId,
        label: String,
        deadline: Option<WallTime>,
    },
    WarningIssued { session_id: SessionId, threshold_seconds: u64 },
    SessionEnded {
        session_id: SessionId,
        entry_id: EntryId,
        reason: SessionEndReason,
        duration_millis: u64,
    },
    LaunchDenied { entry_id: EntryId, reasons: Vec<ReasonCode> },
    SessionExtended { session_id: SessionId, extended_by_millis: u64, new_deadline: WallTime },
    ConfigReloaded { success: bool },
    ClientConnected { client_id: ClientId, role: ClientRole, uid: Option<u32> },
    ClientDisconnected { client_id: ClientId },
}

/// One audit record, with its assigned id and timestamp.
#[derive(Debug)]
pub struct AuditEvent {
    pub id: u64,
    pub timestamp: WallTime,
    pub event: AuditEventType,
}

/// One usage addition: time credited to this entry on this day.
#[derive(Debug)]
pub struct UsageRow {
    pub entry_id: EntryId,
    pub day: u64,
    pub millis: u64,
}

/// One cooldown write: the entry may not start again before `until`.
#[derive(Debug)]
pub struct CooldownRow {
    pub entry_id: EntryId,
    pub until: WallTime,
}

/// Metadata of the last observed active session, for inspection after a
/// restart; sessions are never resumed from it.
#[derive(Debug, PartialEq, Eq)]
pub struct SessionSnapshot {
    pub session_id: SessionId,
    pub entry_id: EntryId,
    pub started_at: WallTime,
    pub deadline: Option<WallTime>,
    pub warnings_issued: Vec<u64>,
}

/// Two session snapshots carry the same information.
pub open spec fn session_snapshot_equiv(a: SessionSnapshot, b: SessionSnapshot) -> bool {
    &&& a.session_id == b.session_id
    &&& a.entry_id@ == b.entry_id@
    &&& a.started_at == b.started_at
    &&& a.deadline == b.deadline
    &&& a.warnings_issued@ == b.warnings_issued@
}

/// Two state snapshots carry the same information.
pub open spec fn snapshot_equiv(a: StateSnapshot, b: StateSnapshot) -> bool {
    &&& a.timestamp == b.timestamp
    &&& match (a.active_session, b.active_session) {
        (Some(x), Some(y)) => session_snapshot_equiv(x, y),
        (None, None) => true,
        _ => false,
    }
}

impl Clone for SessionSnapshot {
    fn clone(&self) -> (r: SessionSnapshot)
        ensures
            session_snapshot_equiv(r, *self),
    {
        let mut ws: Vec<u64> = Vec::new();
        let n = self.warnings_issued.len();
        let mut i: usize = 0;
        while i < n
            invariant
                i <= n,
                n == self.warnings_issued@.len(),
                ws@ =~= self.warnings_issued@.subrange(0, i as int),
            decreases n - i,
        {
            ws.push(self.warnings_issued[i]);
            i += 1;
            proof {
                assert(ws@ =~= self.warnings_issued@.subrange(0, i as int));
            }
        }
        proof {
            assert(ws@ =~= self.warnings_issued@);
        }
        SessionSnapshot {
            session_id: self.session_id,
            entry_id: self.entry_id.clone(),
            started_at: self.started_at,
            deadline: self.deadline,
            warnings_issued: ws,
        }
    }
}

/// The saved state snapshot (a single conceptual row).
#[derive(Debug, PartialEq, Eq)]
pub struct StateSnapshot {
    pub timestamp: WallTime,
    pub active_session: Option<SessionSnapshot>,
}

impl Clone for StateSnapshot {
    fn clone(&self) -> (r: StateSnapshot)
        ensures
            snapshot_equiv(r, *self),
    {
        StateSnapshot {
            timestamp: self.timestamp,
            active_session: match &self.active_session {
                Some(s) => Some(s.clone()),
                None => None,
            },
        }
    }
}

/// Whether a usage row carries this entry and day.
pub open spec fn usage_matches(r: UsageRow, id: Seq<char>, day: u64) -> bool {
    r.entry_id@ == id && r.day == day
}

/// Whether a cooldown row carries this entry.
pub open spec fn cooldown_matches(r: CooldownRow, id: Seq<char>) -> bool {
    r.entry_id@ == id
}

/// Total usage recorded for a key across the journal.
pub open spec fn spec_usage_total(rows: Seq<UsageRow>, id: Seq<char>, day: u64) -> int
    decreases rows.len(),
{
    if rows.len() == 0 {
        0
    } else {
        spec_usage_total(rows.drop_last(), id, day) + if usage_matches(rows.last(), id, day) {
            rows.last().millis as int
        } else {
            0
        }
    }
}

/// The cooldown in force for a key: the last write, if any survives.
pub open spec fn spec_cooldown_of(rows: Seq<CooldownRow>, id: Seq<char>) -> Option<WallTime>
    decreases rows.len(),
{
    if rows.len() == 0 {
        None
    } else if cooldown_matches(rows.last(), id) {
        Some(rows.last().until)
    } else {
        spec_cooldown_of(rows.drop_last(), id)
    }
}

/// The store's bookkeeping state.
#[derive(Debug)]
pub struct Store {
    audits: Vec<AuditEvent>,
    usage: Vec<UsageRow>,
    cooldowns: Vec<CooldownRow>,
    snapshot: Option<StateSnapshot>,
}

impl Store {
    pub closed spec fn spec_audits(self) -> Seq<AuditEvent> {
        self.audits@
    }

    pub closed spec fn spec_usage_rows(self) -> Seq<UsageRow> {
        self.usage@
    }

    pub closed spec fn spec_cooldown_rows(self) -> Seq<CooldownRow> {
        self.cooldowns@
    }

    pub closed spec fn spec_snapshot(self) -> Option<StateSnapshot> {
        self.snapshot
    }

    /// Well-formed: audit ids count up from one in order, and every stored
    /// cooldown expiry is a valid wall-clock moment.
    pub open spec fn wf(self) -> bool {
        &&& forall|i: int|
            0 <= i < self.spec_audits().len() ==> (#[trigger] self.spec_audits()[i]).id == i + 1
        &&& forall|i: int|
            0 <= i < self.spec_cooldown_rows().len() ==> (
            #[trigger] self.spec_cooldown_rows()[i]).until.wf()
    }

    /// Total recorded usage of an entry on a day, in milliseconds.
    pub open spec fn spec_usage(self, id: Seq<char>, day: u64) -> int {
        spec_usage_total(self.spec_usage_rows(), id, day)
    }

    /// The recorded usage capped at what a 64-bit counter can report.
    pub open spec fn spec_usage_sat(self, id: Seq<char>, day: u64) -> u64 {
        if self.spec_usage(id, day) <= u64::MAX {
            self.spec_usage(id, day) as u64
        } else {
            u64::MAX
        }
    }

    /// The cooldown expiry recorded for an entry, if any.
    pub open spec fn spec_cooldown(self, id: Seq<char>) -> Option<WallTime> {
        spec_cooldown_of(self.spec_cooldown_rows(), id)
    }

    pub fn new() -> (r: Store)
        ensures
            r.wf(),
            r.spec_audits().len() == 0,
            forall|id: Seq<char>, day: u64| r.spec_usage(id, day) == 0,
            forall|id: Seq<char>| r.spec_cooldown(id) is None,
            r.spec_snapshot() is None,
    {
        Store { audits: Vec::new(), usage: Vec::new(), cooldowns: Vec::new(), snapshot: None }
    }

    /// Appends an audit record and returns its assigned id: one more than
    /// the previous record's, counting from one.
    pub fn append_audit(&mut self, timestamp: WallTime, event: AuditEventType) -> (id: u64)
        requires
            old(self).wf(),
            old(self).spec_audits().len() < u64::MAX,
        ensures
            final(self).wf(),
            id == old(self).spec_audits().len() + 1,
            final(self).spec_audits().len() == old(self).spec_audits().len() + 1,
            final(self).spec_audits()[old(self).spec_audits().len() as int] == (AuditEvent {
                id,
                timestamp,
                event,
            }),
            forall|i: int|
                0 <= i < old(self).spec_audits().len() ==> final(self).spec_audits()[i] == old(
                    self,
                ).spec_audits()[i],
            final(self).spec_usage_rows() == old(self).spec_usage_rows(),
            final(self).spec_cooldown_rows() == old(self).spec_cooldown_rows(),
            final(self).spec_snapshot() == old(self).spec_snapshot(),
    {
        let id = (self.audits.len() as u64) + 1;
        self.audits.push(AuditEvent { id, timestamp, event });
        proof {
            assert forall|i: int|
                0 <= i < self.spec_audits().len() implies (#[trigger] self.spec_audits()[i]).id == i
                + 1 by {
                if i < old(self).spec_audits().len() {
                    assert(self.spec_audits()[i] == old(self).spec_audits()[i]);
                }
            }
            assert forall|i: int|
                0 <= i < self.spec_cooldown_rows().len() implies (
            #[trigger] self.spec_cooldown_rows()[i]).until.wf() by {
                assert(self.spec_cooldown_rows()[i] == old(self).spec_cooldown_rows()[i]);
            }
        }
        id
    }

    /// The total usage recorded for the entry on the day, zero when none was
    /// added, capped at the counter's maximum.
    pub fn get_usage(&self, entry_id: &EntryId, day: u64) -> (r: u64)
        ensures
            r == self.spec_usage_sat(entry_id@, day),
    {
        let n = self.usage.len();
        let mut acc: u64 = 0;
        let mut saturated = false;
        let mut i: usize = 0;
        proof {
            assert(self.spec_usage_rows().subrange(0, 0) =~= Seq::<UsageRow>::empty());
            lemma_usage_total_extend(self.spec_usage_rows(), entry_id@, day, 0);
        }
        while i < n
            invariant
                i <= n,
                n == self.spec_usage_rows().len(),
                !saturated ==> acc == spec_usage_total(
                    self.spec_usage_rows().subrange(0, i as int),
                    entry_id@,
                    day,
                ),
                saturated ==> spec_usage_total(
                    self.spec_usage_rows().subrange(0, i as int),
                    entry_id@,
                    day,
                ) > u64::MAX,
                spec_usage_total(self.spec_usage_rows(), entry_id@, day) >= spec_usage_total(
                    self.spec_usage_rows().subrange(0, i as int),
                    entry_id@,
                    day,
                ),
            decreases n - i,
        {
            proof {
                assert(self.spec_usage_rows().subrange(0, i as int + 1).drop_last()
                    =~= self.spec_usage_rows().subrange(0, i as int));
                lemma_usage_total_extend(self.spec_usage_rows(), entry_id@, day, i as int + 1);
            }
            if crate::ids::str_eq(self.usage[i].entry_id.as_str(), entry_id.as_str())
                && self.usage[i].day == day {
                let add = self.usage[i].millis;
                if !saturated {
                    if acc <= u64::MAX - add {
                        acc = acc + add;
                    } else {
                        saturated = true;
                    }
                }
            }
            i += 1;
        }
        proof {
            assert(self.spec_usage_rows().subrange(0, n as int) =~= self.spec_usage_rows());
        }
        if saturated {
            u64::MAX
        } else {
            acc
        }
    }

    /// Credits usage for the entry and day; additive across calls.
    pub fn add_usage(&mut self, entry_id: &EntryId, day: u64, millis: u64)
        ensures
            final(self).spec_usage(entry_id@, day) == old(self).spec_usage(entry_id@, day)
                + millis,
            forall|id2: Seq<char>, day2: u64|
                !(id2 == entry_id@ && day2 == day) ==> final(self).spec_usage(id2, day2) == old(
                    self,
                ).spec_usage(id2, day2),
            final(self).spec_audits() == old(self).spec_audits(),
            final(self).spec_cooldown_rows() == old(self).spec_cooldown_rows(),
            final(self).spec_snapshot() == old(self).spec_snapshot(),
            final(self).wf() == old(self).wf(),
    {
        self.usage.push(UsageRow { entry_id: entry_id.clone(), day, millis });
        proof {
            assert forall|id2: Seq<char>, day2: u64|
                !(id2 == entry_id@ && day2 == day) implies self.spec_usage(id2, day2) == old(
                self,
            ).spec_usage(id2, day2) by {
                assert(self.spec_usage_rows().drop_last() =~= old(self).spec_usage_rows());
            }
            assert(self.spec_usage_rows().drop_last() =~= old(self).spec_usage_rows());
        }
    }

    /// The recorded cooldown expiry for the entry, if one is set.
    pub fn get_cooldown_until(&self, entry_id: &EntryId) -> (r: Option<WallTime>)
        requires
            self.wf(),
        ensures
            r == self.spec_cooldown(entry_id@),
            r matches Some(t) ==> t.wf(),
    {
        proof {
            lemma_cooldown_of_wf(self.spec_cooldown_rows(), entry_id@);
        }
        let n = self.cooldowns.len();
        let mut current: Option<WallTime> = None;
        let mut i: usize = 0;
        while i < n
            invariant
                i <= n,
                n == self.spec_cooldown_rows().len(),
                current == spec_cooldown_of(
                    self.spec_cooldown_rows().subrange(0, i as int),
                    entry_id@,
                ),
            decreases n - i,
        {
            proof {
                assert(self.spec_cooldown_rows().subrange(0, i as int + 1).drop_last()
                    =~= self.spec_cooldown_rows().subrange(0, i as int));
            }
            if crate::ids::str_eq(self.cooldowns[i].entry_id.as_str(), entry_id.as_str()) {
                current = Some(self.cooldowns[i].until);
            }
            i += 1;
        }
        proof {
            assert(self.spec_cooldown_rows().subrange(0, n as int) =~= self.spec_cooldown_rows());
        }
        current
    }

    /// Sets the cooldown expiry for the entry, replacing any previous one.
    pub fn set_cooldown_until(&mut self, entry_id: &EntryId, until: WallTime)
        requires
            old(self).wf(),
            until.wf(),
        ensures
            final(self).wf(),
            final(self).spec_cooldown(entry_id@) == Some(until),
            forall|id2: Seq<char>|
                id2 != entry_id@ ==> final(self).spec_cooldown(id2) == old(self).spec_cooldown(
                    id2,
                ),
            final(self).spec_audits() == old(self).spec_audits(),
            final(self).spec_usage_rows() == old(self).spec_usage_rows(),
            final(self).spec_snapshot() == old(self).spec_snapshot(),
    {
        self.clear_cooldown(entry_id);
        let ghost mid = self.cooldowns@;
        self.cooldowns.push(CooldownRow { entry_id: entry_id.clone(), until });
        proof {
            assert(self.spec_cooldown_rows().drop_last() =~= mid);
        }
    }

    /// Removes the entry's cooldown, if any.
    pub fn clear_cooldown(&mut self, entry_id: &EntryId)
        requires
            old(self).wf(),
        ensures
            final(self).wf(),
            final(self).spec_cooldown(entry_id@) is None,
            forall|id2: Seq<char>|
                id2 != entry_id@ ==> final(self).spec_cooldown(id2) == old(self).spec_cooldown(
                    id2,
                ),
            final(self).spec_audits() == old(self).spec_audits(),
            final(self).spec_usage_rows() == old(self).spec_usage_rows(),
            final(self).spec_snapshot() == old(self).spec_snapshot(),
    {
        let ghost orig = self.cooldowns@;
        let mut kept: Vec<CooldownRow> = Vec::new();
        let n = self.cooldowns.len();
        let mut i: usize = 0;
        while i < n
            invariant
                i <= n,
                n == orig.len(),
                self.cooldowns@ == orig,
                forall|k: int| 0 <= k < orig.len() ==> (#[trigger] orig[k]).until.wf(),
                forall|k: int| 0 <= k < kept@.len() ==> (#[trigger] kept@[k]).until.wf(),
                spec_cooldown_of(kept@, entry_id@) is None,
                forall|id2: Seq<char>|
                    id2 != entry_id@ ==> spec_cooldown_of(kept@, id2) == spec_cooldown_of(
                        orig.subrange(0, i as int),
                        id2,
                    ),
            decreases n - i,
        {
            let ghost prefix = orig.subrange(0, i as int);
            let ghost prefix1 = orig.subrange(0, i as int + 1);
            proof {
                assert(prefix1.drop_last() =~= prefix);
                assert(prefix1.last() == orig[i as int]);
            }
            if !crate::ids::str_eq(self.cooldowns[i].entry_id.as_str(), entry_id.as_str()) {
                let row = CooldownRow {
                    entry_id: self.cooldowns[i].entry_id.clone(),
                    until: self.cooldowns[i].until,
                };
                proof {
                    assert(row == orig[i as int]);
                }
                let ghost kept_before = kept@;
                kept.push(row);
                proof {
                    assert(kept@.drop_last() =~= kept_before);
                    assert(kept@.last() == row);
                    assert(!cooldown_matches(row, entry_id@));
                    assert forall|id2: Seq<char>| id2 != entry_id@ implies spec_cooldown_of(
                        kept@,
                        id2,
                    ) == spec_cooldown_of(prefix1, id2) by {
                        if cooldown_matches(row, id2) {
                            assert(spec_cooldown_of(kept@, id2) == Some(row.until));
                            assert(spec_cooldown_of(prefix1, id2) == Some(row.until));
                        } else {
                            assert(spec_cooldown_of(kept@, id2) == spec_cooldown_of(
                                kept_before,
                                id2,
                            ));
                            assert(spec_cooldown_of(prefix1, id2) == spec_cooldown_of(prefix, id2));
                        }
                    }
                }
            } else {
                proof {
                    assert(cooldown_matches(orig[i as int], entry_id@));
                    assert forall|id2: Seq<char>| id2 != entry_id@ implies spec_cooldown_of(
                        kept@,
                        id2,
                    ) == spec_cooldown_of(prefix1, id2) by {
                        assert(!cooldown_matches(prefix1.last(), id2));
                        assert(spec_cooldown_of(prefix1, id2) == spec_cooldown_of(prefix, id2));
                    }
                }
            }
            i += 1;
        }
        proof {
            assert(orig.subrange(0, n as int) =~= orig);
        }
        self.cooldowns = kept;
    }

    /// The saved snapshot, if one was written.
    pub fn load_snapshot(&self) -> (r: Option<StateSnapshot>)
        ensures
            match (r, self.spec_snapshot()) {
                (Some(a), Some(b)) => snapshot_equiv(a, b),
                (None, None) => true,
                _ => false,
            },
    {
        match &self.snapshot {
            Some(s) => Some(s.clone()),
            None => None,
        }
    }

    /// Writes the snapshot row, replacing any previous one.
    pub fn save_snapshot(&mut self, snapshot: StateSnapshot)
        ensures
            final(self).spec_snapshot() == Some(snapshot),
            final(self).spec_audits() == old(self).spec_audits(),
            final(self).spec_usage_rows() == old(self).spec_usage_rows(),
            final(self).spec_cooldown_rows() == old(self).spec_cooldown_rows(),
            final(self).wf() == old(self).wf(),
    {
        self.snapshot = Some(snapshot);
    }

    /// How many audit records have been written.
    pub fn audit_count(&self) -> (r: usize)
        ensures
            r == self.spec_audits().len(),
    {
        self.audits.len()
    }

    /// The health probe of the bookkeeping state; always passes.
    pub fn is_healthy(&self) -> (r: bool)
        ensures
            r,
    {
        true
    }
}

/// A cooldown answered for a key is one of the stored rows' expiries.
proof fn lemma_cooldown_of_wf(rows: Seq<CooldownRow>, id: Seq<char>)
    requires
        forall|i: int| 0 <= i < rows.len() ==> (#[trigger] rows[i]).until.wf(),
    ensures
        match spec_cooldown_of(rows, id) {
            Some(t) => t.wf(),
            None => true,
        },
    decreases rows.len(),
{
    if rows.len() > 0 {
        if !cooldown_matches(rows.last(), id) {
            lemma_cooldown_of_wf(rows.drop_last(), id);
        }
    }
}

/// A longer prefix of the journal never records less for a key.
proof fn lemma_usage_total_extend(rows: Seq<UsageRow>, id: Seq<char>, day: u64, j: int)
    requires
        0 <= j <= rows.len(),
    ensures
        spec_usage_total(rows, id, day) >= spec_usage_total(rows.subrange(0, j), id, day),
    decreases rows.len() - j,
{
    if j < rows.len() {
        assert(rows.subrange(0, j + 1).drop_last() =~= rows.subrange(0, j));
        lemma_usage_total_extend(rows, id, day, j + 1);
    } else {
        assert(rows.subrange(0, j) =~= rows);
    }
}

/// Loading the saved snapshot and saving the result back is a fixed point:
/// every observable of the store is as before, and the snapshot row carries
/// the same information. `loaded` is what `load_snapshot` answered on
/// `before` and `after` the store once `save_snapshot(loaded)` returned, as
/// their contracts describe them.
pub proof fn lemma_snapshot_roundtrip(before: Store, after: Store, loaded: StateSnapshot)
    requires
        before.spec_snapshot() matches Some(snap) && snapshot_equiv(loaded, snap),
        after.spec_snapshot() == Some(loaded),
        after.spec_audits() == before.spec_audits(),
        after.spec_usage_rows() == before.spec_usage_rows(),
        after.spec_cooldown_rows() == before.spec_cooldown_rows(),
    ensures
        after.spec_snapshot() matches Some(s2) && before.spec_snapshot() matches Some(s1)
            && snapshot_equiv(s2, s1),
        forall|id: Seq<char>, day: u64| after.spec_usage(id, day) == before.spec_usage(id, day),
        forall|id: Seq<char>| after.spec_cooldown(id) == before.spec_cooldown(id),
        after.wf() == before.wf(),
{
}

} // verus!
