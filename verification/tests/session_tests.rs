//! Tests of the session state machine and warning schedule.

use shepherd::api::{SessionState, WarningSeverity, WarningThreshold};
use shepherd::ids::{EntryId, SessionId};
use shepherd::session::{ActiveSession, SessionPlan};
use shepherd::time::{MonotonicInstant, WallTime};

fn make_test_plan(duration_secs: u64) -> SessionPlan {
    SessionPlan {
        session_id: SessionId::new(),
        entry_id: EntryId::new("test".to_string()),
        label: "Test".to_string(),
        max_duration_millis: Some(duration_secs * 1000),
        warnings: vec![
            WarningThreshold {
                seconds_before: 60,
                severity: WarningSeverity::Warn,
                message_template: None,
            },
            WarningThreshold {
                seconds_before: 10,
                severity: WarningSeverity::Critical,
                message_template: None,
            },
        ],
    }
}

fn noon() -> WallTime {
    WallTime { days: 20447, secs: 12 * 3600 }
}

#[test]
fn test_session_creation() {
    let plan = make_test_plan(300);
    let now = noon();
    let now_mono = MonotonicInstant::from_millis(1_000_000);

    let session = ActiveSession::new(plan, now, now_mono);

    assert_eq!(session.state, SessionState::Launching);
    assert!(session.warnings_issued.is_empty());
    assert_eq!(session.time_remaining(now_mono), Some(300_000));
}

#[test]
fn test_warning_times() {
    let plan = make_test_plan(300); // 5 minutes

    let times = plan.warning_times();
    assert_eq!(times.len(), 2);

    // 60s warning should trigger at 240s (4 min)
    let w60 = times.iter().find(|(t, _)| *t == 60).unwrap();
    assert_eq!(w60.1, 240_000);

    // 10s warning should trigger at 290s
    let w10 = times.iter().find(|(t, _)| *t == 10).unwrap();
    assert_eq!(w10.1, 290_000);
}

#[test]
fn test_warning_not_issued_for_short_session() {
    // Session shorter than warning threshold
    let plan = SessionPlan {
        session_id: SessionId::new(),
        entry_id: EntryId::new("test".to_string()),
        label: "Test".to_string(),
        max_duration_millis: Some(30_000), // 30 seconds
        warnings: vec![WarningThreshold {
            seconds_before: 60, // 60 second warning - longer than session!
            severity: WarningSeverity::Warn,
            message_template: None,
        }],
    };

    let times = plan.warning_times();
    assert!(times.is_empty()); // No warnings should be scheduled
}

#[test]
fn test_pending_warnings() {
    let plan = make_test_plan(300);
    let now = noon();
    let now_mono = MonotonicInstant::from_millis(1_000_000);

    let mut session = ActiveSession::new(plan, now, now_mono);

    // At start, no warnings pending
    let pending = session.pending_warnings(now_mono);
    assert!(pending.is_empty());

    // Simulate time passing - at 250s, 60s warning should be pending
    let later = now_mono.add_millis(250_000);
    let pending = session.pending_warnings(later);
    assert_eq!(pending.len(), 1);
    assert_eq!(pending[0].0, 60);

    // Mark it issued
    session.mark_warning_issued(60);
    let pending = session.pending_warnings(later);
    assert!(pending.is_empty());
}

#[test]
fn test_unlimited_session_never_expires() {
    let plan = SessionPlan {
        session_id: SessionId::new(),
        entry_id: EntryId::new("test".to_string()),
        label: "Test".to_string(),
        max_duration_millis: None,
        warnings: vec![WarningThreshold {
            seconds_before: 60,
            severity: WarningSeverity::Warn,
            message_template: None,
        }],
    };
    let now_mono = MonotonicInstant::from_millis(0);
    let session = ActiveSession::new(plan, noon(), now_mono);
    assert!(session.deadline.is_none());
    assert!(session.deadline_mono.is_none());
    assert!(session.time_remaining(now_mono).is_none());
    let far = MonotonicInstant::from_millis(u64::MAX / 2);
    assert!(!session.is_expired(far));
    assert!(session.pending_warnings(far).is_empty());
}

#[test]
fn test_state_progression() {
    let plan = make_test_plan(300);
    let now_mono = MonotonicInstant::from_millis(0);
    let mut session = ActiveSession::new(plan, noon(), now_mono);
    assert_eq!(session.state, SessionState::Launching);
    session.attach_handle(shepherd::host::HostSessionHandle::new(
        session.plan.session_id,
        shepherd::host::HostHandlePayload::Mock { id: 1 },
    ));
    assert_eq!(session.state, SessionState::Running);
    session.mark_warning_issued(60);
    assert_eq!(session.state, SessionState::Warned);
    session.mark_expiring();
    assert_eq!(session.state, SessionState::Expiring);
    session.mark_ended();
    assert_eq!(session.state, SessionState::Ended);
}
