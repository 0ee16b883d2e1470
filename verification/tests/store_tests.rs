//! Tests of the store: audit log, usage accounting, cooldowns, snapshot,
//! and the per-peer rate limiter.

use shepherd::ids::{ClientId, EntryId};
use shepherd::rate_limit::RateLimiter;
use shepherd::store::{AuditEventType, SessionSnapshot, StateSnapshot, Store};
use shepherd::time::WallTime;

fn noon(days: u64) -> WallTime {
    WallTime { days, secs: 12 * 3600 }
}

#[test]
fn test_in_memory_store() {
    let store = Store::new();
    assert!(store.is_healthy());
}

#[test]
fn test_audit_log() {
    let mut store = Store::new();

    let id = store.append_audit(noon(20447), AuditEventType::ServiceStarted);
    assert_eq!(id, 1);
    let id2 = store.append_audit(noon(20447), AuditEventType::ServiceStopped);
    assert_eq!(id2, 2);
}

#[test]
fn test_usage_accounting() {
    let mut store = Store::new();
    let entry_id = EntryId::new("game-1".to_string());
    let today = 20447;

    // Initially zero
    assert_eq!(store.get_usage(&entry_id, today), 0);

    // Add some usage
    store.add_usage(&entry_id, today, 300_000);
    assert_eq!(store.get_usage(&entry_id, today), 300_000);

    // Add more usage
    store.add_usage(&entry_id, today, 200_000);
    assert_eq!(store.get_usage(&entry_id, today), 500_000);

    // Another day and another entry are untouched
    assert_eq!(store.get_usage(&entry_id, today + 1), 0);
    assert_eq!(store.get_usage(&EntryId::new("game-2".to_string()), today), 0);
}

#[test]
fn test_cooldowns() {
    let mut store = Store::new();
    let entry_id = EntryId::new("game-1".to_string());

    // No cooldown initially
    assert!(store.get_cooldown_until(&entry_id).is_none());

    // Set cooldown
    let until = noon(20447).plus_secs(3600);
    store.set_cooldown_until(&entry_id, until);
    assert_eq!(store.get_cooldown_until(&entry_id), Some(until));

    // Clear cooldown
    store.clear_cooldown(&entry_id);
    assert!(store.get_cooldown_until(&entry_id).is_none());
}

#[test]
fn test_snapshot() {
    let mut store = Store::new();

    // No snapshot initially
    assert!(store.load_snapshot().is_none());

    // Save snapshot
    let snapshot = StateSnapshot { timestamp: noon(20447), active_session: None };
    store.save_snapshot(snapshot);

    // Load it back
    let loaded = store.load_snapshot().unwrap();
    assert!(loaded.active_session.is_none());
}

#[test]
fn test_snapshot_roundtrip_is_fixed_point() {
    let mut store = Store::new();
    let snapshot = StateSnapshot {
        timestamp: noon(20447),
        active_session: Some(SessionSnapshot {
            session_id: shepherd::ids::SessionId::from_value(7),
            entry_id: EntryId::new("game-1".to_string()),
            started_at: noon(20447),
            deadline: Some(noon(20447).plus_secs(600)),
            warnings_issued: vec![300, 60],
        }),
    };
    store.save_snapshot(snapshot);

    // Loading the saved snapshot and saving it again changes nothing.
    let loaded = store.load_snapshot().unwrap();
    store.save_snapshot(loaded);
    let again = store.load_snapshot().unwrap();
    assert_eq!(again.timestamp, noon(20447));
    let sess = again.active_session.unwrap();
    assert_eq!(sess.entry_id.as_str(), "game-1");
    assert_eq!(sess.warnings_issued, vec![300, 60]);
}

#[test]
fn test_rate_limiter_allows_within_limit() {
    let mut limiter = RateLimiter::new(5, 1000);
    let client = ClientId::from_value(1);

    for _ in 0..5 {
        assert!(limiter.check(&client, 0));
    }

    // 6th request should be denied
    assert!(!limiter.check(&client, 0));
}

#[test]
fn test_rate_limiter_different_clients() {
    let mut limiter = RateLimiter::new(2, 1000);
    let client1 = ClientId::from_value(1);
    let client2 = ClientId::from_value(2);

    assert!(limiter.check(&client1, 0));
    assert!(limiter.check(&client1, 0));
    assert!(!limiter.check(&client1, 0));

    // Client 2 should have its own bucket
    assert!(limiter.check(&client2, 0));
    assert!(limiter.check(&client2, 0));
}

#[test]
fn test_rate_limiter_refills_after_interval() {
    let mut limiter = RateLimiter::new(2, 1000);
    let client = ClientId::from_value(1);
    assert!(limiter.check(&client, 0));
    assert!(limiter.check(&client, 0));
    assert!(!limiter.check(&client, 500));
    // A full interval later the bucket is full again.
    assert!(limiter.check(&client, 1500));
    assert!(limiter.check(&client, 1500));
    assert!(!limiter.check(&client, 1500));
}
