//! Tests of the policy engine: evaluation, launch decisions, ticking.

use shepherd::api::{EntryKind, WarningSeverity, WarningThreshold};
use shepherd::engine::{CoreEngine, CoreEvent, LaunchDecision};
use shepherd::host::HostCapabilities;
use shepherd::ids::EntryId;
use shepherd::policy::{
    AvailabilityPolicy, DaemonConfig, Entry, LimitsPolicy, Policy, VolumePolicy,
};
use shepherd::store::Store;
use shepherd::time::{MonotonicInstant, WallTime};

fn noon() -> WallTime {
    WallTime { days: 20447, secs: 12 * 3600 }
}

fn process_entry(id: &str, limits: LimitsPolicy, warnings: Vec<WarningThreshold>) -> Entry {
    Entry {
        id: EntryId::new(id.to_string()),
        label: format!("{} label", id),
        icon_ref: None,
        kind: EntryKind::Process {
            command: id.to_string(),
            args: vec![],
            env: vec![],
            cwd: None,
        },
        availability: AvailabilityPolicy { windows: vec![], always: true },
        limits,
        warnings,
        volume: None,
        disabled: false,
        disabled_reason: None,
    }
}

fn make_policy(entries: Vec<Entry>) -> Policy {
    Policy {
        daemon: DaemonConfig::default(),
        entries,
        default_warnings: vec![],
        default_max_run_millis: Some(3_600_000),
        volume: VolumePolicy::default(),
    }
}

fn make_test_policy() -> Policy {
    make_policy(vec![process_entry(
        "test-game",
        LimitsPolicy {
            max_run_millis: Some(300_000),
            daily_quota_millis: None,
            cooldown_millis: None,
        },
        vec![],
    )])
}

#[test]
fn test_list_entries() {
    let policy = make_test_policy();
    let store = Store::new();
    let caps = HostCapabilities::minimal();
    let engine = CoreEngine::new(policy, store, caps, noon());

    let entries = engine.list_entries(noon(), MonotonicInstant::from_millis(0));
    assert_eq!(entries.len(), 1);
    assert!(entries[0].enabled);
}

#[test]
fn test_launch_approval() {
    let policy = make_test_policy();
    let store = Store::new();
    let caps = HostCapabilities::minimal();
    let mut engine = CoreEngine::new(policy, store, caps, noon());

    let entry_id = EntryId::new("test-game".to_string());
    let decision = engine.request_launch(&entry_id, noon(), MonotonicInstant::from_millis(0));

    assert!(matches!(decision, LaunchDecision::Approved(_)));
}

#[test]
fn test_session_blocks_new_launch() {
    let policy = make_test_policy();
    let store = Store::new();
    let caps = HostCapabilities::minimal();
    let mut engine = CoreEngine::new(policy, store, caps, noon());

    let entry_id = EntryId::new("test-game".to_string());
    let now = noon();
    let now_mono = MonotonicInstant::from_millis(0);

    // Launch first session
    if let LaunchDecision::Approved(plan) = engine.request_launch(&entry_id, now, now_mono) {
        engine.start_session(plan, now, now_mono);
    }

    // Try to launch again - should be denied
    let decision = engine.request_launch(&entry_id, now, now_mono);
    assert!(matches!(decision, LaunchDecision::Denied { .. }));
}

#[test]
fn test_tick_warnings() {
    let policy = make_policy(vec![process_entry(
        "test",
        LimitsPolicy {
            max_run_millis: Some(120_000), // 2 minutes
            daily_quota_millis: None,
            cooldown_millis: None,
        },
        vec![WarningThreshold {
            seconds_before: 60,
            severity: WarningSeverity::Warn,
            message_template: Some("1 minute left".to_string()),
        }],
    )]);

    let store = Store::new();
    let caps = HostCapabilities::minimal();
    let mut engine = CoreEngine::new(policy, store, caps, noon());

    let entry_id = EntryId::new("test".to_string());
    let now = noon();
    let now_mono = MonotonicInstant::from_millis(0);

    // Start session
    if let LaunchDecision::Approved(plan) = engine.request_launch(&entry_id, now, now_mono) {
        engine.start_session(plan, now, now_mono);
    }

    // No warnings initially
    let events = engine.tick(now_mono, now);
    assert!(events.is_empty());

    // At 70 seconds (10 seconds past warning threshold), warning should fire
    let later = now_mono.add_millis(70_000);
    let events = engine.tick(later, now);
    assert_eq!(events.len(), 1);
    assert!(matches!(events[0], CoreEvent::Warning { threshold_seconds: 60, .. }));

    // Warning shouldn't fire twice
    let events = engine.tick(later, now);
    assert!(events.is_empty());
}

#[test]
fn test_session_expiry() {
    let policy = make_policy(vec![process_entry(
        "test",
        LimitsPolicy {
            max_run_millis: Some(60_000),
            daily_quota_millis: None,
            cooldown_millis: None,
        },
        vec![],
    )]);

    let store = Store::new();
    let caps = HostCapabilities::minimal();
    let mut engine = CoreEngine::new(policy, store, caps, noon());

    let entry_id = EntryId::new("test".to_string());
    let now = noon();
    let now_mono = MonotonicInstant::from_millis(0);

    // Start session
    if let LaunchDecision::Approved(plan) = engine.request_launch(&entry_id, now, now_mono) {
        engine.start_session(plan, now, now_mono);
    }

    // At 61 seconds, should be expired
    let later = now_mono.add_millis(61_000);
    let events = engine.tick(later, now);
    assert_eq!(events.len(), 1);
    assert!(matches!(events[0], CoreEvent::ExpireDue { .. }));
}

#[test]
fn test_unknown_entry_denied() {
    let policy = make_test_policy();
    let mut engine =
        CoreEngine::new(policy, Store::new(), HostCapabilities::minimal(), noon());
    let decision = engine.request_launch(
        &EntryId::new("nowhere".to_string()),
        noon(),
        MonotonicInstant::from_millis(0),
    );
    match decision {
        LaunchDecision::Denied { reasons } => {
            assert_eq!(reasons.len(), 1);
            assert!(matches!(
                &reasons[0],
                shepherd::api::ReasonCode::Disabled { reason: Some(m) } if m == "Entry not found"
            ));
        }
        _ => panic!("expected denial"),
    }
}

#[test]
fn test_unsupported_kind_denied() {
    let mut entry = process_entry(
        "vm-thing",
        LimitsPolicy { max_run_millis: None, daily_quota_millis: None, cooldown_millis: None },
        vec![],
    );
    entry.kind = EntryKind::Vm { driver: "qemu".to_string(), args: vec![] };
    let policy = make_policy(vec![entry]);
    // Minimal capabilities cannot spawn VMs.
    let mut engine =
        CoreEngine::new(policy, Store::new(), HostCapabilities::minimal(), noon());
    let decision = engine.request_launch(
        &EntryId::new("vm-thing".to_string()),
        noon(),
        MonotonicInstant::from_millis(0),
    );
    match decision {
        LaunchDecision::Denied { reasons } => {
            assert!(reasons
                .iter()
                .any(|r| matches!(r, shepherd::api::ReasonCode::UnsupportedKind { .. })));
        }
        _ => panic!("expected denial"),
    }
}

#[test]
fn test_disabled_entry_denied() {
    let mut entry = process_entry(
        "off",
        LimitsPolicy { max_run_millis: None, daily_quota_millis: None, cooldown_millis: None },
        vec![],
    );
    entry.disabled = true;
    entry.disabled_reason = Some("maintenance".to_string());
    let policy = make_policy(vec![entry]);
    let mut engine =
        CoreEngine::new(policy, Store::new(), HostCapabilities::minimal(), noon());
    let decision = engine.request_launch(
        &EntryId::new("off".to_string()),
        noon(),
        MonotonicInstant::from_millis(0),
    );
    match decision {
        LaunchDecision::Denied { reasons } => {
            assert!(matches!(
                &reasons[0],
                shepherd::api::ReasonCode::Disabled { reason: Some(m) } if m == "maintenance"
            ));
        }
        _ => panic!("expected denial"),
    }
}
