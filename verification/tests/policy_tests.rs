//! Tests of the validated policy: availability and raw-config conversion.

use shepherd::policy::{
    seconds_to_duration_or_unlimited, AvailabilityPolicy, Policy,
};
use shepherd::schema::{
    RawConfig, RawDaemonConfig, RawDays, RawEntry, RawEntryKind, RawLimits, RawTimeWindow,
};
use shepherd::time::{DaysOfWeek, TimeWindow, WallClock, WallTime};

fn wall(days: u64, hour: u32) -> WallTime {
    WallTime { days, secs: hour * 3600 }
}

#[test]
fn test_availability_always() {
    let policy = AvailabilityPolicy { windows: vec![], always: true };

    let dt = wall(20448, 3);
    assert!(policy.is_available(&dt));
}

#[test]
fn test_availability_window() {
    let policy = AvailabilityPolicy {
        windows: vec![TimeWindow {
            days: DaysOfWeek::all_days(),
            start: WallClock::new(14, 0).unwrap(),
            end: WallClock::new(18, 0).unwrap(),
        }],
        always: false,
    };

    // 3 PM should be available
    let dt = wall(20448, 15);
    assert!(policy.is_available(&dt));

    // 10 AM should not be available
    let dt = wall(20448, 10);
    assert!(!policy.is_available(&dt));
}

#[test]
fn test_no_windows_means_available() {
    let policy = AvailabilityPolicy { windows: vec![], always: false };
    assert!(policy.is_available(&wall(20448, 3)));
}

#[test]
fn test_seconds_to_duration_or_unlimited() {
    assert_eq!(seconds_to_duration_or_unlimited(0), None);
    assert_eq!(seconds_to_duration_or_unlimited(10), Some(10_000));
    assert_eq!(seconds_to_duration_or_unlimited(3600), Some(3_600_000));
}

#[test]
fn test_policy_from_raw() {
    let raw = RawConfig {
        config_version: 1,
        daemon: RawDaemonConfig {
            socket_path: None,
            log_dir: None,
            data_dir: None,
            default_warnings: None,
            default_max_run_seconds: None,
        },
        entries: vec![RawEntry {
            id: "scummvm".to_string(),
            label: "ScummVM".to_string(),
            icon: None,
            kind: RawEntryKind::Process {
                command: "scummvm".to_string(),
                args: vec!["-f".to_string()],
                env: vec![],
                cwd: None,
            },
            availability: Some(shepherd::schema::RawAvailability {
                windows: vec![RawTimeWindow {
                    days: RawDays::Preset("weekdays".into()),
                    start: "14:00".into(),
                    end: "18:00".into(),
                }],
                always: false,
            }),
            limits: Some(RawLimits {
                max_run_seconds: Some(3600),
                daily_quota_seconds: Some(0),
                cooldown_seconds: Some(120),
            }),
            warnings: None,
            volume: None,
            disabled: false,
            disabled_reason: None,
        }],
    };
    let policy = Policy::from_raw(raw);
    assert_eq!(policy.entries.len(), 1);
    let e = &policy.entries[0];
    assert_eq!(e.id.as_str(), "scummvm");
    assert_eq!(e.limits.max_run_millis, Some(3_600_000));
    // A configured zero quota means unlimited.
    assert_eq!(e.limits.daily_quota_millis, None);
    assert_eq!(e.limits.cooldown_millis, Some(120_000));
    // An absent default max run means one hour.
    assert_eq!(policy.default_max_run_millis, Some(3_600_000));
    // The absent warning list takes the default schedule.
    assert_eq!(e.warnings.len(), 3);
    assert_eq!(e.warnings[0].seconds_before, 300);
    // The window was parsed.
    assert_eq!(e.availability.windows.len(), 1);
    assert_eq!(e.availability.windows[0].start, WallClock::new(14, 0).unwrap());
    assert_eq!(e.availability.windows[0].days.mask, 0x1f);
}

#[test]
fn test_get_entry_finds_first() {
    let raw_entry = |id: &str| RawEntry {
        id: id.to_string(),
        label: id.to_string(),
        icon: None,
        kind: RawEntryKind::Process {
            command: id.to_string(),
            args: vec![],
            env: vec![],
            cwd: None,
        },
        availability: None,
        limits: None,
        warnings: None,
        volume: None,
        disabled: false,
        disabled_reason: None,
    };
    let raw = RawConfig {
        config_version: 1,
        daemon: RawDaemonConfig {
            socket_path: None,
            log_dir: None,
            data_dir: None,
            default_warnings: None,
            default_max_run_seconds: None,
        },
        entries: vec![raw_entry("a"), raw_entry("b")],
    };
    let policy = Policy::from_raw(raw);
    assert_eq!(
        policy.get_entry(&shepherd::ids::EntryId::new("b".to_string())).unwrap().id.as_str(),
        "b"
    );
    assert!(policy.get_entry(&shepherd::ids::EntryId::new("c".to_string())).is_none());
}
