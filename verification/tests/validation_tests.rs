//! Tests of configuration validation: time and day parsing, entry checks,
//! and duplicate-id detection.

use shepherd::schema::{
    RawConfig, RawDaemonConfig, RawDays, RawEntry, RawEntryKind, RawLimits, RawTimeWindow,
    RawWarningThreshold,
};
use shepherd::validation::{parse_days, parse_time, validate_config, ValidationError};

fn raw_daemon() -> RawDaemonConfig {
    RawDaemonConfig {
        socket_path: None,
        log_dir: None,
        data_dir: None,
        default_warnings: None,
        default_max_run_seconds: None,
    }
}

fn raw_entry(id: &str, command: &str) -> RawEntry {
    RawEntry {
        id: id.to_string(),
        label: id.to_string(),
        icon: None,
        kind: RawEntryKind::Process {
            command: command.to_string(),
            args: vec![],
            env: vec![],
            cwd: None,
        },
        availability: None,
        limits: None,
        warnings: None,
        volume: None,
        disabled: false,
        disabled_reason: None,
    }
}

#[test]
fn test_parse_time() {
    assert_eq!(parse_time("14:30").unwrap(), (14, 30));
    assert_eq!(parse_time("00:00").unwrap(), (0, 0));
    assert_eq!(parse_time("23:59").unwrap(), (23, 59));

    assert!(parse_time("24:00").is_err());
    assert!(parse_time("12:60").is_err());
    assert!(parse_time("invalid").is_err());
}

#[test]
fn test_parse_time_messages() {
    assert_eq!(parse_time("invalid").unwrap_err(), "Expected HH:MM format");
    assert_eq!(parse_time("ab:30").unwrap_err(), "Invalid hour");
    assert_eq!(parse_time("14:xy").unwrap_err(), "Invalid minute");
    assert_eq!(parse_time("24:00").unwrap_err(), "Hour must be 0-23");
    assert_eq!(parse_time("12:60").unwrap_err(), "Minute must be 0-59");
    assert_eq!(parse_time("1:2:3").unwrap_err(), "Expected HH:MM format");
}

#[test]
fn test_parse_days() {
    assert_eq!(parse_days(&RawDays::Preset("weekdays".into())).unwrap(), 0x1F);
    assert_eq!(parse_days(&RawDays::Preset("weekends".into())).unwrap(), 0x60);
    assert_eq!(parse_days(&RawDays::Preset("all".into())).unwrap(), 0x7F);

    assert_eq!(
        parse_days(&RawDays::List(vec!["mon".into(), "wed".into(), "fri".into()])).unwrap(),
        0b10101
    );
}

#[test]
fn test_parse_days_case_and_errors() {
    assert_eq!(parse_days(&RawDays::Preset("Daily".into())).unwrap(), 0x7F);
    assert_eq!(
        parse_days(&RawDays::List(vec!["Saturday".into(), "SUN".into()])).unwrap(),
        0x60
    );
    assert_eq!(
        parse_days(&RawDays::Preset("fortnightly".into())).unwrap_err(),
        "Unknown day preset: fortnightly"
    );
    assert_eq!(
        parse_days(&RawDays::List(vec!["mon".into(), "xday".into()])).unwrap_err(),
        "Unknown day: xday"
    );
}

#[test]
fn test_duplicate_id_detection() {
    let config = RawConfig {
        config_version: 1,
        daemon: raw_daemon(),
        entries: vec![raw_entry("game", "game1"), raw_entry("game", "game2")],
    };

    let errors = validate_config(&config);
    assert!(errors.iter().any(|e| matches!(e, ValidationError::DuplicateEntryId(_))));
}

#[test]
fn test_validate_empty_command() {
    let config = RawConfig {
        config_version: 1,
        daemon: raw_daemon(),
        entries: vec![raw_entry("game", "")],
    };
    let errors = validate_config(&config);
    assert!(errors.iter().any(|e| matches!(e, ValidationError::EntryError { .. })));
}

#[test]
fn test_validate_warning_exceeds_max_run() {
    let mut entry = raw_entry("game", "game");
    entry.limits = Some(RawLimits {
        max_run_seconds: Some(60),
        daily_quota_seconds: None,
        cooldown_seconds: None,
    });
    entry.warnings = Some(vec![RawWarningThreshold {
        seconds_before: 60,
        severity: "warn".to_string(),
        message: None,
    }]);
    let config =
        RawConfig { config_version: 1, daemon: raw_daemon(), entries: vec![entry] };
    let errors = validate_config(&config);
    assert!(errors.iter().any(|e| matches!(
        e,
        ValidationError::WarningExceedsMaxRun { seconds: 60, max_run: 60, .. }
    )));
}

#[test]
fn test_validate_unlimited_entry_skips_warning_check() {
    let mut entry = raw_entry("game", "game");
    entry.limits = Some(RawLimits {
        max_run_seconds: Some(0),
        daily_quota_seconds: None,
        cooldown_seconds: None,
    });
    entry.warnings = Some(vec![RawWarningThreshold {
        seconds_before: 1_000_000,
        severity: "warn".to_string(),
        message: None,
    }]);
    let config =
        RawConfig { config_version: 1, daemon: raw_daemon(), entries: vec![entry] };
    assert!(validate_config(&config).is_empty());
}

#[test]
fn test_validate_bad_window() {
    let mut entry = raw_entry("game", "game");
    entry.availability = Some(shepherd::schema::RawAvailability {
        windows: vec![RawTimeWindow {
            days: RawDays::Preset("weekdays".into()),
            start: "25:00".into(),
            end: "18:00".into(),
        }],
        always: false,
    });
    let config =
        RawConfig { config_version: 1, daemon: raw_daemon(), entries: vec![entry] };
    let errors = validate_config(&config);
    assert!(errors.iter().any(|e| matches!(e, ValidationError::InvalidTimeFormat { .. })));
}
