//! Tests of the host interface: capabilities, exit status, stop modes, and
//! spawn-command construction.

use shepherd::api::{EntryKind, EntryKindTag};
use shepherd::host::{build_spawn_spec, ExitStatus, HostCapabilities, HostError, StopMode};

#[test]
fn minimal_capabilities() {
    let caps = HostCapabilities::minimal();
    assert!(caps.supports_kind(EntryKindTag::Process));
    assert!(!caps.supports_kind(EntryKindTag::Vm));
    assert!(caps.can_kill_forcefully);
}

#[test]
fn linux_full_capabilities() {
    let caps = HostCapabilities::linux_full();
    assert!(caps.supports_kind(EntryKindTag::Process));
    assert!(caps.supports_kind(EntryKindTag::Vm));
    assert!(caps.can_group_process_tree);
}

#[test]
fn exit_status() {
    assert!(ExitStatus::success().is_success());
    assert!(!ExitStatus::with_code(1).is_success());
    assert!(!ExitStatus::signaled(9).is_success());
}

#[test]
fn stop_mode_default() {
    let mode = StopMode::default();
    assert!(matches!(mode, StopMode::Graceful { timeout_millis } if timeout_millis == 5000));
}

#[test]
fn spawn_spec_process() {
    let kind = EntryKind::Process {
        command: "game".to_string(),
        args: vec!["-f".to_string()],
        env: vec![("A".to_string(), "1".to_string())],
        cwd: Some("/tmp".to_string()),
    };
    let spec = build_spawn_spec(&kind).unwrap();
    assert_eq!(spec.argv, vec!["game".to_string(), "-f".to_string()]);
    assert_eq!(spec.env, vec![("A".to_string(), "1".to_string())]);
    assert_eq!(spec.cwd, Some("/tmp".to_string()));
    assert!(spec.snap_name.is_none());
}

#[test]
fn spawn_spec_snap() {
    let kind = EntryKind::Snap {
        snap_name: "mc".to_string(),
        command: Some("mc".to_string()),
        args: vec!["--demo".to_string()],
        env: vec![],
    };
    let spec = build_spawn_spec(&kind).unwrap();
    // The command equals the snap name, so it is not repeated.
    assert_eq!(
        spec.argv,
        vec!["snap".to_string(), "run".to_string(), "mc".to_string(), "--demo".to_string()]
    );
    assert_eq!(spec.snap_name, Some("mc".to_string()));

    let kind = EntryKind::Snap {
        snap_name: "mc".to_string(),
        command: Some("mc.server".to_string()),
        args: vec![],
        env: vec![],
    };
    let spec = build_spawn_spec(&kind).unwrap();
    assert_eq!(
        spec.argv,
        vec!["snap".to_string(), "run".to_string(), "mc".to_string(), "mc.server".to_string()]
    );
}

#[test]
fn spawn_spec_media_and_custom() {
    let kind = EntryKind::Media { library_id: "film-1".to_string(), args: vec![] };
    let spec = build_spawn_spec(&kind).unwrap();
    assert_eq!(spec.argv, vec!["xdg-open".to_string(), "film-1".to_string()]);

    let kind = EntryKind::Custom { kind_name: "weird".to_string(), payload: String::new() };
    assert!(matches!(build_spawn_spec(&kind), Err(HostError::UnsupportedKind)));
}
