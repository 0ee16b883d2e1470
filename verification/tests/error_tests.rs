//! Tests of the error taxonomy and of error paths through the orchestrator.

use shepherd::api::{ClientRole, Command, ErrorCode, ResponseResult};
use shepherd::engine::{CoreEngine, LaunchDecision};
use shepherd::error::ShepherdError;
use shepherd::host::HostCapabilities;
use shepherd::ids::{ClientId, EntryId};
use shepherd::ipc::ClientRegistry;
use shepherd::service::{handle_command, handle_reload_result, CommandOutcome};
use shepherd::store::Store;
use shepherd::time::{MonotonicInstant, WallTime};

fn noon() -> WallTime {
    WallTime { days: 20447, secs: 12 * 3600 }
}

#[test]
fn error_constructors_carry_their_kind() {
    assert_eq!(ShepherdError::config("x".to_string()).kind_name(), "config_error");
    assert_eq!(ShepherdError::validation("x".to_string()).kind_name(), "validation_error");
    assert_eq!(ShepherdError::store("x".to_string()).kind_name(), "store_error");
    assert_eq!(ShepherdError::host("x".to_string()).kind_name(), "host_error");
    assert_eq!(ShepherdError::ipc("x".to_string()).kind_name(), "ipc_error");
    assert_eq!(ShepherdError::permission("x".to_string()).kind_name(), "permission_denied");
    assert_eq!(ShepherdError::internal("x".to_string()).kind_name(), "internal_error");
    assert_eq!(ShepherdError::RateLimited.kind_name(), "rate_limited");
    assert_eq!(ShepherdError::NoActiveSession.kind_name(), "no_active_session");
}

#[test]
fn failed_reload_is_a_config_error() {
    let policy = shepherd::policy::Policy {
        daemon: shepherd::policy::DaemonConfig::default(),
        entries: vec![],
        default_warnings: vec![],
        default_max_run_millis: None,
        volume: shepherd::policy::VolumePolicy::default(),
    };
    let mut engine = CoreEngine::new(policy, Store::new(), HostCapabilities::minimal(), noon());
    let (response, actions) =
        handle_reload_result(&mut engine, 5, Err("missing file".to_string()), noon());
    assert_eq!(response.request_id, 5);
    assert!(actions.is_empty());
    match response.result {
        ResponseResult::Failure(e) => assert_eq!(e.code, ErrorCode::ConfigError),
        _ => panic!("expected config error"),
    }
}

#[test]
fn overflowing_extension_is_an_internal_error() {
    let policy = shepherd::policy::Policy {
        daemon: shepherd::policy::DaemonConfig::default(),
        entries: vec![shepherd::policy::Entry {
            id: EntryId::new("g".to_string()),
            label: "g".to_string(),
            icon_ref: None,
            kind: shepherd::api::EntryKind::Process {
                command: "g".to_string(),
                args: vec![],
                env: vec![],
                cwd: None,
            },
            availability: shepherd::policy::AvailabilityPolicy { windows: vec![], always: true },
            limits: shepherd::policy::LimitsPolicy {
                max_run_millis: Some(1000),
                daily_quota_millis: None,
                cooldown_millis: None,
            },
            warnings: vec![],
            volume: None,
            disabled: false,
            disabled_reason: None,
        }],
        default_warnings: vec![],
        default_max_run_millis: None,
        volume: shepherd::policy::VolumePolicy::default(),
    };
    let mut engine = CoreEngine::new(policy, Store::new(), HostCapabilities::minimal(), noon());
    let mut registry = ClientRegistry::new();
    let t0 = MonotonicInstant::from_millis(0);
    if let LaunchDecision::Approved(plan) =
        engine.request_launch(&EntryId::new("g".to_string()), noon(), t0)
    {
        engine.start_session(plan, noon(), t0);
    }
    let outcome = handle_command(
        &mut engine,
        &mut registry,
        ClientId::from_value(1),
        ClientRole::Admin,
        9,
        Command::ExtendCurrent { by_millis: u64::MAX },
        true,
        noon(),
        t0,
    );
    match outcome {
        CommandOutcome::Done { response, .. } => match response.result {
            ResponseResult::Failure(e) => assert_eq!(e.code, ErrorCode::InternalError),
            _ => panic!("expected internal error"),
        },
        _ => panic!("expected done"),
    }
    // The deadline is untouched by the rejected extension.
    assert_eq!(engine.current_session().unwrap().deadline_mono.unwrap().millis, 1000);
}
