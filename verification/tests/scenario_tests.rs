//! End-to-end scenarios over the engine, the orchestrator decision layer,
//! and the peer registry.

use shepherd::api::{
    ClientRole, Command, EntryKind, ErrorCode, EventPayload, ResponsePayload, ResponseResult,
    SessionEndReason, StopMode, WarningSeverity, WarningThreshold,
};
use shepherd::engine::{CoreEngine, CoreEvent, LaunchDecision, StopDecision};
use shepherd::host::{HostCapabilities, HostHandlePayload, HostSessionHandle};
use shepherd::ids::{ClientId, EntryId};
use shepherd::ipc::ClientRegistry;
use shepherd::policy::{
    AvailabilityPolicy, DaemonConfig, Entry, LimitsPolicy, Policy, VolumePolicy,
};
use shepherd::service::{handle_command, handle_spawn_result, CommandOutcome, ServiceAction};
use shepherd::store::Store;
use shepherd::time::{MonotonicInstant, WallTime};

fn noon() -> WallTime {
    WallTime { days: 20447, secs: 12 * 3600 }
}

fn entry(id: &str, limits: LimitsPolicy, warnings: Vec<WarningThreshold>) -> Entry {
    Entry {
        id: EntryId::new(id.to_string()),
        label: id.to_string(),
        icon_ref: None,
        kind: EntryKind::Process {
            command: id.to_string(),
            args: vec![],
            env: vec![],
            cwd: None,
        },
        availability: AvailabilityPolicy { windows: vec![], always: true },
        limits,
        warnings,
        volume: None,
        disabled: false,
        disabled_reason: None,
    }
}

fn policy_of(entries: Vec<Entry>) -> Policy {
    Policy {
        daemon: DaemonConfig::default(),
        entries,
        default_warnings: vec![],
        default_max_run_millis: Some(3_600_000),
        volume: VolumePolicy::default(),
    }
}

fn engine_of(policy: Policy) -> CoreEngine {
    CoreEngine::new(policy, Store::new(), HostCapabilities::minimal(), noon())
}

fn warn(threshold: u64, severity: WarningSeverity) -> WarningThreshold {
    WarningThreshold { seconds_before: threshold, severity, message_template: None }
}

/// One entry with a ten-second cap and warnings at five and two seconds:
/// launch, warning at five, warning at eight, expiry at ten, and an end with
/// the elapsed monotonic time as the duration.
#[test]
fn basic_lifecycle() {
    let policy = policy_of(vec![entry(
        "test-game",
        LimitsPolicy {
            max_run_millis: Some(10_000),
            daily_quota_millis: None,
            cooldown_millis: None,
        },
        vec![warn(5, WarningSeverity::Warn), warn(2, WarningSeverity::Critical)],
    )]);
    let mut engine = engine_of(policy);
    let now = noon();
    let t0 = MonotonicInstant::from_millis(0);

    let plan = match engine.request_launch(&EntryId::new("test-game".to_string()), now, t0) {
        LaunchDecision::Approved(plan) => plan,
        _ => panic!("expected approval"),
    };
    assert_eq!(plan.max_duration_millis, Some(10_000));
    engine.start_session(plan, now, t0);

    // At T=5.0 s: the five-second warning fires with severity Warn.
    let events = engine.tick(t0.add_millis(5_000), now);
    assert_eq!(events.len(), 1);
    assert!(matches!(
        events[0],
        CoreEvent::Warning { threshold_seconds: 5, severity: WarningSeverity::Warn, .. }
    ));

    // At T=8.0 s: the two-second warning fires with severity Critical.
    let events = engine.tick(t0.add_millis(8_000), now);
    assert_eq!(events.len(), 1);
    assert!(matches!(
        events[0],
        CoreEvent::Warning { threshold_seconds: 2, severity: WarningSeverity::Critical, .. }
    ));

    // At T=10.0 s: expiry is signalled.
    let events = engine.tick(t0.add_millis(10_000), now);
    assert_eq!(events.len(), 1);
    assert!(matches!(events[0], CoreEvent::ExpireDue { .. }));

    // The supervisor reports the child gone; the reason is the expiry and
    // the duration the monotonic time since the start.
    let ev = engine.notify_session_exited(Some(0), t0.add_millis(10_000), now).unwrap();
    match ev {
        CoreEvent::SessionEnded { reason, duration_millis, .. } => {
            assert_eq!(reason, SessionEndReason::Expired);
            assert_eq!(duration_millis, 10_000);
        }
        _ => panic!("expected session end"),
    }
    assert!(!engine.has_active_session());
}

/// A spent daily quota disables the entry and denies the launch with the
/// matching reason.
#[test]
fn quota_exhaustion() {
    let policy = policy_of(vec![entry(
        "quota-game",
        LimitsPolicy {
            max_run_millis: None,
            daily_quota_millis: Some(60_000),
            cooldown_millis: None,
        },
        vec![],
    )]);
    let mut store = Store::new();
    store.add_usage(&EntryId::new("quota-game".to_string()), noon().days, 60_000);
    let mut engine = CoreEngine::new(policy, store, HostCapabilities::minimal(), noon());

    let views = engine.list_entries(noon(), MonotonicInstant::from_millis(0));
    assert_eq!(views.len(), 1);
    assert!(!views[0].enabled);
    assert_eq!(views[0].reasons.len(), 1);
    assert!(matches!(
        views[0].reasons[0],
        shepherd::api::ReasonCode::QuotaExhausted { used_millis: 60_000, quota_millis: 60_000 }
    ));

    let decision = engine.request_launch(
        &EntryId::new("quota-game".to_string()),
        noon(),
        MonotonicInstant::from_millis(0),
    );
    match decision {
        LaunchDecision::Denied { reasons } => {
            assert!(matches!(
                reasons[0],
                shepherd::api::ReasonCode::QuotaExhausted { .. }
            ));
        }
        _ => panic!("expected denial"),
    }
}

/// A session that ends at noon with a five-minute cooldown blocks launches
/// until 12:05:00 and allows them at 12:05:01.
#[test]
fn cooldown() {
    let policy = policy_of(vec![entry(
        "cool-game",
        LimitsPolicy {
            max_run_millis: None,
            daily_quota_millis: None,
            cooldown_millis: Some(300_000),
        },
        vec![],
    )]);
    let mut engine = engine_of(policy);
    let id = EntryId::new("cool-game".to_string());
    let t0 = MonotonicInstant::from_millis(0);

    let plan = match engine.request_launch(&id, noon(), t0) {
        LaunchDecision::Approved(plan) => plan,
        _ => panic!("expected approval"),
    };
    engine.start_session(plan, noon(), t0);
    // The session ends at wall-clock 12:00:00.
    match engine.stop_current(SessionEndReason::UserStop, t0.add_millis(30_000), noon()) {
        StopDecision::Stopped(_) => {}
        _ => panic!("expected stop"),
    }

    // The cooldown row reads 12:05:00.
    let until = engine.store.get_cooldown_until(&id).unwrap();
    assert_eq!(until, noon().plus_secs(300));

    // A launch at 12:02:00 is denied with the cooldown reason.
    let at_1202 = WallTime { days: noon().days, secs: 12 * 3600 + 120 };
    match engine.request_launch(&id, at_1202, t0) {
        LaunchDecision::Denied { reasons } => {
            assert!(matches!(
                reasons[0],
                shepherd::api::ReasonCode::CooldownActive { available_at } if available_at == until
            ));
        }
        _ => panic!("expected denial"),
    }

    // At 12:05:01 it is approved.
    let at_1205 = WallTime { days: noon().days, secs: 12 * 3600 + 301 };
    assert!(matches!(
        engine.request_launch(&id, at_1205, t0),
        LaunchDecision::Approved(_)
    ));
}

/// An admin may extend a finite session by exactly the requested span; a
/// shell peer is denied.
#[test]
fn admin_extension() {
    let policy = policy_of(vec![entry(
        "long-game",
        LimitsPolicy {
            max_run_millis: Some(600_000),
            daily_quota_millis: None,
            cooldown_millis: None,
        },
        vec![],
    )]);
    let mut engine = engine_of(policy);
    let mut registry = ClientRegistry::new();
    let admin = ClientId::from_value(1);
    let shell = ClientId::from_value(2);
    let t0 = MonotonicInstant::from_millis(0);

    let plan = match engine.request_launch(&EntryId::new("long-game".to_string()), noon(), t0) {
        LaunchDecision::Approved(plan) => plan,
        _ => panic!("expected approval"),
    };
    engine.start_session(plan, noon(), t0);

    // Admin extension: the deadline moves from T=600 s to T=900 s.
    let outcome = handle_command(
        &mut engine,
        &mut registry,
        admin,
        ClientRole::Admin,
        1,
        Command::ExtendCurrent { by_millis: 300_000 },
        true,
        noon(),
        t0,
    );
    match outcome {
        CommandOutcome::Done { response, .. } => match response.result {
            ResponseResult::Success(ResponsePayload::Extended { new_deadline }) => {
                assert_eq!(new_deadline, Some(noon().plus_secs(900)));
            }
            _ => panic!("expected extension"),
        },
        _ => panic!("expected done"),
    }
    let session = engine.current_session().unwrap();
    assert_eq!(session.deadline_mono.unwrap().millis, 900_000);

    // The same command from a shell peer is denied.
    let outcome = handle_command(
        &mut engine,
        &mut registry,
        shell,
        ClientRole::Shell,
        2,
        Command::ExtendCurrent { by_millis: 300_000 },
        true,
        noon(),
        t0,
    );
    match outcome {
        CommandOutcome::Done { response, .. } => match response.result {
            ResponseResult::Failure(e) => assert_eq!(e.code, ErrorCode::PermissionDenied),
            _ => panic!("expected permission denial"),
        },
        _ => panic!("expected done"),
    }
    // The deadline is untouched.
    assert_eq!(engine.current_session().unwrap().deadline_mono.unwrap().millis, 900_000);
}

/// An unlimited entry launches with no deadline; ticks produce nothing and
/// an extension is rejected as for a missing session.
#[test]
fn unlimited_session() {
    let policy = policy_of(vec![entry(
        "free-game",
        LimitsPolicy { max_run_millis: None, daily_quota_millis: None, cooldown_millis: None },
        vec![warn(60, WarningSeverity::Warn)],
    )]);
    let mut engine = engine_of(policy);
    let mut registry = ClientRegistry::new();
    let t0 = MonotonicInstant::from_millis(0);

    let plan = match engine.request_launch(&EntryId::new("free-game".to_string()), noon(), t0) {
        LaunchDecision::Approved(plan) => plan,
        _ => panic!("expected approval"),
    };
    assert_eq!(plan.max_duration_millis, None);
    engine.start_session(plan, noon(), t0);
    assert!(engine.current_session().unwrap().deadline.is_none());

    // Ticks, however late, produce no warnings and no expiry.
    assert!(engine.tick(t0.add_millis(3_600_000), noon()).is_empty());
    assert!(engine.tick(t0.add_millis(86_400_000), noon()).is_empty());

    // Extension is rejected: there is no deadline to move.
    let outcome = handle_command(
        &mut engine,
        &mut registry,
        ClientId::from_value(1),
        ClientRole::Admin,
        7,
        Command::ExtendCurrent { by_millis: 300_000 },
        true,
        noon(),
        t0,
    );
    match outcome {
        CommandOutcome::Done { response, .. } => match response.result {
            ResponseResult::Failure(e) => assert_eq!(e.code, ErrorCode::NoActiveSession),
            _ => panic!("expected rejection"),
        },
        _ => panic!("expected done"),
    }
}

/// A spawn failure ends the approved session at once with the failure as
/// its reason, broadcasts the end and the idle state, and answers the peer
/// with a host error — nobody is left watching a phantom session.
#[test]
fn host_spawn_failure() {
    let policy = policy_of(vec![entry(
        "broken",
        LimitsPolicy {
            max_run_millis: Some(600_000),
            daily_quota_millis: None,
            cooldown_millis: None,
        },
        vec![],
    )]);
    let mut engine = engine_of(policy);
    let mut registry = ClientRegistry::new();
    let t0 = MonotonicInstant::from_millis(0);

    let outcome = handle_command(
        &mut engine,
        &mut registry,
        ClientId::from_value(1),
        ClientRole::Shell,
        3,
        Command::Launch { entry_id: EntryId::new("broken".to_string()) },
        true,
        noon(),
        t0,
    );
    let (request_id, started) = match outcome {
        CommandOutcome::AwaitSpawn { request_id, started, .. } => (request_id, started),
        _ => panic!("expected a spawn to perform"),
    };
    assert!(engine.has_active_session());

    let (response, actions) = handle_spawn_result(
        &mut engine,
        request_id,
        started,
        Err("No such file or directory".to_string()),
        noon(),
        t0,
    );
    match response.result {
        ResponseResult::Failure(e) => assert_eq!(e.code, ErrorCode::HostError),
        _ => panic!("expected host error"),
    }
    assert!(!engine.has_active_session());
    // The end (with the launch failure as reason) and the idle state go out.
    assert!(actions.iter().any(|a| matches!(
        a,
        ServiceAction::Broadcast(EventPayload::SessionEnded {
            reason: SessionEndReason::LaunchFailed { .. },
            ..
        })
    )));
    assert!(actions.iter().any(|a| matches!(
        a,
        ServiceAction::Broadcast(EventPayload::StateChanged(snapshot))
            if snapshot.current_session.is_none()
    )));
}

/// A successful spawn attaches the handle and answers the approval.
#[test]
fn spawn_success_attaches_handle() {
    let policy = policy_of(vec![entry(
        "ok-game",
        LimitsPolicy {
            max_run_millis: Some(600_000),
            daily_quota_millis: None,
            cooldown_millis: None,
        },
        vec![],
    )]);
    let mut engine = engine_of(policy);
    let mut registry = ClientRegistry::new();
    let t0 = MonotonicInstant::from_millis(0);

    let outcome = handle_command(
        &mut engine,
        &mut registry,
        ClientId::from_value(1),
        ClientRole::Shell,
        4,
        Command::Launch { entry_id: EntryId::new("ok-game".to_string()) },
        true,
        noon(),
        t0,
    );
    let (request_id, session_id, started) = match outcome {
        CommandOutcome::AwaitSpawn { request_id, session_id, started, .. } => {
            (request_id, session_id, started)
        }
        _ => panic!("expected a spawn to perform"),
    };
    let handle =
        HostSessionHandle::new(session_id, HostHandlePayload::Linux { pid: 4242, pgid: 4242 });
    let (response, _) =
        handle_spawn_result(&mut engine, request_id, started, Ok(handle), noon(), t0);
    assert_eq!(response.request_id, 4);
    match response.result {
        ResponseResult::Success(ResponsePayload::LaunchApproved { deadline, .. }) => {
            assert_eq!(deadline, Some(noon().plus_secs(600)));
        }
        _ => panic!("expected approval"),
    }
    let session = engine.current_session().unwrap();
    assert_eq!(session.state, shepherd::api::SessionState::Running);
    assert!(session.host_handle.is_some());
}

/// Subscribing twice leaves the registry exactly as one subscription does.
#[test]
fn subscribe_twice_equals_once() {
    let mut registry = ClientRegistry::new();
    let peer = ClientId::from_value(9);
    registry.connect(peer, ClientRole::Shell, Some(1000));
    assert!(!registry.is_subscribed(&peer));

    registry.subscribe(&peer);
    assert!(registry.is_subscribed(&peer));
    assert_eq!(registry.client_count(), 1);

    registry.subscribe(&peer);
    assert!(registry.is_subscribed(&peer));
    assert_eq!(registry.client_count(), 1);

    registry.unsubscribe(&peer);
    assert!(!registry.is_subscribed(&peer));
}

/// Stopping with no active session answers `no_active_session`, again and
/// again, without any other effect.
#[test]
fn stop_without_session_is_safe() {
    let policy = policy_of(vec![]);
    let mut engine = engine_of(policy);
    let mut registry = ClientRegistry::new();
    let t0 = MonotonicInstant::from_millis(0);

    for rid in 1..4u64 {
        let outcome = handle_command(
            &mut engine,
            &mut registry,
            ClientId::from_value(1),
            ClientRole::Shell,
            rid,
            Command::StopCurrent { mode: StopMode::Graceful },
            true,
            noon(),
            t0,
        );
        match outcome {
            CommandOutcome::Done { response, actions } => {
                assert_eq!(response.request_id, rid);
                assert!(actions.is_empty());
                match response.result {
                    ResponseResult::Failure(e) => {
                        assert_eq!(e.code, ErrorCode::NoActiveSession)
                    }
                    _ => panic!("expected no_active_session"),
                }
            }
            _ => panic!("expected done"),
        }
    }
}

/// Responses carry the id of the request they answer.
#[test]
fn responses_carry_request_ids() {
    let policy = policy_of(vec![]);
    let mut engine = engine_of(policy);
    let mut registry = ClientRegistry::new();
    let t0 = MonotonicInstant::from_millis(0);

    for rid in [3u64, 11, 7, 1000] {
        let outcome = handle_command(
            &mut engine,
            &mut registry,
            ClientId::from_value(1),
            ClientRole::Shell,
            rid,
            Command::Ping,
            true,
            noon(),
            t0,
        );
        match outcome {
            CommandOutcome::Done { response, .. } => {
                assert_eq!(response.request_id, rid);
                assert!(matches!(response.result, ResponseResult::Success(ResponsePayload::Pong)));
            }
            _ => panic!("expected done"),
        }
    }
}

/// Wall-clock steps, forward or backward, never move the monotonic
/// deadline: the session still ends the same number of monotonic seconds
/// after its start.
#[test]
fn wall_clock_shift_does_not_move_expiry() {
    let policy = policy_of(vec![entry(
        "steady",
        LimitsPolicy {
            max_run_millis: Some(60_000),
            daily_quota_millis: None,
            cooldown_millis: None,
        },
        vec![],
    )]);
    let mut engine = engine_of(policy);
    let t0 = MonotonicInstant::from_millis(0);

    let plan = match engine.request_launch(&EntryId::new("steady".to_string()), noon(), t0) {
        LaunchDecision::Approved(plan) => plan,
        _ => panic!("expected approval"),
    };
    engine.start_session(plan, noon(), t0);

    // The wall clock jumps five hours back: one monotonic second before the
    // deadline nothing expires.
    let five_hours_back = WallTime { days: noon().days, secs: 7 * 3600 };
    assert!(engine.tick(t0.add_millis(59_999), five_hours_back).is_empty());

    // The wall clock jumps a day forward: at sixty monotonic seconds the
    // session expires regardless.
    let next_day = WallTime { days: noon().days + 1, secs: 12 * 3600 };
    let events = engine.tick(t0.add_millis(60_000), next_day);
    assert_eq!(events.len(), 1);
    assert!(matches!(events[0], CoreEvent::ExpireDue { .. }));
}

/// A threshold configured twice still fires at most once per session.
#[test]
fn duplicate_threshold_fires_once() {
    let policy = policy_of(vec![entry(
        "dup",
        LimitsPolicy {
            max_run_millis: Some(120_000),
            daily_quota_millis: None,
            cooldown_millis: None,
        },
        vec![warn(60, WarningSeverity::Warn), warn(60, WarningSeverity::Critical)],
    )]);
    let mut engine = engine_of(policy);
    let t0 = MonotonicInstant::from_millis(0);

    let plan = match engine.request_launch(&EntryId::new("dup".to_string()), noon(), t0) {
        LaunchDecision::Approved(plan) => plan,
        _ => panic!("expected approval"),
    };
    engine.start_session(plan, noon(), t0);

    let events = engine.tick(t0.add_millis(70_000), noon());
    assert_eq!(events.len(), 1);
    assert!(matches!(events[0], CoreEvent::Warning { threshold_seconds: 60, .. }));
    assert!(engine.tick(t0.add_millis(71_000), noon()).is_empty());
}
