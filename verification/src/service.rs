//! The orchestrator's decision logic: commands in, responses and actions
//! out. The process around the service performs the actions (spawning,
//! signalling, socket writes, volume calls) and feeds results back in; every
//! decision about what to do is made here.

use vstd::prelude::*;

use crate::api::{
    ClientRole, Command, ErrorCode, ErrorInfo, EventPayload, HealthStatus, Response,
    ResponsePayload, ResponseResult, SessionEndReason, StopMode, VolumeInfo, VolumeRestrictions,
};
use crate::engine::{CoreEngine, CoreEvent, LaunchDecision, StopDecision};
use crate::host::{build_spawn_spec, HostSessionHandle, SpawnSpec, StopMode as HostStopMode};
use crate::ids::{ClientId, SessionId};
use crate::ipc::ClientRegistry;
use crate::session::StopResult;
use crate::time::{MonotonicInstant, WallTime};

verus! {

use vstd::string::StringExecFns;

/// Something the process around the service must do on the engine's behalf.
#[derive(Debug)]
pub enum ServiceAction {
    /// Fan the event out to every subscribed peer.
    Broadcast(EventPayload),
    /// Ask the supervisor to stop the session behind the handle.
    StopHost { handle: HostSessionHandle, mode: HostStopMode },
}

/// A volume operation the platform adapter must perform.
#[derive(Debug, Clone, Copy, PartialEq, Eq, Structural)]
pub enum VolumeOp {
    GetStatus,
    SetVolume { percent: u8 },
    StepUp { step: u8 },
    StepDown { step: u8 },
    ToggleMute,
    SetMute { muted: bool },
}

/// What handling one command yields: either a finished response with the
/// actions to perform, or outside work to do first — a spawn, a volume call,
/// or a configuration reload — whose result comes back through the matching
/// `handle_*_result` function.
#[derive(Debug)]
pub enum CommandOutcome {
    Done { response: Response, actions: Vec<ServiceAction> },
    AwaitSpawn { request_id: u64, session_id: SessionId, spawn: SpawnSpec, started: EventPayload },
    AwaitVolume { request_id: u64, op: VolumeOp, restrictions: VolumeRestrictions },
    AwaitReload { request_id: u64 },
}

/// The volume restrictions in force: the active session's entry override if
/// it has one, else the global policy.
pub fn current_volume_restrictions(engine: &CoreEngine) -> (r: VolumeRestrictions)
    ensures
        ({
            let vp = match engine.current_session {
                Some(s) => match crate::policy::spec_find_entry(
                    engine.policy.entries@,
                    s.plan.entry_id@,
                ) {
                    Some(i) => match engine.policy.entries@[i].volume {
                        Some(v) => v,
                        None => engine.policy.volume,
                    },
                    None => engine.policy.volume,
                },
                None => engine.policy.volume,
            };
            r.max_volume == vp.max_volume && r.min_volume == vp.min_volume && r.allow_mute
                == vp.allow_mute && r.allow_change == vp.allow_change
        }),
{
    let vp = match &engine.current_session {
        Some(s) => match engine.policy.get_entry(&s.plan.entry_id) {
            Some(entry) => match entry.volume {
                Some(v) => v,
                None => engine.policy.volume,
            },
            None => engine.policy.volume,
        },
        None => engine.policy.volume,
    };
    VolumeRestrictions {
        max_volume: vp.max_volume,
        min_volume: vp.min_volume,
        allow_mute: vp.allow_mute,
        allow_change: vp.allow_change,
    }
}

/// Handles one command from a peer. Every outcome carries the request's own
/// id, so each response answers exactly the request it was made for. Admin
/// commands from a non-admin peer are denied without touching the engine;
/// stopping without an active session answers `no_active_session` and
/// changes nothing; a launch either comes back denied with the engine's
/// reasons or hands back the spawn to perform.
pub fn handle_command(
    engine: &mut CoreEngine,
    registry: &mut ClientRegistry,
    client_id: ClientId,
    role: ClientRole,
    request_id: u64,
    command: Command,
    host_ok: bool,
    now: WallTime,
    now_mono: MonotonicInstant,
) -> (outcome: CommandOutcome)
    requires
        old(engine).wf(),
        now.wf(),
        old(engine).audit_room(2),
    ensures
        final(engine).wf(),
        match outcome {
            CommandOutcome::Done { response, .. } => response.request_id == request_id,
            CommandOutcome::AwaitSpawn { request_id: rid, .. } => rid == request_id,
            CommandOutcome::AwaitVolume { request_id: rid, .. } => rid == request_id,
            CommandOutcome::AwaitReload { request_id: rid, .. } => rid == request_id,
        },
        (command matches Command::ExtendCurrent { .. } && role != ClientRole::Admin) ==> (
        *final(engine) == *old(engine) && (outcome matches CommandOutcome::Done { response, .. }
            && (response.result matches ResponseResult::Failure(e) && e.code
            == ErrorCode::PermissionDenied))),
        (command matches Command::ReloadConfig && role != ClientRole::Admin) ==> (*final(engine)
            == *old(engine) && (outcome matches CommandOutcome::Done { response, .. } && (
        response.result matches ResponseResult::Failure(e) && e.code
            == ErrorCode::PermissionDenied))),
        (command matches Command::StopCurrent { .. } && old(engine).current_session is None
            && role.can_stop_spec() && old(engine).spec_end_fits(now)) ==> (*final(engine) == *old(
            engine,
        ) && (outcome matches CommandOutcome::Done { response, .. } && (
        response.result matches ResponseResult::Failure(e) && e.code
            == ErrorCode::NoActiveSession))),
        command matches Command::Ping ==> (*final(engine) == *old(engine) && (outcome matches
            CommandOutcome::Done { response, .. } && response.result
            == ResponseResult::Success(ResponsePayload::Pong))),
        (command matches Command::ExtendCurrent { by_millis } && role == ClientRole::Admin && (old(
            engine,
        ).current_session matches Some(s) && s.deadline_mono is None)) ==> (outcome matches
            CommandOutcome::Done { response, .. } && (response.result matches
            ResponseResult::Failure(e) && e.code == ErrorCode::NoActiveSession)),
        (command matches Command::GetState || command matches Command::ListEntries { .. }
            || command matches Command::GetHealth || command matches Command::GetVolume
            || command matches Command::SetVolume { .. } || command matches Command::VolumeUp { .. }
            || command matches Command::VolumeDown { .. } || command matches Command::ToggleMute
            || command matches Command::SetMute { .. } || command matches Command::SubscribeEvents
            || command matches Command::UnsubscribeEvents) ==> *final(engine) == *old(engine),
        outcome matches CommandOutcome::AwaitSpawn { session_id, .. } ==> (command matches
            Command::Launch { .. } && (final(engine).current_session matches Some(s) && s.state
            == crate::api::SessionState::Launching && s.plan.session_id == session_id)
            && final(engine).history@ == old(engine).history@.push(
            crate::engine::TraceEvent::SessionStarted,
        )),
        (command matches Command::Launch { .. } && outcome matches CommandOutcome::Done { .. })
            ==> final(engine).current_session == old(engine).current_session,
        command matches Command::Launch { entry_id } ==> (outcome matches CommandOutcome::Done {
            response,
            ..
        } ==> (response.result matches ResponseResult::Success(p) ==> (p matches
            ResponsePayload::LaunchDenied { reasons } ==> (match crate::policy::spec_find_entry(
            old(engine).policy.entries@,
            entry_id@,
        ) {
            None => reasons@.len() == 1,
            Some(i) => reasons@ == old(engine).spec_entry_reasons(
                old(engine).policy.entries@[i],
                now,
                now_mono,
            ),
        })))),
        command matches Command::SubscribeEvents ==> (match crate::ipc::spec_find_peer(
            old(registry).peers@,
            client_id,
        ) {
            None => final(registry).peers@ == old(registry).peers@,
            Some(i) => final(registry).peers@ == old(registry).peers@.update(
                i,
                crate::ipc::PeerRecord { subscribed: true, ..old(registry).peers@[i] },
            ),
        }),
        !(command matches Command::SubscribeEvents || command matches Command::UnsubscribeEvents)
            ==> final(registry).peers@ == old(registry).peers@,
        command matches Command::StopCurrent { mode } ==> ((role.can_stop_spec() && old(
            engine,
        ).spec_end_fits(now)) ==> (match old(engine).current_session {
            Some(s) => outcome matches CommandOutcome::Done { response, .. } && response.result
                == ResponseResult::Success(ResponsePayload::Stopped)
                && crate::engine::CoreEngine::spec_ended_ok(
                *old(engine),
                *final(engine),
                s,
                (match mode {
                    StopMode::Graceful => SessionEndReason::UserStop,
                    StopMode::Force => SessionEndReason::AdminStop,
                }),
                now_mono,
                now,
            ),
            None => true,
        })),
        command matches Command::ExtendCurrent { by_millis } ==> ((role == ClientRole::Admin
            && old(engine).spec_extend_fits(by_millis)) ==> (match old(engine).current_session {
            Some(s) => match s.deadline_mono {
                Some(dm) => outcome matches CommandOutcome::Done { response, .. } && (
                response.result matches ResponseResult::Success(p) && (p matches
                    ResponsePayload::Extended { new_deadline } && new_deadline is Some)) && (
                final(engine).current_session matches Some(s2) && (s2.deadline_mono matches Some(
                    dm2,
                ) && dm2.millis == dm.millis + by_millis) && s2.warnings_issued@
                    == s.warnings_issued@ && s2.plan == s.plan),
                None => true,
            },
            None => true,
        })),
{
    match command {
        Command::GetState => {
            let state = engine.get_state(now, now_mono);
            CommandOutcome::Done {
                response: Response::success(request_id, ResponsePayload::State(state)),
                actions: Vec::new(),
            }
        },
        Command::ListEntries { at_time } => {
            let t = match at_time {
                Some(t) => {
                    if t.secs < 86400 && t.days < crate::time::MAX_DAY_INDEX {
                        t
                    } else {
                        now
                    }
                },
                None => now,
            };
            let entries = engine.list_entries(t, now_mono);
            CommandOutcome::Done {
                response: Response::success(request_id, ResponsePayload::Entries(entries)),
                actions: Vec::new(),
            }
        },
        Command::Launch { entry_id } => {
            if !role.can_launch() {
                return CommandOutcome::Done {
                    response: Response::error(
                        request_id,
                        ErrorInfo::new(
                            ErrorCode::PermissionDenied,
                            String::from_str("Not allowed to launch"),
                        ),
                    ),
                    actions: Vec::new(),
                };
            }
            match engine.request_launch(&entry_id, now, now_mono) {
                LaunchDecision::Denied { reasons } => CommandOutcome::Done {
                    response: Response::success(
                        request_id,
                        ResponsePayload::LaunchDenied { reasons },
                    ),
                    actions: Vec::new(),
                },
                LaunchDecision::Approved(plan) => {
                    let fits = match plan.max_duration_millis {
                        Some(m) => now_mono.millis <= u64::MAX - m && now.total_secs_fits(
                            m / 1000,
                        ),
                        None => true,
                    };
                    if !fits {
                        return CommandOutcome::Done {
                            response: Response::error(
                                request_id,
                                ErrorInfo::new(
                                    ErrorCode::InternalError,
                                    String::from_str("Clock out of range"),
                                ),
                            ),
                            actions: Vec::new(),
                        };
                    }
                    let spawn = match engine.policy.get_entry(&plan.entry_id) {
                        Some(entry) => match build_spawn_spec(&entry.kind) {
                            Ok(spec) => spec,
                            Err(_) => {
                                return CommandOutcome::Done {
                                    response: Response::error(
                                        request_id,
                                        ErrorInfo::new(
                                            ErrorCode::HostError,
                                            String::from_str("Unsupported entry kind"),
                                        ),
                                    ),
                                    actions: Vec::new(),
                                };
                            },
                        },
                        None => {
                            return CommandOutcome::Done {
                                response: Response::error(
                                    request_id,
                                    ErrorInfo::new(
                                        ErrorCode::EntryNotFound,
                                        String::from_str("Entry not found"),
                                    ),
                                ),
                                actions: Vec::new(),
                            };
                        },
                    };
                    let session_id = plan.session_id;
                    let event = engine.start_session(plan, now, now_mono);
                    let started = match event {
                        CoreEvent::SessionStarted { session_id, entry_id, label, deadline } => {
                            EventPayload::SessionStarted { session_id, entry_id, label, deadline }
                        },
                        _ => vstd::pervasive::unreached(),
                    };
                    CommandOutcome::AwaitSpawn { request_id, session_id, spawn, started }
                },
            }
        },
        Command::StopCurrent { mode } => {
            if !role.can_stop() {
                return CommandOutcome::Done {
                    response: Response::error(
                        request_id,
                        ErrorInfo::new(
                            ErrorCode::PermissionDenied,
                            String::from_str("Not allowed to stop"),
                        ),
                    ),
                    actions: Vec::new(),
                };
            }
            let handle = match engine.current_session() {
                Some(s) => match &s.host_handle {
                    Some(h) => Some(h.clone()),
                    None => None,
                },
                None => None,
            };
            if !engine.end_fits(now) {
                return CommandOutcome::Done {
                    response: Response::error(
                        request_id,
                        ErrorInfo::new(
                            ErrorCode::InternalError,
                            String::from_str("Clock out of range"),
                        ),
                    ),
                    actions: Vec::new(),
                };
            }
            let reason = match mode {
                StopMode::Graceful => SessionEndReason::UserStop,
                StopMode::Force => SessionEndReason::AdminStop,
            };
            match engine.stop_current(reason, now_mono, now) {
                StopDecision::Stopped(result) => {
                    let mut actions: Vec<ServiceAction> = Vec::new();
                    let StopResult { session_id, entry_id, reason, duration_millis } = result;
                    actions.push(ServiceAction::Broadcast(EventPayload::SessionEnded {
                        session_id,
                        entry_id,
                        reason,
                        duration_millis,
                    }));
                    let snapshot = engine.get_state(now, now_mono);
                    actions.push(ServiceAction::Broadcast(EventPayload::StateChanged(snapshot)));
                    match handle {
                        Some(h) => {
                            let host_mode = match mode {
                                StopMode::Graceful => HostStopMode::Graceful {
                                    timeout_millis: 5000,
                                },
                                StopMode::Force => HostStopMode::Force,
                            };
                            actions.push(ServiceAction::StopHost { handle: h, mode: host_mode });
                        },
                        None => {},
                    }
                    CommandOutcome::Done {
                        response: Response::success(request_id, ResponsePayload::Stopped),
                        actions,
                    }
                },
                StopDecision::NoActiveSession => CommandOutcome::Done {
                    response: Response::error(
                        request_id,
                        ErrorInfo::new(
                            ErrorCode::NoActiveSession,
                            String::from_str("No active session"),
                        ),
                    ),
                    actions: Vec::new(),
                },
            }
        },
        Command::ReloadConfig => {
            if !role.can_reload_config() {
                return CommandOutcome::Done {
                    response: Response::error(
                        request_id,
                        ErrorInfo::new(
                            ErrorCode::PermissionDenied,
                            String::from_str("Admin role required"),
                        ),
                    ),
                    actions: Vec::new(),
                };
            }
            CommandOutcome::AwaitReload { request_id }
        },
        Command::SubscribeEvents => {
            registry.subscribe(&client_id);
            CommandOutcome::Done {
                response: Response::success(request_id, ResponsePayload::Subscribed { client_id }),
                actions: Vec::new(),
            }
        },
        Command::UnsubscribeEvents => {
            registry.unsubscribe(&client_id);
            CommandOutcome::Done {
                response: Response::success(request_id, ResponsePayload::Unsubscribed),
                actions: Vec::new(),
            }
        },
        Command::GetHealth => {
            let health = HealthStatus {
                live: true,
                ready: true,
                policy_loaded: true,
                host_adapter_ok: host_ok,
                store_ok: engine.store.is_healthy(),
            };
            CommandOutcome::Done {
                response: Response::success(request_id, ResponsePayload::Health(health)),
                actions: Vec::new(),
            }
        },
        Command::GetVolume => {
            let restrictions = current_volume_restrictions(engine);
            CommandOutcome::AwaitVolume { request_id, op: VolumeOp::GetStatus, restrictions }
        },
        Command::SetVolume { percent } => {
            let restrictions = current_volume_restrictions(engine);
            if !restrictions.allow_change {
                return CommandOutcome::Done {
                    response: Response::success(
                        request_id,
                        ResponsePayload::VolumeDenied {
                            reason: String::from_str("Volume changes are not allowed"),
                        },
                    ),
                    actions: Vec::new(),
                };
            }
            let clamped = restrictions.clamp_volume(percent);
            CommandOutcome::AwaitVolume {
                request_id,
                op: VolumeOp::SetVolume { percent: clamped },
                restrictions,
            }
        },
        Command::VolumeUp { step } => {
            let restrictions = current_volume_restrictions(engine);
            if !restrictions.allow_change {
                return CommandOutcome::Done {
                    response: Response::success(
                        request_id,
                        ResponsePayload::VolumeDenied {
                            reason: String::from_str("Volume changes are not allowed"),
                        },
                    ),
                    actions: Vec::new(),
                };
            }
            CommandOutcome::AwaitVolume { request_id, op: VolumeOp::StepUp { step }, restrictions }
        },
        Command::VolumeDown { step } => {
            let restrictions = current_volume_restrictions(engine);
            if !restrictions.allow_change {
                return CommandOutcome::Done {
                    response: Response::success(
                        request_id,
                        ResponsePayload::VolumeDenied {
                            reason: String::from_str("Volume changes are not allowed"),
                        },
                    ),
                    actions: Vec::new(),
                };
            }
            CommandOutcome::AwaitVolume {
                request_id,
                op: VolumeOp::StepDown { step },
                restrictions,
            }
        },
        Command::ToggleMute => {
            let restrictions = current_volume_restrictions(engine);
            if !restrictions.allow_mute {
                return CommandOutcome::Done {
                    response: Response::success(
                        request_id,
                        ResponsePayload::VolumeDenied {
                            reason: String::from_str("Mute toggle is not allowed"),
                        },
                    ),
                    actions: Vec::new(),
                };
            }
            CommandOutcome::AwaitVolume { request_id, op: VolumeOp::ToggleMute, restrictions }
        },
        Command::SetMute { muted } => {
            let restrictions = current_volume_restrictions(engine);
            if !restrictions.allow_mute {
                return CommandOutcome::Done {
                    response: Response::success(
                        request_id,
                        ResponsePayload::VolumeDenied {
                            reason: String::from_str("Mute toggle is not allowed"),
                        },
                    ),
                    actions: Vec::new(),
                };
            }
            CommandOutcome::AwaitVolume { request_id, op: VolumeOp::SetMute { muted }, restrictions }
        },
        Command::ExtendCurrent { by_millis } => {
            if !role.can_extend() {
                return CommandOutcome::Done {
                    response: Response::error(
                        request_id,
                        ErrorInfo::new(
                            ErrorCode::PermissionDenied,
                            String::from_str("Admin role required"),
                        ),
                    ),
                    actions: Vec::new(),
                };
            }
            if !engine.extend_fits(by_millis) {
                return CommandOutcome::Done {
                    response: Response::error(
                        request_id,
                        ErrorInfo::new(
                            ErrorCode::InternalError,
                            String::from_str("Clock out of range"),
                        ),
                    ),
                    actions: Vec::new(),
                };
            }
            match engine.extend_current(by_millis, now_mono, now) {
                Some(new_deadline) => CommandOutcome::Done {
                    response: Response::success(
                        request_id,
                        ResponsePayload::Extended { new_deadline: Some(new_deadline) },
                    ),
                    actions: Vec::new(),
                },
                None => CommandOutcome::Done {
                    response: Response::error(
                        request_id,
                        ErrorInfo::new(
                            ErrorCode::NoActiveSession,
                            String::from_str("No active session or session is unlimited"),
                        ),
                    ),
                    actions: Vec::new(),
                },
            }
        },
        Command::Ping => CommandOutcome::Done {
            response: Response::success(request_id, ResponsePayload::Pong),
            actions: Vec::new(),
        },
    }
}

/// Closes the launch that was awaiting its spawn. On success the handle is
/// attached (the session is Running), the session-started event goes out,
/// and the approval is answered. On failure the session ends at once with
/// the launch failure as its reason, the end and the fresh idle state are
/// broadcast, and the peer gets the host error — so no client can be left
/// watching a session that never came to be.
pub fn handle_spawn_result(
    engine: &mut CoreEngine,
    request_id: u64,
    started: EventPayload,
    spawn_result: Result<HostSessionHandle, String>,
    now: WallTime,
    now_mono: MonotonicInstant,
) -> (r: (Response, Vec<ServiceAction>))
    requires
        old(engine).wf(),
        now.wf(),
        old(engine).audit_room(1),
    ensures
        final(engine).wf(),
        r.0.request_id == request_id,
        spawn_result matches Ok(h) ==> match old(engine).current_session {
            Some(s) => final(engine).current_session == Some(
                crate::session::ActiveSession {
                    host_handle: Some(h),
                    state: crate::api::SessionState::Running,
                    ..s
                },
            ),
            None => final(engine).current_session is None,
        },
        spawn_result matches Ok(h) ==> (r.0.result matches ResponseResult::Success(p) && (
        p matches ResponsePayload::LaunchApproved { session_id, deadline } && session_id
            == h.session_id && deadline == (match old(engine).current_session {
            Some(s) => s.deadline,
            None => None,
        }))),
        (spawn_result is Err && old(engine).current_session is Some && old(
            engine,
        ).spec_end_fits(now)) ==> (final(engine).current_session is None && (
        r.0.result matches ResponseResult::Failure(e) && e.code == ErrorCode::HostError)),
{
    match spawn_result {
        Ok(handle) => {
            let session_id = handle.session_id;
            let deadline = match engine.current_session() {
                Some(s) => s.deadline,
                None => None,
            };
            engine.attach_host_handle(handle);
            let mut actions: Vec<ServiceAction> = Vec::new();
            actions.push(ServiceAction::Broadcast(started));
            (
                Response::success(
                    request_id,
                    ResponsePayload::LaunchApproved { session_id, deadline },
                ),
                actions,
            )
        },
        Err(message) => {
            let mut actions: Vec<ServiceAction> = Vec::new();
            if !engine.end_fits(now) {
                return (
                    Response::error(
                        request_id,
                        ErrorInfo::new(
                            ErrorCode::InternalError,
                            String::from_str("Clock out of range"),
                        ),
                    ),
                    actions,
                );
            }
            let reason = SessionEndReason::LaunchFailed { error: message.clone() };
            match engine.stop_current(reason, now_mono, now) {
                StopDecision::Stopped(result) => {
                    let StopResult { session_id, entry_id, reason, duration_millis } = result;
                    actions.push(ServiceAction::Broadcast(EventPayload::SessionEnded {
                        session_id,
                        entry_id,
                        reason,
                        duration_millis,
                    }));
                    let snapshot = engine.get_state(now, now_mono);
                    actions.push(ServiceAction::Broadcast(EventPayload::StateChanged(snapshot)));
                },
                StopDecision::NoActiveSession => {},
            }
            let mut detail = String::from_str("Spawn failed: ");
            detail.append(message.as_str());
            (Response::error(request_id, ErrorInfo::new(ErrorCode::HostError, detail)), actions)
        },
    }
}

/// Closes a reload that was awaiting the configuration: a fresh policy is
/// installed and announced; a failed load is answered as a configuration
/// error and changes nothing.
pub fn handle_reload_result(
    engine: &mut CoreEngine,
    request_id: u64,
    policy_result: Result<crate::policy::Policy, String>,
    now: WallTime,
) -> (r: (Response, Vec<ServiceAction>))
    requires
        old(engine).wf(),
        old(engine).audit_room(1),
    ensures
        final(engine).wf(),
        r.0.request_id == request_id,
        policy_result matches Ok(p) ==> final(engine).policy == p,
        policy_result is Err ==> *final(engine) == *old(engine),
{
    match policy_result {
        Ok(policy) => {
            let event = engine.reload_policy(policy, now);
            let mut actions: Vec<ServiceAction> = Vec::new();
            match event {
                CoreEvent::PolicyReloaded { entry_count } => {
                    actions.push(ServiceAction::Broadcast(EventPayload::PolicyReloaded {
                        entry_count,
                    }));
                },
                _ => {
                    proof {
                        assert(false);
                    }
                },
            }
            (Response::success(request_id, ResponsePayload::ConfigReloaded), actions)
        },
        Err(message) => {
            let mut detail = String::from_str("Reload failed: ");
            detail.append(message.as_str());
            (Response::error(request_id, ErrorInfo::new(ErrorCode::ConfigError, detail)), Vec::new())
        },
    }
}

/// Closes a volume command with the adapter's answer: a status becomes the
/// volume report (with the restrictions that were in force), a completed
/// change is acknowledged, and an adapter error is relayed as a denial.
pub fn handle_volume_result(
    request_id: u64,
    op: VolumeOp,
    restrictions: VolumeRestrictions,
    status: Result<crate::volume::VolumeStatus, String>,
    backend: Option<String>,
) -> (r: Response)
    ensures
        r.request_id == request_id,
        status matches Ok(st) ==> ((op == VolumeOp::GetStatus ==> (r.result matches
            ResponseResult::Success(p) && (p matches ResponsePayload::Volume(info) && info.percent
            == st.percent && info.muted == st.muted && info.available))) && (op
            != VolumeOp::GetStatus ==> r.result == ResponseResult::Success(
            ResponsePayload::VolumeSet,
        ))),
{
    match status {
        Ok(st) => {
            if op == VolumeOp::GetStatus {
                Response::success(
                    request_id,
                    ResponsePayload::Volume(VolumeInfo {
                        percent: st.percent,
                        muted: st.muted,
                        available: true,
                        backend,
                        restrictions,
                    }),
                )
            } else {
                Response::success(request_id, ResponsePayload::VolumeSet)
            }
        },
        Err(message) => {
            if op == VolumeOp::GetStatus {
                Response::success(
                    request_id,
                    ResponsePayload::Volume(VolumeInfo {
                        percent: 0,
                        muted: false,
                        available: false,
                        backend: None,
                        restrictions,
                    }),
                )
            } else {
                Response::success(request_id, ResponsePayload::VolumeDenied { reason: message })
            }
        },
    }
}

/// Turns one engine event into the orchestrator's actions: warnings and
/// lifecycle changes are broadcast, and a due expiry also asks the
/// supervisor to stop the session's handle gracefully (five seconds before
/// escalation).
pub fn dispatch_core_event(event: CoreEvent, handle: Option<HostSessionHandle>) -> (actions: Vec<
    ServiceAction,
>)
    ensures
        match event {
            CoreEvent::Warning { .. } => actions@.len() == 1,
            CoreEvent::ExpireDue { .. } => actions@.len() == (if handle is Some {
                2int
            } else {
                1int
            }) && (handle matches Some(h) ==> actions@[0] matches ServiceAction::StopHost {
                handle: h2,
                mode,
            } && h2 == h && mode == (HostStopMode::Graceful { timeout_millis: 5000 })),
            CoreEvent::SessionStarted { .. } => actions@.len() == 1,
            CoreEvent::SessionEnded { .. } => actions@.len() == 1,
            CoreEvent::PolicyReloaded { .. } => actions@.len() == 1,
            CoreEvent::EntryAvailabilityChanged { .. } => actions@.len() == 1,
        },
{
    let mut actions: Vec<ServiceAction> = Vec::new();
    match event {
        CoreEvent::Warning { session_id, threshold_seconds, time_remaining_millis, severity, message } => {
            actions.push(ServiceAction::Broadcast(EventPayload::WarningIssued {
                session_id,
                threshold_seconds,
                time_remaining_millis,
                severity,
                message,
            }));
        },
        CoreEvent::ExpireDue { session_id } => {
            match handle {
                Some(h) => {
                    actions.push(ServiceAction::StopHost {
                        handle: h,
                        mode: HostStopMode::Graceful { timeout_millis: 5000 },
                    });
                },
                None => {},
            }
            actions.push(ServiceAction::Broadcast(EventPayload::SessionExpiring { session_id }));
        },
        CoreEvent::SessionStarted { session_id, entry_id, label, deadline } => {
            actions.push(ServiceAction::Broadcast(EventPayload::SessionStarted {
                session_id,
                entry_id,
                label,
                deadline,
            }));
        },
        CoreEvent::SessionEnded { session_id, entry_id, reason, duration_millis } => {
            actions.push(ServiceAction::Broadcast(EventPayload::SessionEnded {
                session_id,
                entry_id,
                reason,
                duration_millis,
            }));
        },
        CoreEvent::PolicyReloaded { entry_count } => {
            actions.push(ServiceAction::Broadcast(EventPayload::PolicyReloaded { entry_count }));
        },
        CoreEvent::EntryAvailabilityChanged { entry_id, enabled } => {
            actions.push(ServiceAction::Broadcast(EventPayload::EntryAvailabilityChanged {
                entry_id,
                enabled,
            }));
        },
    }
    actions
}

} // verus!
