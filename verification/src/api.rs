//! Shared domain and protocol types: entry kinds, availability reasons,
//! session lifecycle, roles, and the request/response/event envelopes.

use vstd::prelude::*;

use crate::ids::{ClientId, EntryId, SessionId};
use crate::time::WallTime;

verus! {

/// Version tag carried by every request, response, and event envelope.
pub const API_VERSION: u32 = 1;

/// Capability tag of an entry kind; the engine gates launches on these.
#[derive(Debug, Clone, Copy, PartialEq, Eq, Structural, Hash)]
pub enum EntryKindTag {
    Process,
    Snap,
    Vm,
    Media,
    Custom,
}

/// An entry's kind with its spawn payload. The engine reads only the tag;
/// the host supervisor interprets the payload.
#[derive(Debug, Clone, PartialEq, Eq)]
pub enum EntryKind {
    Process { command: String, args: Vec<String>, env: Vec<(String, String)>, cwd: Option<String> },
    Snap { snap_name: String, command: Option<String>, args: Vec<String>, env: Vec<(String, String)> },
    Vm { driver: String, args: Vec<(String, String)> },
    Media { library_id: String, args: Vec<(String, String)> },
    Custom { kind_name: String, payload: String },
}

impl EntryKind {
    pub open spec fn spec_tag(self) -> EntryKindTag {
        match self {
            EntryKind::Process { .. } => EntryKindTag::Process,
            EntryKind::Snap { .. } => EntryKindTag::Snap,
            EntryKind::Vm { .. } => EntryKindTag::Vm,
            EntryKind::Media { .. } => EntryKindTag::Media,
            EntryKind::Custom { .. } => EntryKindTag::Custom,
        }
    }

    pub fn tag(&self) -> (r: EntryKindTag)
        ensures
            r == self.spec_tag(),
    {
        match self {
            EntryKind::Process { .. } => EntryKindTag::Process,
            EntryKind::Snap { .. } => EntryKindTag::Snap,
            EntryKind::Vm { .. } => EntryKindTag::Vm,
            EntryKind::Media { .. } => EntryKindTag::Media,
            EntryKind::Custom { .. } => EntryKindTag::Custom,
        }
    }
}

/// Severity attached to a warning threshold.
#[derive(Debug, Clone, Copy, PartialEq, Eq, Structural)]
pub enum WarningSeverity {
    Info,
    Warn,
    Critical,
}

/// One configured warning: fire `seconds_before` seconds before expiry.
#[derive(Debug, PartialEq, Eq)]
pub struct WarningThreshold {
    pub seconds_before: u64,
    pub severity: WarningSeverity,
    pub message_template: Option<String>,
}

impl Clone for WarningThreshold {
    fn clone(&self) -> (r: WarningThreshold)
        ensures
            r == *self,
    {
        WarningThreshold {
            seconds_before: self.seconds_before,
            severity: self.severity,
            message_template: match &self.message_template {
                Some(m) => Some(m.clone()),
                None => None,
            },
        }
    }
}

/// Why a session ended.
#[derive(Debug, PartialEq, Eq)]
pub enum SessionEndReason {
    Expired,
    UserStop,
    AdminStop,
    ProcessExited { exit_code: Option<i32> },
    PolicyStop,
    ServiceShutdown,
    LaunchFailed { error: String },
}

impl Clone for SessionEndReason {
    fn clone(&self) -> (r: SessionEndReason)
        ensures
            r == *self,
    {
        match self {
            SessionEndReason::Expired => SessionEndReason::Expired,
            SessionEndReason::UserStop => SessionEndReason::UserStop,
            SessionEndReason::AdminStop => SessionEndReason::AdminStop,
            SessionEndReason::ProcessExited { exit_code } => SessionEndReason::ProcessExited {
                exit_code: *exit_code,
            },
            SessionEndReason::PolicyStop => SessionEndReason::PolicyStop,
            SessionEndReason::ServiceShutdown => SessionEndReason::ServiceShutdown,
            SessionEndReason::LaunchFailed { error } => SessionEndReason::LaunchFailed {
                error: error.clone(),
            },
        }
    }
}

/// State of the one active session.
#[derive(Debug, Clone, Copy, PartialEq, Eq, Structural)]
pub enum SessionState {
    Launching,
    Running,
    Warned,
    Expiring,
    Ended,
}

/// Why an entry is unavailable right now.
#[derive(Debug, PartialEq, Eq)]
pub enum ReasonCode {
    OutsideTimeWindow { next_window_start: Option<WallTime> },
    QuotaExhausted { used_millis: u64, quota_millis: u64 },
    CooldownActive { available_at: WallTime },
    SessionActive { entry_id: EntryId, remaining_millis: Option<u64> },
    UnsupportedKind { kind: EntryKindTag },
    Disabled { reason: Option<String> },
}

impl Clone for ReasonCode {
    fn clone(&self) -> (r: ReasonCode)
        ensures
            r == *self,
    {
        match self {
            ReasonCode::OutsideTimeWindow { next_window_start } => ReasonCode::OutsideTimeWindow {
                next_window_start: *next_window_start,
            },
            ReasonCode::QuotaExhausted { used_millis, quota_millis } => ReasonCode::QuotaExhausted {
                used_millis: *used_millis,
                quota_millis: *quota_millis,
            },
            ReasonCode::CooldownActive { available_at } => ReasonCode::CooldownActive {
                available_at: *available_at,
            },
            ReasonCode::SessionActive { entry_id, remaining_millis } => ReasonCode::SessionActive {
                entry_id: entry_id.clone(),
                remaining_millis: *remaining_millis,
            },
            ReasonCode::UnsupportedKind { kind } => ReasonCode::UnsupportedKind { kind: *kind },
            ReasonCode::Disabled { reason } => ReasonCode::Disabled {
                reason: match reason {
                    Some(m) => Some(m.clone()),
                    None => None,
                },
            },
        }
    }
}

/// A copy of a reason list, element for element.
pub fn clone_reasons(v: &Vec<ReasonCode>) -> (r: Vec<ReasonCode>)
    ensures
        r@ == v@,
{
    let mut out: Vec<ReasonCode> = Vec::new();
    let n = v.len();
    let mut i: usize = 0;
    while i < n
        invariant
            i <= n,
            n == v@.len(),
            out@ =~= v@.subrange(0, i as int),
        decreases n - i,
    {
        out.push(v[i].clone());
        i += 1;
        proof {
            assert(out@ =~= v@.subrange(0, i as int));
        }
    }
    proof {
        assert(out@ =~= v@);
    }
    out
}

/// A copy of a warning list, element for element.
pub fn clone_warnings(v: &Vec<WarningThreshold>) -> (r: Vec<WarningThreshold>)
    ensures
        r@ == v@,
{
    let mut out: Vec<WarningThreshold> = Vec::new();
    let n = v.len();
    let mut i: usize = 0;
    while i < n
        invariant
            i <= n,
            n == v@.len(),
            out@ =~= v@.subrange(0, i as int),
        decreases n - i,
    {
        out.push(v[i].clone());
        i += 1;
        proof {
            assert(out@ =~= v@.subrange(0, i as int));
        }
    }
    proof {
        assert(out@ =~= v@);
    }
    out
}

/// One entry as shown to UI clients, with its availability verdict.
#[derive(Debug)]
pub struct EntryView {
    pub entry_id: EntryId,
    pub label: String,
    pub icon_ref: Option<String>,
    pub kind_tag: EntryKindTag,
    pub enabled: bool,
    pub reasons: Vec<ReasonCode>,
    /// Cap on a session started now, in milliseconds; None when unlimited
    /// (or when the entry is not enabled).
    pub max_run_if_started_now: Option<u64>,
}

/// The active session as shown to UI clients.
#[derive(Debug)]
pub struct SessionInfo {
    pub session_id: SessionId,
    pub entry_id: EntryId,
    pub label: String,
    pub state: SessionState,
    pub started_at: WallTime,
    pub deadline: Option<WallTime>,
    pub time_remaining_millis: Option<u64>,
    pub warnings_issued: Vec<u64>,
}

/// Full service state snapshot.
#[derive(Debug)]
pub struct ServiceStateSnapshot {
    pub api_version: u32,
    pub policy_loaded: bool,
    pub current_session: Option<SessionInfo>,
    pub entry_count: usize,
    pub entries: Vec<EntryView>,
}

/// Authorization role of a connected peer.
#[derive(Debug, Clone, Copy, PartialEq, Eq, Structural)]
pub enum ClientRole {
    Shell,
    Admin,
    Observer,
}

impl ClientRole {
    /// Whether the role may stop the session; what `can_stop` answers.
    pub open spec fn can_stop_spec(self) -> bool {
        self == ClientRole::Shell || self == ClientRole::Admin
    }

    pub fn can_launch(&self) -> (r: bool)
        ensures
            r == (*self == ClientRole::Shell || *self == ClientRole::Admin),
    {
        match self {
            ClientRole::Shell | ClientRole::Admin => true,
            ClientRole::Observer => false,
        }
    }

    pub fn can_stop(&self) -> (r: bool)
        ensures
            r == (*self == ClientRole::Shell || *self == ClientRole::Admin),
    {
        match self {
            ClientRole::Shell | ClientRole::Admin => true,
            ClientRole::Observer => false,
        }
    }

    pub fn can_extend(&self) -> (r: bool)
        ensures
            r == (*self == ClientRole::Admin),
    {
        match self {
            ClientRole::Admin => true,
            _ => false,
        }
    }

    pub fn can_reload_config(&self) -> (r: bool)
        ensures
            r == (*self == ClientRole::Admin),
    {
        match self {
            ClientRole::Admin => true,
            _ => false,
        }
    }
}

/// Requested way to end a session.
#[derive(Debug, Clone, Copy, PartialEq, Eq, Structural)]
pub enum StopMode {
    Graceful,
    Force,
}

/// Service health as reported to clients.
#[derive(Debug, Clone, Copy, PartialEq, Eq, Structural)]
pub struct HealthStatus {
    pub live: bool,
    pub ready: bool,
    pub policy_loaded: bool,
    pub host_adapter_ok: bool,
    pub store_ok: bool,
}

/// Volume restrictions in effect, enforced by the service.
#[derive(Debug, Clone, Copy, PartialEq, Eq, Structural)]
pub struct VolumeRestrictions {
    pub max_volume: Option<u8>,
    pub min_volume: Option<u8>,
    pub allow_mute: bool,
    pub allow_change: bool,
}

impl VolumeRestrictions {
    /// What `clamp_volume` returns: the value forced into the allowed band,
    /// with 0 and 100 standing in for absent bounds.
    pub open spec fn spec_clamp(self, percent: u8) -> int {
        let min: int = match self.min_volume {
            Some(m) => m as int,
            None => 0,
        };
        let max: int = match self.max_volume {
            Some(m) => m as int,
            None => 100,
        };
        if percent < min {
            min
        } else if percent > max {
            max
        } else {
            percent as int
        }
    }

    pub fn unrestricted() -> (r: VolumeRestrictions)
        ensures
            r.max_volume is None,
            r.min_volume is None,
            r.allow_mute,
            r.allow_change,
    {
        VolumeRestrictions { max_volume: None, min_volume: None, allow_mute: true, allow_change: true }
    }

    pub fn clamp_volume(&self, percent: u8) -> (r: u8)
        ensures
            r == self.spec_clamp(percent),
    {
        let min = match self.min_volume {
            Some(m) => m,
            None => 0,
        };
        let max = match self.max_volume {
            Some(m) => m,
            None => 100,
        };
        if percent < min {
            min
        } else if percent > max {
            max
        } else {
            percent
        }
    }
}

impl Default for VolumeRestrictions {
    fn default() -> (r: VolumeRestrictions)
        ensures
            r.max_volume is None,
            r.min_volume is None,
            !r.allow_mute,
            !r.allow_change,
    {
        VolumeRestrictions { max_volume: None, min_volume: None, allow_mute: false, allow_change: false }
    }
}

/// Volume status with context, as answered to `GetVolume`.
#[derive(Debug)]
pub struct VolumeInfo {
    pub percent: u8,
    pub muted: bool,
    pub available: bool,
    pub backend: Option<String>,
    pub restrictions: VolumeRestrictions,
}

impl VolumeInfo {
    /// The icon that `icon_name` picks for this status.
    pub open spec fn spec_icon_name(self) -> Seq<char> {
        if self.muted {
            "audio-volume-muted-symbolic"@
        } else if self.percent == 0 {
            "audio-volume-muted-symbolic"@
        } else if self.percent < 33 {
            "audio-volume-low-symbolic"@
        } else if self.percent < 66 {
            "audio-volume-medium-symbolic"@
        } else {
            "audio-volume-high-symbolic"@
        }
    }

    pub fn icon_name(&self) -> (r: &'static str)
        ensures
            r@ == self.spec_icon_name(),
    {
        if self.muted {
            "audio-volume-muted-symbolic"
        } else if self.percent == 0 {
            "audio-volume-muted-symbolic"
        } else if self.percent < 33 {
            "audio-volume-low-symbolic"
        } else if self.percent < 66 {
            "audio-volume-medium-symbolic"
        } else {
            "audio-volume-high-symbolic"
        }
    }
}

/// Error codes of the command protocol.
#[derive(Debug, Clone, Copy, PartialEq, Eq, Structural)]
pub enum ErrorCode {
    InvalidRequest,
    EntryNotFound,
    LaunchDenied,
    NoActiveSession,
    SessionActive,
    PermissionDenied,
    RateLimited,
    ConfigError,
    HostError,
    InternalError,
}

/// A structured protocol error.
#[derive(Debug)]
pub struct ErrorInfo {
    pub code: ErrorCode,
    pub message: String,
}

impl ErrorInfo {
    pub fn new(code: ErrorCode, message: String) -> (r: ErrorInfo)
        ensures
            r.code == code,
            r.message@ == message@,
    {
        ErrorInfo { code, message }
    }
}

/// A command a peer can issue.
#[derive(Debug)]
pub enum Command {
    GetState,
    ListEntries { at_time: Option<WallTime> },
    Launch { entry_id: EntryId },
    StopCurrent { mode: StopMode },
    ReloadConfig,
    SubscribeEvents,
    UnsubscribeEvents,
    GetHealth,
    GetVolume,
    SetVolume { percent: u8 },
    VolumeUp { step: u8 },
    VolumeDown { step: u8 },
    ToggleMute,
    SetMute { muted: bool },
    ExtendCurrent { by_millis: u64 },
    Ping,
}

/// Inbound request envelope.
#[derive(Debug)]
pub struct Request {
    pub request_id: u64,
    pub api_version: u32,
    pub command: Command,
}

impl Request {
    pub fn new(request_id: u64, command: Command) -> (r: Request)
        ensures
            r.request_id == request_id,
            r.api_version == API_VERSION,
            r.command == command,
    {
        Request { request_id, api_version: API_VERSION, command }
    }
}

/// Payload of a successful response.
#[derive(Debug)]
pub enum ResponsePayload {
    State(ServiceStateSnapshot),
    Entries(Vec<EntryView>),
    LaunchApproved { session_id: SessionId, deadline: Option<WallTime> },
    LaunchDenied { reasons: Vec<ReasonCode> },
    Stopped,
    ConfigReloaded,
    Subscribed { client_id: ClientId },
    Unsubscribed,
    Health(HealthStatus),
    Extended { new_deadline: Option<WallTime> },
    Volume(VolumeInfo),
    VolumeSet,
    VolumeDenied { reason: String },
    Pong,
}

/// A response's outcome: a payload or a structured error.
#[derive(Debug)]
pub enum ResponseResult {
    Success(ResponsePayload),
    Failure(ErrorInfo),
}

/// Outbound response envelope.
#[derive(Debug)]
pub struct Response {
    pub request_id: u64,
    pub api_version: u32,
    pub result: ResponseResult,
}

impl Response {
    pub fn success(request_id: u64, payload: ResponsePayload) -> (r: Response)
        ensures
            r.request_id == request_id,
            r.api_version == API_VERSION,
            r.result == ResponseResult::Success(payload),
    {
        Response { request_id, api_version: API_VERSION, result: ResponseResult::Success(payload) }
    }

    pub fn error(request_id: u64, error: ErrorInfo) -> (r: Response)
        ensures
            r.request_id == request_id,
            r.api_version == API_VERSION,
            r.result == ResponseResult::Failure(error),
    {
        Response { request_id, api_version: API_VERSION, result: ResponseResult::Failure(error) }
    }
}

/// An event broadcast to subscribed peers.
#[derive(Debug)]
pub enum EventPayload {
    StateChanged(ServiceStateSnapshot),
    SessionStarted { session_id: SessionId, entry_id: EntryId, label: String, deadline: Option<WallTime> },
    WarningIssued {
        session_id: SessionId,
        threshold_seconds: u64,
        time_remaining_millis: u64,
        severity: WarningSeverity,
        message: Option<String>,
    },
    SessionExpiring { session_id: SessionId },
    SessionEnded { session_id: SessionId, entry_id: EntryId, reason: SessionEndReason, duration_millis: u64 },
    PolicyReloaded { entry_count: usize },
    EntryAvailabilityChanged { entry_id: EntryId, enabled: bool },
    VolumeChanged { percent: u8, muted: bool },
    Shutdown,
}

/// Event envelope with the wall-clock timestamp of emission.
#[derive(Debug)]
pub struct Event {
    pub api_version: u32,
    pub timestamp: WallTime,
    pub payload: EventPayload,
}

impl Event {
    pub fn new(timestamp: WallTime, payload: EventPayload) -> (r: Event)
        ensures
            r.api_version == API_VERSION,
            r.timestamp == timestamp,
            r.payload == payload,
    {
        Event { api_version: API_VERSION, timestamp, payload }
    }
}

/// What the IPC layer knows of a connected peer.
#[derive(Debug)]
pub struct ClientInfo {
    pub client_id: ClientId,
    pub role: ClientRole,
    pub uid: Option<u32>,
    pub process_name: Option<String>,
}

impl ClientInfo {
    pub fn new(client_id: ClientId, role: ClientRole) -> (r: ClientInfo)
        ensures
            r.client_id == client_id,
            r.role == role,
            r.uid is None,
            r.process_name is None,
    {
        ClientInfo { client_id, role, uid: None, process_name: None }
    }

    pub fn with_uid(self, uid: u32) -> (r: ClientInfo)
        ensures
            r.client_id == self.client_id,
            r.role == self.role,
            r.uid == Some(uid),
            r.process_name == self.process_name,
    {
        ClientInfo { uid: Some(uid), ..self }
    }
}

} // verus!
