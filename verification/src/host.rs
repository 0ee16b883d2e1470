//! Host supervisor interface: capabilities, session handles, exit status,
//! stop modes, and the construction of spawn commands from entry kinds.
//! The process around the service performs the actual spawning and
//! signalling; the decisions of what to run and how to address it are made
//! here.

use vstd::prelude::*;

use crate::api::{EntryKind, EntryKindTag};
use crate::ids::SessionId;

verus! {

use vstd::string::StringExecFns;

/// What a host adapter can do; the engine gates launches on this set.
#[derive(Debug)]
pub struct HostCapabilities {
    pub spawn_kinds_supported: Vec<EntryKindTag>,
    pub can_kill_forcefully: bool,
    pub can_graceful_stop: bool,
    pub can_group_process_tree: bool,
    pub can_observe_exit: bool,
    pub can_observe_window_ready: bool,
    pub can_force_foreground: bool,
    pub can_force_fullscreen: bool,
    pub can_lock_to_single_app: bool,
}

impl HostCapabilities {
    pub open spec fn spec_supports(self, kind: EntryKindTag) -> bool {
        exists|i: int|
            0 <= i < self.spawn_kinds_supported@.len() && self.spawn_kinds_supported@[i] == kind
    }

    /// Minimal capabilities: plain process spawn and kill only.
    pub fn minimal() -> (r: HostCapabilities)
        ensures
            r.spec_supports(EntryKindTag::Process),
            !r.spec_supports(EntryKindTag::Vm),
            !r.spec_supports(EntryKindTag::Snap),
            !r.spec_supports(EntryKindTag::Media),
            !r.spec_supports(EntryKindTag::Custom),
            r.can_kill_forcefully,
            r.can_graceful_stop,
            !r.can_group_process_tree,
            r.can_observe_exit,
    {
        let mut kinds: Vec<EntryKindTag> = Vec::new();
        kinds.push(EntryKindTag::Process);
        let r = HostCapabilities {
            spawn_kinds_supported: kinds,
            can_kill_forcefully: true,
            can_graceful_stop: true,
            can_group_process_tree: false,
            can_observe_exit: true,
            can_observe_window_ready: false,
            can_force_foreground: false,
            can_force_fullscreen: false,
            can_lock_to_single_app: false,
        };
        proof {
            assert(r.spawn_kinds_supported@.len() == 1);
            assert(r.spawn_kinds_supported@[0] == EntryKindTag::Process);
        }
        r
    }

    /// Capabilities of a full Linux host.
    pub fn linux_full() -> (r: HostCapabilities)
        ensures
            r.spec_supports(EntryKindTag::Process),
            r.spec_supports(EntryKindTag::Vm),
            r.spec_supports(EntryKindTag::Media),
            !r.spec_supports(EntryKindTag::Snap),
            !r.spec_supports(EntryKindTag::Custom),
            r.can_kill_forcefully,
            r.can_graceful_stop,
            r.can_group_process_tree,
            r.can_observe_exit,
    {
        let mut kinds: Vec<EntryKindTag> = Vec::new();
        kinds.push(EntryKindTag::Process);
        kinds.push(EntryKindTag::Vm);
        kinds.push(EntryKindTag::Media);
        let r = HostCapabilities {
            spawn_kinds_supported: kinds,
            can_kill_forcefully: true,
            can_graceful_stop: true,
            can_group_process_tree: true,
            can_observe_exit: true,
            can_observe_window_ready: true,
            can_force_foreground: true,
            can_force_fullscreen: true,
            can_lock_to_single_app: false,
        };
        proof {
            assert(r.spawn_kinds_supported@.len() == 3);
            assert(r.spawn_kinds_supported@[0] == EntryKindTag::Process);
            assert(r.spawn_kinds_supported@[1] == EntryKindTag::Vm);
            assert(r.spawn_kinds_supported@[2] == EntryKindTag::Media);
        }
        r
    }

    pub fn supports_kind(&self, kind: EntryKindTag) -> (r: bool)
        ensures
            r == self.spec_supports(kind),
    {
        let n = self.spawn_kinds_supported.len();
        let mut i: usize = 0;
        while i < n
            invariant
                i <= n,
                n == self.spawn_kinds_supported@.len(),
                forall|k: int| 0 <= k < i ==> self.spawn_kinds_supported@[k] != kind,
            decreases n - i,
        {
            if self.spawn_kinds_supported[i] == kind {
                return true;
            }
            i += 1;
        }
        false
    }
}

/// Platform-specific identification of a running child.
#[derive(Debug, Clone, PartialEq, Eq)]
pub enum HostHandlePayload {
    Linux { pid: u32, pgid: u32 },
    Windows { job_name: String, process_id: u32 },
    MacOs { pid: u32, bundle_id: Option<String> },
    Mock { id: u64 },
}

impl HostHandlePayload {
    pub open spec fn spec_pid(self) -> Option<u32> {
        match self {
            HostHandlePayload::Linux { pid, .. } => Some(pid),
            HostHandlePayload::Windows { process_id, .. } => Some(process_id),
            HostHandlePayload::MacOs { pid, .. } => Some(pid),
            HostHandlePayload::Mock { .. } => None,
        }
    }

    /// The process id, where the platform has one.
    pub fn pid(&self) -> (r: Option<u32>)
        ensures
            r == self.spec_pid(),
    {
        match self {
            HostHandlePayload::Linux { pid, .. } => Some(*pid),
            HostHandlePayload::Windows { process_id, .. } => Some(*process_id),
            HostHandlePayload::MacOs { pid, .. } => Some(*pid),
            HostHandlePayload::Mock { .. } => None,
        }
    }
}

/// Opaque handle to a running session on the host.
#[derive(Debug)]
pub struct HostSessionHandle {
    pub session_id: SessionId,
    pub payload: HostHandlePayload,
}

impl HostSessionHandle {
    pub open spec fn spec_payload(self) -> HostHandlePayload {
        self.payload
    }

    pub fn new(session_id: SessionId, payload: HostHandlePayload) -> (r: HostSessionHandle)
        ensures
            r.session_id == session_id,
            r.spec_payload() == payload,
    {
        HostSessionHandle { session_id, payload }
    }

    pub fn payload(&self) -> (r: &HostHandlePayload)
        ensures
            *r == self.spec_payload(),
    {
        &self.payload
    }
}

impl Clone for HostSessionHandle {
    fn clone(&self) -> (r: HostSessionHandle)
        ensures
            r == *self,
    {
        HostSessionHandle {
            session_id: self.session_id,
            payload: match &self.payload {
                HostHandlePayload::Linux { pid, pgid } => HostHandlePayload::Linux {
                    pid: *pid,
                    pgid: *pgid,
                },
                HostHandlePayload::Windows { job_name, process_id } => HostHandlePayload::Windows {
                    job_name: job_name.clone(),
                    process_id: *process_id,
                },
                HostHandlePayload::MacOs { pid, bundle_id } => HostHandlePayload::MacOs {
                    pid: *pid,
                    bundle_id: match bundle_id {
                        Some(b) => Some(b.clone()),
                        None => None,
                    },
                },
                HostHandlePayload::Mock { id } => HostHandlePayload::Mock { id: *id },
            },
        }
    }
}

/// How a child ended.
#[derive(Debug, Clone, Copy, PartialEq, Eq, Structural)]
pub struct ExitStatus {
    pub code: Option<i32>,
    pub signaled: bool,
    pub signal: Option<i32>,
}

impl ExitStatus {
    pub fn success() -> (r: ExitStatus)
        ensures
            r.code == Some(0i32),
            !r.signaled,
            r.signal is None,
    {
        ExitStatus { code: Some(0), signaled: false, signal: None }
    }

    pub fn with_code(code: i32) -> (r: ExitStatus)
        ensures
            r.code == Some(code),
            !r.signaled,
            r.signal is None,
    {
        ExitStatus { code: Some(code), signaled: false, signal: None }
    }

    pub fn signaled(signal: i32) -> (r: ExitStatus)
        ensures
            r.code is None,
            r.signaled,
            r.signal == Some(signal),
    {
        ExitStatus { code: None, signaled: true, signal: Some(signal) }
    }

    pub fn is_success(&self) -> (r: bool)
        ensures
            r == (self.code == Some(0i32)),
    {
        match self.code {
            Some(c) => c == 0,
            None => false,
        }
    }
}

/// Errors of host adapter operations.
#[derive(Debug)]
pub enum HostError {
    SpawnFailed(String),
    StopFailed(String),
    UnsupportedKind,
    SessionNotFound,
    PermissionDenied(String),
    Io(String),
    Internal(String),
}

/// How to stop a session: graceful with an escalation timeout, or at once.
#[derive(Debug, Clone, Copy, PartialEq, Eq, Structural)]
pub enum StopMode {
    Graceful { timeout_millis: u64 },
    Force,
}

impl Default for StopMode {
    fn default() -> (r: StopMode)
        ensures
            r == (StopMode::Graceful { timeout_millis: 5000 }),
    {
        StopMode::Graceful { timeout_millis: 5000 }
    }
}

/// Options for spawning a session.
#[derive(Debug)]
pub struct SpawnOptions {
    pub capture_stdout: bool,
    pub capture_stderr: bool,
    pub log_path: Option<String>,
    pub fullscreen: bool,
    pub foreground: bool,
}

impl Default for SpawnOptions {
    fn default() -> (r: SpawnOptions)
        ensures
            !r.capture_stdout,
            !r.capture_stderr,
            r.log_path is None,
            !r.fullscreen,
            !r.foreground,
    {
        SpawnOptions {
            capture_stdout: false,
            capture_stderr: false,
            log_path: None,
            fullscreen: false,
            foreground: false,
        }
    }
}

/// Events reported by the host adapter.
#[derive(Debug)]
pub enum HostEvent {
    Exited { handle: HostSessionHandle, status: ExitStatus },
    WindowReady { handle: HostSessionHandle },
    SpawnFailed { session_id: SessionId, error: String },
}

/// Everything the host needs to start a child: the argument vector, extra
/// environment, working directory, and — for snap entries — the snap name to
/// address the sandbox scope at termination time.
#[derive(Debug)]
pub struct SpawnSpec {
    pub argv: Vec<String>,
    pub env: Vec<(String, String)>,
    pub cwd: Option<String>,
    pub snap_name: Option<String>,
}

/// Builds the spawn command for an entry kind.
/// - Process: `[command, args...]` with its env and cwd.
/// - Snap: `snap run <name> [command] [args...]`, the command added only when
///   it differs from the snap name; the snap name is recorded for stopping.
/// - Vm: `[driver, --key, value, ...]`.
/// - Media: `[xdg-open, library_id]`.
/// - Custom kinds are not spawnable here.
pub fn build_spawn_spec(kind: &EntryKind) -> (r: Result<SpawnSpec, HostError>)
    ensures
        match r {
            Ok(s) => match kind {
                EntryKind::Process { command, args, env, cwd } => {
                    &&& s.argv@.len() == 1 + args@.len()
                    &&& s.argv@[0] == *command
                    &&& (forall|i: int| 0 <= i < args@.len() ==> s.argv@[i + 1] == args@[i])
                    &&& s.env@ == env@
                    &&& s.cwd == *cwd
                    &&& s.snap_name is None
                },
                EntryKind::Snap { snap_name, command, args, .. } => {
                    &&& s.argv@.len() >= 3
                    &&& s.argv@[0]@ == "snap"@
                    &&& s.argv@[1]@ == "run"@
                    &&& s.argv@[2] == *snap_name
                    &&& s.snap_name matches Some(n) && n == *snap_name
                    &&& (match command {
                        Some(c) => (if c@ != snap_name@ {
                            s.argv@.len() == 4 + args@.len() && s.argv@[3] == *c && (forall|i: int|
                                0 <= i < args@.len() ==> s.argv@[i + 4] == args@[i])
                        } else {
                            s.argv@.len() == 3 + args@.len() && (forall|i: int|
                                0 <= i < args@.len() ==> s.argv@[i + 3] == args@[i])
                        }),
                        None => s.argv@.len() == 3 + args@.len() && (forall|i: int|
                            0 <= i < args@.len() ==> s.argv@[i + 3] == args@[i]),
                    })
                },
                EntryKind::Vm { driver, args } => {
                    &&& s.argv@.len() == 1 + 2 * args@.len()
                    &&& s.argv@[0] == *driver
                    &&& s.snap_name is None
                },
                EntryKind::Media { library_id, .. } => {
                    &&& s.argv@.len() == 2
                    &&& s.argv@[0]@ == "xdg-open"@
                    &&& s.argv@[1] == *library_id
                    &&& s.snap_name is None
                },
                EntryKind::Custom { .. } => false,
            },
            Err(e) => kind is Custom && e is UnsupportedKind,
        },
{
    match kind {
        EntryKind::Process { command, args, env, cwd } => {
            let mut argv: Vec<String> = Vec::new();
            argv.push(command.clone());
            let n = args.len();
            let mut i: usize = 0;
            while i < n
                invariant
                    i <= n,
                    n == args@.len(),
                    argv@.len() == i + 1,
                    argv@[0] == *command,
                    forall|k: int| 0 <= k < i ==> argv@[k + 1] == args@[k],
                decreases n - i,
            {
                argv.push(args[i].clone());
                i += 1;
            }
            let mut env_out: Vec<(String, String)> = Vec::new();
            let m = env.len();
            let mut j: usize = 0;
            while j < m
                invariant
                    j <= m,
                    m == env@.len(),
                    env_out@ =~= env@.subrange(0, j as int),
                decreases m - j,
            {
                let pair = (env[j].0.clone(), env[j].1.clone());
                proof {
                    assert(pair == env@[j as int]);
                }
                env_out.push(pair);
                j += 1;
                proof {
                    assert(env_out@ =~= env@.subrange(0, j as int));
                }
            }
            proof {
                assert(env_out@ =~= env@);
            }
            let cwd_out = match cwd {
                Some(c) => Some(c.clone()),
                None => None,
            };
            Ok(SpawnSpec { argv, env: env_out, cwd: cwd_out, snap_name: None })
        },
        EntryKind::Snap { snap_name, command, args, env } => {
            let mut argv: Vec<String> = Vec::new();
            argv.push(String::from_str("snap"));
            argv.push(String::from_str("run"));
            argv.push(snap_name.clone());
            let base: usize = match command {
                Some(c) => {
                    if !crate::ids::str_eq(c.as_str(), snap_name.as_str()) {
                        argv.push(c.clone());
                        4
                    } else {
                        3
                    }
                },
                None => 3,
            };
            let n = args.len();
            let mut i: usize = 0;
            while i < n
                invariant
                    i <= n,
                    n == args@.len(),
                    3 <= base <= 4,
                    argv@.len() == i + base,
                    argv@[0]@ == "snap"@,
                    argv@[1]@ == "run"@,
                    argv@[2] == *snap_name,
                    base == 4 ==> (command matches Some(c) && c@ != snap_name@ && argv@[3] == *c),
                    base == 3 ==> (match command {
                        Some(c) => c@ == snap_name@,
                        None => true,
                    }),
                    forall|k: int| 0 <= k < i ==> argv@[k + base] == args@[k],
                decreases n - i,
            {
                argv.push(args[i].clone());
                i += 1;
            }
            let mut env_out: Vec<(String, String)> = Vec::new();
            let m = env.len();
            let mut j: usize = 0;
            while j < m
                invariant
                    j <= m,
                    m == env@.len(),
                    env_out@ =~= env@.subrange(0, j as int),
                decreases m - j,
            {
                let pair = (env[j].0.clone(), env[j].1.clone());
                proof {
                    assert(pair == env@[j as int]);
                }
                env_out.push(pair);
                j += 1;
                proof {
                    assert(env_out@ =~= env@.subrange(0, j as int));
                }
            }
            Ok(SpawnSpec { argv, env: env_out, cwd: None, snap_name: Some(snap_name.clone()) })
        },
        EntryKind::Vm { driver, args } => {
            let mut argv: Vec<String> = Vec::new();
            argv.push(driver.clone());
            let n = args.len();
            let mut i: usize = 0;
            while i < n
                invariant
                    i <= n,
                    n == args@.len(),
                    argv@.len() == 1 + 2 * i,
                    argv@[0] == *driver,
                decreases n - i,
            {
                let mut flag = String::from_str("--");
                flag.append(args[i].0.as_str());
                argv.push(flag);
                argv.push(args[i].1.clone());
                i += 1;
            }
            Ok(SpawnSpec { argv, env: Vec::new(), cwd: None, snap_name: None })
        },
        EntryKind::Media { library_id, .. } => {
            let mut argv: Vec<String> = Vec::new();
            argv.push(String::from_str("xdg-open"));
            argv.push(library_id.clone());
            Ok(SpawnSpec { argv, env: Vec::new(), cwd: None, snap_name: None })
        },
        EntryKind::Custom { .. } => Err(HostError::UnsupportedKind),
    }
}

} // verus!
