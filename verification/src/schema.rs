//! Raw configuration as it arrives from the on-disk format, before
//! validation. The process around the service deserializes the file and
//! hands these plain values in; validation and conversion to the checked
//! policy happen here in the library.

use vstd::prelude::*;

verus! {

/// Top-level raw configuration.
#[derive(Debug)]
pub struct RawConfig {
    pub config_version: u32,
    pub daemon: RawDaemonConfig,
    pub entries: Vec<RawEntry>,
}

/// Service-level raw settings.
#[derive(Debug)]
pub struct RawDaemonConfig {
    pub socket_path: Option<String>,
    pub log_dir: Option<String>,
    pub data_dir: Option<String>,
    pub default_warnings: Option<Vec<RawWarningThreshold>>,
    pub default_max_run_seconds: Option<u64>,
}

/// One raw entry definition.
#[derive(Debug)]
pub struct RawEntry {
    pub id: String,
    pub label: String,
    pub icon: Option<String>,
    pub kind: RawEntryKind,
    pub availability: Option<RawAvailability>,
    pub limits: Option<RawLimits>,
    pub warnings: Option<Vec<RawWarningThreshold>>,
    pub volume: Option<RawVolumePolicy>,
    pub disabled: bool,
    pub disabled_reason: Option<String>,
}

/// Raw entry kind with its spawn payload.
#[derive(Debug)]
pub enum RawEntryKind {
    Process { command: String, args: Vec<String>, env: Vec<(String, String)>, cwd: Option<String> },
    Snap { snap_name: String, command: Option<String>, args: Vec<String>, env: Vec<(String, String)> },
    Vm { driver: String, args: Vec<(String, String)> },
    Media { library_id: String, args: Vec<(String, String)> },
    Custom { kind_name: String, payload: Option<String> },
}

/// Raw availability configuration.
#[derive(Debug)]
pub struct RawAvailability {
    pub windows: Vec<RawTimeWindow>,
    pub always: bool,
}

/// Raw time window, with times as "HH:MM" strings.
#[derive(Debug)]
pub struct RawTimeWindow {
    pub days: RawDays,
    pub start: String,
    pub end: String,
}

/// Day specification: a preset name or an explicit list of day names.
#[derive(Debug)]
pub enum RawDays {
    Preset(String),
    List(Vec<String>),
}

/// Raw limits, in seconds; zero means unlimited.
#[derive(Debug)]
pub struct RawLimits {
    pub max_run_seconds: Option<u64>,
    pub daily_quota_seconds: Option<u64>,
    pub cooldown_seconds: Option<u64>,
}

/// Raw warning threshold.
#[derive(Debug)]
pub struct RawWarningThreshold {
    pub seconds_before: u64,
    pub severity: String,
    pub message: Option<String>,
}

/// Raw per-entry or global volume policy.
#[derive(Debug)]
pub struct RawVolumePolicy {
    pub max_volume: Option<u8>,
    pub min_volume: Option<u8>,
    pub allow_mute: bool,
    pub allow_change: bool,
}

} // verus!
