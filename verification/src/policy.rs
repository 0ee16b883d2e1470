//! The validated policy: entries with availability, limits and warnings,
//! ready for the engine, plus the conversion from the raw configuration.

use vstd::prelude::*;

use crate::api::{EntryKind, WarningSeverity, WarningThreshold};
use crate::ids::{str_eq, EntryId};
use crate::schema::{
    RawAvailability, RawConfig, RawDaemonConfig, RawEntry, RawEntryKind, RawLimits,
    RawTimeWindow, RawVolumePolicy, RawWarningThreshold,
};
use crate::text::spec_lower;
use crate::time::{DaysOfWeek, TimeWindow, WallClock, WallTime};
use crate::validation::{
    parse_days, parse_time, spec_one_colon_at, spec_parse_days, spec_time_valid,
};

verus! {

use vstd::string::StringExecFns;

/// Milliseconds for a number of seconds, saturating at the type's maximum.
pub open spec fn spec_secs_to_millis(secs: u64) -> u64 {
    if secs <= 18_446_744_073_709_551u64 {
        (secs * 1000) as u64
    } else {
        u64::MAX
    }
}

pub fn secs_to_millis(secs: u64) -> (r: u64)
    ensures
        r == spec_secs_to_millis(secs),
{
    if secs <= 18_446_744_073_709_551u64 {
        secs * 1000
    } else {
        u64::MAX
    }
}

/// A duration in seconds read from the configuration, where zero means
/// unlimited: the bound in milliseconds, or None for unlimited.
pub open spec fn spec_duration_or_unlimited(secs: u64) -> Option<u64> {
    if secs == 0 {
        None
    } else {
        Some(spec_secs_to_millis(secs))
    }
}

/// Converts a configured duration to milliseconds, reading zero as
/// unlimited.
pub fn seconds_to_duration_or_unlimited(secs: u64) -> (r: Option<u64>)
    ensures
        r == spec_duration_or_unlimited(secs),
{
    if secs == 0 {
        None
    } else {
        Some(secs_to_millis(secs))
    }
}

/// Per-entry or global volume policy.
#[derive(Debug, Clone, Copy, PartialEq, Eq, Structural)]
pub struct VolumePolicy {
    pub max_volume: Option<u8>,
    pub min_volume: Option<u8>,
    pub allow_mute: bool,
    pub allow_change: bool,
}

impl Default for VolumePolicy {
    fn default() -> (r: VolumePolicy)
        ensures
            r.max_volume is None,
            r.min_volume is None,
            r.allow_mute,
            r.allow_change,
    {
        VolumePolicy { max_volume: None, min_volume: None, allow_mute: true, allow_change: true }
    }
}

/// Service paths.
#[derive(Debug)]
pub struct DaemonConfig {
    pub socket_path: String,
    pub log_dir: String,
    pub data_dir: String,
}

impl DaemonConfig {
    pub fn from_raw(raw: RawDaemonConfig) -> (r: DaemonConfig)
        ensures
            r.socket_path@ == (match raw.socket_path {
                Some(p) => p@,
                None => "/run/shepherdd/shepherdd.sock"@,
            }),
            r.log_dir@ == (match raw.log_dir {
                Some(p) => p@,
                None => "/var/log/shepherdd"@,
            }),
            r.data_dir@ == (match raw.data_dir {
                Some(p) => p@,
                None => "/var/lib/shepherdd"@,
            }),
    {
        DaemonConfig {
            socket_path: match raw.socket_path {
                Some(p) => p,
                None => String::from_str("/run/shepherdd/shepherdd.sock"),
            },
            log_dir: match raw.log_dir {
                Some(p) => p,
                None => String::from_str("/var/log/shepherdd"),
            },
            data_dir: match raw.data_dir {
                Some(p) => p,
                None => String::from_str("/var/lib/shepherdd"),
            },
        }
    }
}

impl Default for DaemonConfig {
    fn default() -> (r: DaemonConfig)
        ensures
            r.socket_path@ == "/run/shepherdd/shepherdd.sock"@,
            r.log_dir@ == "/var/log/shepherdd"@,
            r.data_dir@ == "/var/lib/shepherdd"@,
    {
        DaemonConfig {
            socket_path: String::from_str("/run/shepherdd/shepherdd.sock"),
            log_dir: String::from_str("/var/log/shepherdd"),
            data_dir: String::from_str("/var/lib/shepherdd"),
        }
    }
}

/// When an entry is available.
#[derive(Debug)]
pub struct AvailabilityPolicy {
    pub windows: Vec<TimeWindow>,
    pub always: bool,
}

/// Whether the moment is allowed: `always` set, no windows configured, or
/// some window contains it.
pub open spec fn spec_is_available(a: AvailabilityPolicy, t: WallTime) -> bool {
    ||| a.always
    ||| a.windows@.len() == 0
    ||| exists|i: int| 0 <= i < a.windows@.len() && (#[trigger] a.windows@[i]).spec_contains(t)
}

/// Seconds left in the first window (in configured order) that contains the
/// moment; None when none does.
pub open spec fn spec_first_remaining(ws: Seq<TimeWindow>, t: WallTime) -> Option<int>
    decreases ws.len(),
{
    if ws.len() == 0 {
        None
    } else {
        match ws[0].spec_remaining(t) {
            Some(x) => Some(x),
            None => spec_first_remaining(ws.drop_first(), t),
        }
    }
}

impl AvailabilityPolicy {
    pub fn is_available(&self, t: &WallTime) -> (r: bool)
        requires
            t.wf(),
        ensures
            r == spec_is_available(*self, *t),
    {
        if self.always {
            return true;
        }
        let n = self.windows.len();
        if n == 0 {
            return true;
        }
        let mut i: usize = 0;
        while i < n
            invariant
                i <= n,
                n == self.windows@.len(),
                t.wf(),
                forall|k: int| 0 <= k < i ==> !(#[trigger] self.windows@[k]).spec_contains(*t),
            decreases n - i,
        {
            if self.windows[i].contains(t) {
                return true;
            }
            i += 1;
        }
        false
    }

    /// Seconds left in the current window; None when `always` is set or no
    /// window contains the moment (no bound from windows).
    pub fn remaining_in_window(&self, t: &WallTime) -> (r: Option<u64>)
        requires
            t.wf(),
        ensures
            self.always ==> r is None,
            !self.always ==> (match r {
                Some(x) => spec_first_remaining(self.windows@, *t) == Some(x as int),
                None => spec_first_remaining(self.windows@, *t) is None,
            }),
    {
        if self.always {
            return None;
        }
        let n = self.windows.len();
        let mut i: usize = 0;
        proof {
            assert(self.windows@.skip(0) =~= self.windows@);
        }
        while i < n
            invariant
                i <= n,
                n == self.windows@.len(),
                t.wf(),
                !self.always,
                spec_first_remaining(self.windows@, *t) == spec_first_remaining(
                    self.windows@.skip(i as int),
                    *t,
                ),
            decreases n - i,
        {
            proof {
                assert(self.windows@.skip(i as int)[0] == self.windows@[i as int]);
                assert(self.windows@.skip(i as int).drop_first() =~= self.windows@.skip(i as int + 1));
            }
            match self.windows[i].remaining_duration(t) {
                Some(x) => {
                    return Some(x);
                },
                None => {},
            }
            i += 1;
        }
        proof {
            assert(self.windows@.skip(n as int) =~= Seq::<TimeWindow>::empty());
        }
        None
    }
}

/// Per-entry limits, in milliseconds; None means unlimited.
#[derive(Debug, Clone, Copy, PartialEq, Eq, Structural)]
pub struct LimitsPolicy {
    pub max_run_millis: Option<u64>,
    pub daily_quota_millis: Option<u64>,
    pub cooldown_millis: Option<u64>,
}

/// The limits an entry ends up with: its own values where set (zero read as
/// unlimited for max run and quota), the default max run otherwise.
pub open spec fn spec_limits_from_raw(raw: Option<RawLimits>, default_max_run: Option<u64>) -> LimitsPolicy {
    match raw {
        Some(l) => LimitsPolicy {
            max_run_millis: match l.max_run_seconds {
                Some(s) => spec_duration_or_unlimited(s),
                None => default_max_run,
            },
            daily_quota_millis: match l.daily_quota_seconds {
                Some(s) => spec_duration_or_unlimited(s),
                None => None,
            },
            cooldown_millis: match l.cooldown_seconds {
                Some(s) => Some(spec_secs_to_millis(s)),
                None => None,
            },
        },
        None => LimitsPolicy {
            max_run_millis: default_max_run,
            daily_quota_millis: None,
            cooldown_millis: None,
        },
    }
}

pub fn convert_limits(raw: RawLimits, default_max_run: Option<u64>) -> (r: LimitsPolicy)
    ensures
        r == spec_limits_from_raw(Some(raw), default_max_run),
{
    LimitsPolicy {
        max_run_millis: match raw.max_run_seconds {
            Some(s) => seconds_to_duration_or_unlimited(s),
            None => default_max_run,
        },
        daily_quota_millis: match raw.daily_quota_seconds {
            Some(s) => seconds_to_duration_or_unlimited(s),
            None => None,
        },
        cooldown_millis: match raw.cooldown_seconds {
            Some(s) => Some(secs_to_millis(s)),
            None => None,
        },
    }
}

/// The severity a raw name denotes, defaulting to Warn.
pub open spec fn spec_severity(lowered: Seq<char>) -> WarningSeverity {
    if lowered == "info"@ {
        WarningSeverity::Info
    } else if lowered == "critical"@ {
        WarningSeverity::Critical
    } else {
        WarningSeverity::Warn
    }
}

pub fn default_severity() -> (r: String)
    ensures
        r@ == "warn"@,
{
    String::from_str("warn")
}

pub fn convert_warning(raw: RawWarningThreshold) -> (r: WarningThreshold)
    ensures
        r.seconds_before == raw.seconds_before,
        r.severity == spec_severity(spec_lower(raw.severity@)),
        r.message_template == raw.message,
{
    let low = crate::text::ascii_lower(raw.severity.as_str());
    let severity = if str_eq(low.as_str(), "info") {
        WarningSeverity::Info
    } else if str_eq(low.as_str(), "critical") {
        WarningSeverity::Critical
    } else {
        WarningSeverity::Warn
    };
    WarningThreshold { seconds_before: raw.seconds_before, severity, message_template: raw.message }
}

/// The built-in warning schedule used when the configuration names none.
pub fn default_warning_thresholds() -> (r: Vec<WarningThreshold>)
    ensures
        r@.len() == 3,
        r@[0].seconds_before == 300 && r@[0].severity == WarningSeverity::Info,
        r@[1].seconds_before == 60 && r@[1].severity == WarningSeverity::Warn,
        r@[2].seconds_before == 10 && r@[2].severity == WarningSeverity::Critical,
{
    let mut v: Vec<WarningThreshold> = Vec::new();
    v.push(WarningThreshold {
        seconds_before: 300,
        severity: WarningSeverity::Info,
        message_template: Some(String::from_str("5 minutes remaining")),
    });
    v.push(WarningThreshold {
        seconds_before: 60,
        severity: WarningSeverity::Warn,
        message_template: Some(String::from_str("1 minute remaining")),
    });
    v.push(WarningThreshold {
        seconds_before: 10,
        severity: WarningSeverity::Critical,
        message_template: Some(String::from_str("10 seconds remaining!")),
    });
    v
}

/// The validated kind mirrors the raw one field for field, with a missing
/// custom payload read as empty.
pub open spec fn spec_kind_matches(raw: RawEntryKind, k: EntryKind) -> bool {
    match raw {
        RawEntryKind::Process { command, args, env, cwd } => k == EntryKind::Process {
            command,
            args,
            env,
            cwd,
        },
        RawEntryKind::Snap { snap_name, command, args, env } => k == EntryKind::Snap {
            snap_name,
            command,
            args,
            env,
        },
        RawEntryKind::Vm { driver, args } => k == EntryKind::Vm { driver, args },
        RawEntryKind::Media { library_id, args } => k == EntryKind::Media { library_id, args },
        RawEntryKind::Custom { kind_name, payload } => match k {
            EntryKind::Custom { kind_name: k2, payload: p2 } => k2 == kind_name && (match payload {
                Some(p) => p2 == p,
                None => p2@ == Seq::<char>::empty(),
            }),
            _ => false,
        },
    }
}

pub fn convert_entry_kind(raw: RawEntryKind) -> (r: EntryKind)
    ensures
        spec_kind_matches(raw, r),
{
    match raw {
        RawEntryKind::Process { command, args, env, cwd } => EntryKind::Process {
            command,
            args,
            env,
            cwd,
        },
        RawEntryKind::Snap { snap_name, command, args, env } => EntryKind::Snap {
            snap_name,
            command,
            args,
            env,
        },
        RawEntryKind::Vm { driver, args } => EntryKind::Vm { driver, args },
        RawEntryKind::Media { library_id, args } => EntryKind::Media { library_id, args },
        RawEntryKind::Custom { kind_name, payload } => EntryKind::Custom {
            kind_name,
            payload: match payload {
                Some(p) => p,
                None => String::new(),
            },
        },
    }
}

/// A time token's parsed hour and minute, when it has the "H:M" shape.
pub open spec fn spec_time_is(s: Seq<char>, h: u8, m: u8) -> bool {
    exists|i: int|
        {
            &&& #[trigger] spec_one_colon_at(s, i)
            &&& crate::text::spec_u8_token(s.subrange(0, i)) == Some(h as int)
            &&& crate::text::spec_u8_token(s.subrange(i + 1, s.len() as int)) == Some(m as int)
        }
}

/// Converts one window, falling back to every day and the whole day where a
/// part does not parse (the configuration was validated before this).
pub fn convert_time_window(raw: RawTimeWindow) -> (r: TimeWindow)
    ensures
        r.days.mask == (match spec_parse_days(raw.days) {
            Ok(m) => m & 0x7f,
            Err(_) => 0x7f,
        }),
        spec_time_valid(raw.start@) ==> spec_time_is(raw.start@, r.start.hour, r.start.minute),
        !spec_time_valid(raw.start@) ==> r.start == (WallClock { hour: 0, minute: 0 }),
        spec_time_valid(raw.end@) ==> spec_time_is(raw.end@, r.end.hour, r.end.minute),
        !spec_time_valid(raw.end@) ==> r.end == (WallClock { hour: 23, minute: 59 }),
        r.wf(),
{
    let days_mask = match parse_days(&raw.days) {
        Ok(m) => m,
        Err(_) => 0x7f,
    };
    proof {
        assert((0x7fu8 & 0x7fu8) == 0x7fu8) by (bit_vector);
    }
    let (start_h, start_m) = match parse_time(raw.start.as_str()) {
        Ok(hm) => hm,
        Err(_) => (0, 0),
    };
    let (end_h, end_m) = match parse_time(raw.end.as_str()) {
        Ok(hm) => hm,
        Err(_) => (23, 59),
    };
    TimeWindow {
        days: DaysOfWeek::new(days_mask),
        start: WallClock { hour: start_h, minute: start_m },
        end: WallClock { hour: end_h, minute: end_m },
    }
}

pub fn convert_availability(raw: RawAvailability) -> (r: AvailabilityPolicy)
    ensures
        r.always == raw.always,
        r.windows@.len() == raw.windows@.len(),
{
    let mut windows: Vec<TimeWindow> = Vec::new();
    let mut raws = raw.windows;
    let ghost orig = raws@;
    let n = raws.len();
    let mut i: usize = 0;
    proof {
        assert(raws@ =~= orig.skip(0));
    }
    while i < n
        invariant
            i <= n,
            n == orig.len(),
            raws@ =~= orig.skip(i as int),
            windows@.len() == i,
        decreases n - i,
    {
        let w = raws.remove(0);
        windows.push(convert_time_window(w));
        i += 1;
        proof {
            assert(raws@ =~= orig.skip(i as int));
        }
    }
    AvailabilityPolicy { windows, always: raw.always }
}

pub fn convert_volume_policy(raw: RawVolumePolicy) -> (r: VolumePolicy)
    ensures
        r.max_volume == raw.max_volume,
        r.min_volume == raw.min_volume,
        r.allow_mute == raw.allow_mute,
        r.allow_change == raw.allow_change,
{
    VolumePolicy {
        max_volume: raw.max_volume,
        min_volume: raw.min_volume,
        allow_mute: raw.allow_mute,
        allow_change: raw.allow_change,
    }
}

/// A validated entry.
#[derive(Debug)]
pub struct Entry {
    pub id: EntryId,
    pub label: String,
    pub icon_ref: Option<String>,
    pub kind: EntryKind,
    pub availability: AvailabilityPolicy,
    pub limits: LimitsPolicy,
    pub warnings: Vec<WarningThreshold>,
    pub volume: Option<VolumePolicy>,
    pub disabled: bool,
    pub disabled_reason: Option<String>,
}

impl Entry {
    /// Builds the validated entry; limits resolve against the default max
    /// run, and absent warnings take the default schedule.
    pub fn from_raw(
        raw: RawEntry,
        default_warnings: &Vec<WarningThreshold>,
        default_max_run: Option<u64>,
    ) -> (r: Entry)
        ensures
            r.id@ == raw.id@,
            r.label == raw.label,
            r.icon_ref == raw.icon,
            spec_kind_matches(raw.kind, r.kind),
            r.limits == spec_limits_from_raw(raw.limits, default_max_run),
            r.disabled == raw.disabled,
            r.disabled_reason == raw.disabled_reason,
            raw.availability is None ==> r.availability.windows@.len() == 0
                && !r.availability.always,
            raw.availability matches Some(a) ==> r.availability.always == a.always
                && r.availability.windows@.len() == a.windows@.len(),
            raw.warnings is None ==> r.warnings@ == default_warnings@,
            raw.warnings matches Some(ws) ==> r.warnings@.len() == ws@.len() && (forall|i: int|
                0 <= i < ws@.len() ==> (#[trigger] r.warnings@[i]).seconds_before
                    == ws@[i].seconds_before),
    {
        let kind = convert_entry_kind(raw.kind);
        let availability = match raw.availability {
            Some(a) => convert_availability(a),
            None => AvailabilityPolicy { windows: Vec::new(), always: false },
        };
        let limits = match raw.limits {
            Some(l) => convert_limits(l, default_max_run),
            None => LimitsPolicy {
                max_run_millis: default_max_run,
                daily_quota_millis: None,
                cooldown_millis: None,
            },
        };
        let warnings = match raw.warnings {
            Some(mut ws) => {
                let mut out: Vec<WarningThreshold> = Vec::new();
                let n = ws.len();
                let ghost orig = ws@;
                let mut i: usize = 0;
                while i < n
                    invariant
                        i <= n,
                        n == orig.len(),
                        ws@ =~= orig.skip(i as int),
                        out@.len() == i,
                        forall|k: int|
                            0 <= k < i ==> (#[trigger] out@[k]).seconds_before
                                == orig[k].seconds_before,
                    decreases n - i,
                {
                    let w = ws.remove(0);
                    proof {
                        assert(w == orig[i as int]);
                    }
                    out.push(convert_warning(w));
                    i += 1;
                    proof {
                        assert(ws@ =~= orig.skip(i as int));
                    }
                }
                out
            },
            None => {
                let mut out: Vec<WarningThreshold> = Vec::new();
                let n = default_warnings.len();
                let mut i: usize = 0;
                while i < n
                    invariant
                        i <= n,
                        n == default_warnings@.len(),
                        out@ =~= default_warnings@.subrange(0, i as int),
                    decreases n - i,
                {
                    out.push(default_warnings[i].clone());
                    i += 1;
                    proof {
                        assert(out@ =~= default_warnings@.subrange(0, i as int));
                    }
                }
                proof {
                    assert(out@ =~= default_warnings@);
                }
                out
            },
        };
        let volume = match raw.volume {
            Some(v) => Some(convert_volume_policy(v)),
            None => None,
        };
        Entry {
            id: EntryId::new(raw.id),
            label: raw.label,
            icon_ref: raw.icon,
            kind,
            availability,
            limits,
            warnings,
            volume,
            disabled: raw.disabled,
            disabled_reason: raw.disabled_reason,
        }
    }
}

/// The validated policy the engine works from.
#[derive(Debug)]
pub struct Policy {
    pub daemon: DaemonConfig,
    pub entries: Vec<Entry>,
    pub default_warnings: Vec<WarningThreshold>,
    pub default_max_run_millis: Option<u64>,
    pub volume: VolumePolicy,
}

impl Policy {
    /// Converts a validated raw configuration. An absent default max run
    /// means one hour; a configured zero means unlimited.
    pub fn from_raw(raw: RawConfig) -> (r: Policy)
        ensures
            r.entries@.len() == raw.entries@.len(),
            r.default_max_run_millis == (match raw.daemon.default_max_run_seconds {
                Some(s) => spec_duration_or_unlimited(s),
                None => Some(3_600_000u64),
            }),
            forall|i: int|
                0 <= i < raw.entries@.len() ==> (#[trigger] r.entries@[i]).id@ == raw.entries@[i].id@
                    && r.entries@[i].limits == spec_limits_from_raw(
                    raw.entries@[i].limits,
                    r.default_max_run_millis,
                ) && spec_kind_matches(raw.entries@[i].kind, r.entries@[i].kind)
                    && r.entries@[i].disabled == raw.entries@[i].disabled,
    {
        let RawDaemonConfig {
            socket_path,
            log_dir,
            data_dir,
            default_warnings: raw_default_warnings,
            default_max_run_seconds,
        } = raw.daemon;
        let default_warnings = match raw_default_warnings {
            Some(mut ws) => {
                let mut out: Vec<WarningThreshold> = Vec::new();
                let n = ws.len();
                let mut i: usize = 0;
                while i < n
                    invariant
                        i <= n,
                        n == i + ws@.len(),
                    decreases n - i,
                {
                    let w = ws.remove(0);
                    out.push(convert_warning(w));
                    i += 1;
                }
                out
            },
            None => default_warning_thresholds(),
        };
        let default_max_run = match default_max_run_seconds {
            Some(s) => seconds_to_duration_or_unlimited(s),
            None => Some(3_600_000),
        };
        let mut entries: Vec<Entry> = Vec::new();
        let mut raws = raw.entries;
        let n = raws.len();
        let ghost orig = raws@;
        let mut i: usize = 0;
        while i < n
            invariant
                i <= n,
                n == orig.len(),
                raws@ =~= orig.skip(i as int),
                entries@.len() == i,
                forall|k: int|
                    0 <= k < i ==> (#[trigger] entries@[k]).id@ == orig[k].id@ && entries@[k].limits
                        == spec_limits_from_raw(orig[k].limits, default_max_run)
                        && spec_kind_matches(orig[k].kind, entries@[k].kind)
                        && entries@[k].disabled == orig[k].disabled,
            decreases n - i,
        {
            let e = raws.remove(0);
            proof {
                assert(e == orig[i as int]);
            }
            entries.push(Entry::from_raw(e, &default_warnings, default_max_run));
            i += 1;
            proof {
                assert(raws@ =~= orig.skip(i as int));
            }
        }
        Policy {
            daemon: DaemonConfig::from_raw(RawDaemonConfig {
                socket_path,
                log_dir,
                data_dir,
                default_warnings: None,
                default_max_run_seconds,
            }),
            entries,
            default_warnings,
            default_max_run_millis: default_max_run,
            volume: VolumePolicy::default(),
        }
    }

    /// Looks an entry up by id: the first entry carrying it, or None when no
    /// entry does.
    pub fn get_entry(&self, id: &EntryId) -> (r: Option<&Entry>)
        ensures
            match spec_find_entry(self.entries@, id@) {
                Some(i) => r matches Some(e) && *e == self.entries@[i] && e.id@ == id@,
                None => r is None,
            },
    {
        let n = self.entries.len();
        let mut i: usize = 0;
        while i < n
            invariant
                i <= n,
                n == self.entries@.len(),
                forall|k: int| 0 <= k < i ==> (#[trigger] self.entries@[k]).id@ != id@,
            decreases n - i,
        {
            if str_eq(self.entries[i].id.as_str(), id.as_str()) {
                proof {
                    lemma_find_entry_from_prefix(self.entries@, id@, i as int);
                }
                return Some(&self.entries[i]);
            }
            i += 1;
        }
        proof {
            lemma_find_entry_from_prefix(self.entries@, id@, n as int);
        }
        None
    }
}

/// The index of the first entry carrying the id, if any.
pub open spec fn spec_find_entry(entries: Seq<Entry>, id: Seq<char>) -> Option<int>
    decreases entries.len(),
{
    if entries.len() == 0 {
        None
    } else if entries[0].id@ == id {
        Some(0)
    } else {
        match spec_find_entry(entries.drop_first(), id) {
            Some(j) => Some(j + 1),
            None => None,
        }
    }
}

/// A scan that saw no match up to `i` pins the first-match index: it is `i`
/// where the entry there matches, and there is none at all when the scan
/// reached the end.
pub proof fn lemma_find_entry_from_prefix(entries: Seq<Entry>, id: Seq<char>, i: int)
    requires
        0 <= i <= entries.len(),
        forall|k: int| 0 <= k < i ==> (#[trigger] entries[k]).id@ != id,
    ensures
        (i < entries.len() && entries[i].id@ == id) ==> spec_find_entry(entries, id) == Some(i),
        i == entries.len() ==> spec_find_entry(entries, id) is None,
    decreases entries.len(),
{
    if entries.len() > 0 {
        if entries[0].id@ == id {
        } else {
            assert forall|k: int| 0 <= k < i - 1 implies (#[trigger] entries.drop_first()[k]).id@
                != id by {
                assert(entries.drop_first()[k] == entries[k + 1]);
            }
            if i > 0 {
                lemma_find_entry_from_prefix(entries.drop_first(), id, i - 1);
                if i < entries.len() && entries[i].id@ == id {
                    assert(entries.drop_first()[i - 1] == entries[i]);
                }
            } else {
                if i < entries.len() && entries[i].id@ == id {
                }
            }
        }
    }
}

} // verus!
