//! Validation of the raw configuration: time and day parsing, per-entry
//! checks, and duplicate-id detection.

use vstd::prelude::*;

use crate::schema::{RawConfig, RawDays, RawEntry, RawEntryKind, RawTimeWindow};
use crate::text::{ascii_lower, chars_of, parse_u8_chars, spec_lower, spec_u8_token};

verus! {

use vstd::string::StringExecFns;

/// A finding of the configuration validator.
#[derive(Debug)]
pub enum ValidationError {
    EntryError { entry_id: String, message: String },
    DuplicateEntryId(String),
    InvalidTimeFormat { value: String, message: String },
    InvalidDaySpec(String),
    WarningExceedsMaxRun { entry_id: String, seconds: u64, max_run: u64 },
    GlobalError(String),
}

/// `i` is the position of the only ':' in `s`.
pub open spec fn spec_one_colon_at(s: Seq<char>, i: int) -> bool {
    &&& 0 <= i < s.len()
    &&& s[i] == ':'
    &&& forall|j: int| 0 <= j < s.len() && j != i ==> s[j] != ':'
}

/// Whether `s` is a well-formed "HH:MM" time: one colon, both sides
/// unsigned numbers, hour below 24 and minute below 60.
pub open spec fn spec_time_valid(s: Seq<char>) -> bool {
    exists|i: int|
        {
            &&& #[trigger] spec_one_colon_at(s, i)
            &&& spec_u8_token(s.subrange(0, i)) matches Some(h) && h < 24
            &&& spec_u8_token(s.subrange(i + 1, s.len() as int)) matches Some(m) && m < 60
        }
}

/// Parses "HH:MM". Returns the hour and minute exactly when the string has
/// one colon, both parts read as numbers, and they are a valid time of day;
/// otherwise the error message says which check failed first.
pub fn parse_time(s: &str) -> (r: Result<(u8, u8), String>)
    ensures
        match r {
            Ok(hm) => exists|i: int|
                {
                    &&& #[trigger] spec_one_colon_at(s@, i)
                    &&& spec_u8_token(s@.subrange(0, i)) == Some(hm.0 as int)
                    &&& spec_u8_token(s@.subrange(i + 1, s@.len() as int)) == Some(hm.1 as int)
                    &&& hm.0 < 24
                    &&& hm.1 < 60
                },
            Err(e) => {
                if forall|i: int| !spec_one_colon_at(s@, i) {
                    e@ == "Expected HH:MM format"@
                } else {
                    let i = choose|i: int| spec_one_colon_at(s@, i);
                    let h = spec_u8_token(s@.subrange(0, i));
                    let m = spec_u8_token(s@.subrange(i + 1, s@.len() as int));
                    if h is None {
                        e@ == "Invalid hour"@
                    } else if m is None {
                        e@ == "Invalid minute"@
                    } else if h->0 >= 24 {
                        e@ == "Hour must be 0-23"@
                    } else {
                        m->0 >= 60 && e@ == "Minute must be 0-59"@
                    }
                }
            },
        },
        r is Ok <==> spec_time_valid(s@),
{
    let v = chars_of(s);
    let n = v.len();
    let mut count: usize = 0;
    let mut idx: usize = 0;
    let ghost mut idx2: int = 0;
    let mut i: usize = 0;
    while i < n
        invariant
            i <= n,
            n == v@.len(),
            v@ == s@,
            count <= i,
            count == 0 ==> forall|j: int| 0 <= j < i ==> v@[j] != ':',
            count == 1 ==> idx < i && v@[idx as int] == ':' && (forall|j: int|
                0 <= j < i && j != idx ==> v@[j] != ':'),
            count >= 2 ==> idx < i && 0 <= idx2 < i && idx != idx2 && v@[idx as int] == ':'
                && v@[idx2] == ':',
        decreases n - i,
    {
        if v[i] == ':' {
            if count == 0 {
                idx = i;
            } else if count == 1 {
                proof {
                    idx2 = i as int;
                }
            }
            count += 1;
        }
        i += 1;
    }
    if count != 1 {
        proof {
            if count == 0 {
                assert(forall|j: int| !spec_one_colon_at(s@, j));
            } else {
                assert forall|j: int| !spec_one_colon_at(s@, j) by {
                    if spec_one_colon_at(s@, j) {
                        if j != idx {
                            assert(s@[idx as int] == ':');
                        } else {
                            assert(s@[idx2] == ':');
                        }
                    }
                }
            }
        }
        return Err(String::from_str("Expected HH:MM format"));
    }
    proof {
        assert(spec_one_colon_at(s@, idx as int));
        let ci = choose|ci: int| spec_one_colon_at(s@, ci);
        assert(s@[ci] == ':');
        assert(ci == idx as int);
    }
    let hour = match parse_u8_chars(&v, 0, idx) {
        Some(h) => h,
        None => {
            return Err(String::from_str("Invalid hour"));
        },
    };
    let minute = match parse_u8_chars(&v, idx + 1, n) {
        Some(m) => m,
        None => {
            return Err(String::from_str("Invalid minute"));
        },
    };
    if hour >= 24 {
        return Err(String::from_str("Hour must be 0-23"));
    }
    if minute >= 60 {
        return Err(String::from_str("Minute must be 0-59"));
    }
    Ok((hour, minute))
}

/// The day bit (0x01 Monday .. 0x40 Sunday) that a lowered day name denotes.
pub open spec fn spec_day_bit(t: Seq<char>) -> Option<u8> {
    if t == "mon"@ || t == "monday"@ {
        Some(0x01u8)
    } else if t == "tue"@ || t == "tuesday"@ {
        Some(0x02u8)
    } else if t == "wed"@ || t == "wednesday"@ {
        Some(0x04u8)
    } else if t == "thu"@ || t == "thursday"@ {
        Some(0x08u8)
    } else if t == "fri"@ || t == "friday"@ {
        Some(0x10u8)
    } else if t == "sat"@ || t == "saturday"@ {
        Some(0x20u8)
    } else if t == "sun"@ || t == "sunday"@ {
        Some(0x40u8)
    } else {
        None
    }
}

/// The mask that a lowered preset name denotes.
pub open spec fn spec_preset_mask(t: Seq<char>) -> Option<u8> {
    if t == "all"@ || t == "every"@ || t == "daily"@ {
        Some(0x7fu8)
    } else if t == "weekdays"@ {
        Some(0x1fu8)
    } else if t == "weekends"@ {
        Some(0x60u8)
    } else {
        None
    }
}

/// The mask denoted by a list of day names, or the first unknown name
/// (already lowered).
pub open spec fn spec_list_mask(toks: Seq<Seq<char>>) -> Result<u8, Seq<char>>
    decreases toks.len(),
{
    if toks.len() == 0 {
        Ok(0u8)
    } else {
        match spec_day_bit(spec_lower(toks[0])) {
            None => Err(spec_lower(toks[0])),
            Some(b) => match spec_list_mask(toks.drop_first()) {
                Ok(m) => Ok((b | m) as u8),
                Err(e) => Err(e),
            },
        }
    }
}

/// What `parse_days` answers for a raw day specification.
pub open spec fn spec_parse_days(days: RawDays) -> Result<u8, Seq<char>> {
    match days {
        RawDays::Preset(p) => match spec_preset_mask(spec_lower(p@)) {
            Some(m) => Ok(m),
            None => Err("Unknown day preset: "@ + spec_lower(p@)),
        },
        RawDays::List(l) => match spec_list_mask(l.deep_view()) {
            Ok(m) => Ok(m),
            Err(t) => Err("Unknown day: "@ + t),
        },
    }
}

fn day_bit_of(low: &str) -> (r: Option<u8>)
    ensures
        r == spec_day_bit(low@),
{
    if crate::ids::str_eq(low, "mon") || crate::ids::str_eq(low, "monday") {
        Some(0x01)
    } else if crate::ids::str_eq(low, "tue") || crate::ids::str_eq(low, "tuesday") {
        Some(0x02)
    } else if crate::ids::str_eq(low, "wed") || crate::ids::str_eq(low, "wednesday") {
        Some(0x04)
    } else if crate::ids::str_eq(low, "thu") || crate::ids::str_eq(low, "thursday") {
        Some(0x08)
    } else if crate::ids::str_eq(low, "fri") || crate::ids::str_eq(low, "friday") {
        Some(0x10)
    } else if crate::ids::str_eq(low, "sat") || crate::ids::str_eq(low, "saturday") {
        Some(0x20)
    } else if crate::ids::str_eq(low, "sun") || crate::ids::str_eq(low, "sunday") {
        Some(0x40)
    } else {
        None
    }
}

/// Parses a day specification to the seven-bit mask (bit 0 Monday).
/// Presets "all"/"every"/"daily", "weekdays" and "weekends" and explicit
/// lists of day names are accepted, case-insensitively; an unknown name is
/// the error.
pub fn parse_days(days: &RawDays) -> (r: Result<u8, String>)
    ensures
        match r {
            Ok(m) => spec_parse_days(*days) == Ok::<u8, Seq<char>>(m),
            Err(e) => spec_parse_days(*days) == Err::<u8, Seq<char>>(e@),
        },
{
    match days {
        RawDays::Preset(p) => {
            let low = ascii_lower(p.as_str());
            let lows = low.as_str();
            if crate::ids::str_eq(lows, "all") || crate::ids::str_eq(lows, "every")
                || crate::ids::str_eq(lows, "daily") {
                Ok(0x7f)
            } else if crate::ids::str_eq(lows, "weekdays") {
                Ok(0x1f)
            } else if crate::ids::str_eq(lows, "weekends") {
                Ok(0x60)
            } else {
                let mut e = String::from_str("Unknown day preset: ");
                e.append(lows);
                Err(e)
            }
        },
        RawDays::List(l) => {
            let mut mask: u8 = 0;
            let n = l.len();
            let mut i: usize = 0;
            proof {
                assert(l.deep_view().skip(0) =~= l.deep_view());
                assert(forall|m: u8| #![auto] (0u8 | m) == m) by (bit_vector);
            }
            while i < n
                invariant
                    i <= n,
                    n == l@.len(),
                    *days == RawDays::List(*l),
                    spec_list_mask(l.deep_view()) == (match spec_list_mask(
                        l.deep_view().skip(i as int),
                    ) {
                        Ok(m) => Ok::<u8, Seq<char>>((mask | m) as u8),
                        Err(e) => Err::<u8, Seq<char>>(e),
                    }),
                decreases n - i,
            {
                let low = ascii_lower(l[i].as_str());
                let ghost rest = l.deep_view().skip(i as int);
                proof {
                    assert(rest[0] == l@[i as int]@);
                    assert(rest.drop_first() =~= l.deep_view().skip(i as int + 1));
                    assert(low@ == spec_lower(rest[0]));
                }
                match day_bit_of(low.as_str()) {
                    Some(b) => {
                        let new_mask: u8 = mask | b;
                        proof {
                            assert(spec_list_mask(rest) == (match spec_list_mask(
                                l.deep_view().skip(i as int + 1),
                            ) {
                                Ok(m) => Ok::<u8, Seq<char>>((b | m) as u8),
                                Err(e) => Err::<u8, Seq<char>>(e),
                            }));
                            assert(forall|m: u8| #![auto] (mask | (b | m)) == ((mask | b) | m))
                                by (bit_vector);
                        }
                        mask = new_mask;
                    },
                    None => {
                        proof {
                            assert(spec_list_mask(rest) == Err::<u8, Seq<char>>(spec_lower(rest[0])));
                        }
                        let mut e = String::from_str("Unknown day: ");
                        e.append(low.as_str());
                        return Err(e);
                    },
                }
                i += 1;
            }
            proof {
                assert(l.deep_view().skip(n as int) =~= Seq::<Seq<char>>::empty());
                assert(forall|m: u8| #![auto] (m | 0u8) == m) by (bit_vector);
            }
            Ok(mask)
        },
    }
}

/// Whether a raw day specification parses.
pub open spec fn spec_days_valid(days: RawDays) -> bool {
    spec_parse_days(days) is Ok
}

/// Whether a raw time window is well-formed: days parse, and both times are
/// valid "HH:MM" values.
pub open spec fn spec_window_valid(w: RawTimeWindow) -> bool {
    spec_days_valid(w.days) && spec_time_valid(w.start@) && spec_time_valid(w.end@)
}

/// Checks one time window; the result is empty exactly when the window is
/// well-formed, with one error per failed part.
pub fn validate_time_window(window: &RawTimeWindow, entry_id: &str) -> (r: Vec<ValidationError>)
    ensures
        r@.len() == 0 <==> spec_window_valid(*window),
{
    let mut errors: Vec<ValidationError> = Vec::new();
    match parse_days(&window.days) {
        Ok(_) => {},
        Err(e) => {
            errors.push(ValidationError::EntryError {
                entry_id: String::from_str(entry_id),
                message: e,
            });
        },
    }
    match parse_time(window.start.as_str()) {
        Ok(_) => {},
        Err(e) => {
            errors.push(ValidationError::InvalidTimeFormat {
                value: window.start.clone(),
                message: e,
            });
        },
    }
    match parse_time(window.end.as_str()) {
        Ok(_) => {},
        Err(e) => {
            errors.push(ValidationError::InvalidTimeFormat {
                value: window.end.clone(),
                message: e,
            });
        },
    }
    errors
}

/// Whether the kind's spawn payload names a target.
pub open spec fn spec_kind_payload_ok(k: RawEntryKind) -> bool {
    match k {
        RawEntryKind::Process { command, .. } => command@.len() > 0,
        RawEntryKind::Snap { snap_name, .. } => snap_name@.len() > 0,
        RawEntryKind::Vm { driver, .. } => driver@.len() > 0,
        RawEntryKind::Media { library_id, .. } => library_id@.len() > 0,
        RawEntryKind::Custom { kind_name, .. } => kind_name@.len() > 0,
    }
}

/// The effective max-run bound the warning check uses: the entry's own, or
/// the service default.
pub open spec fn spec_effective_max_run(entry: RawEntry, default_max_run: Option<u64>) -> Option<
    u64,
> {
    match entry.limits {
        Some(lm) => match lm.max_run_seconds {
            Some(x) => Some(x),
            None => default_max_run,
        },
        None => default_max_run,
    }
}

/// Whether the entry's warnings all fall below its effective max run; a max
/// run of zero means unlimited, which no warning can exceed.
pub open spec fn spec_warnings_ok(entry: RawEntry, default_max_run: Option<u64>) -> bool {
    match (entry.warnings, spec_effective_max_run(entry, default_max_run)) {
        (Some(ws), Some(m)) => m > 0 ==> forall|i: int|
            0 <= i < ws.len() ==> #[trigger] ws[i].seconds_before < m,
        _ => true,
    }
}

/// Whether one raw entry passes validation.
pub open spec fn spec_entry_valid(entry: RawEntry, default_max_run: Option<u64>) -> bool {
    &&& spec_kind_payload_ok(entry.kind)
    &&& match entry.availability {
        Some(a) => forall|i: int| 0 <= i < a.windows.len() ==> spec_window_valid(#[trigger] a.windows[i]),
        None => true,
    }
    &&& spec_warnings_ok(entry, default_max_run)
}

/// Checks one entry: the spawn payload names a target, its windows are
/// well-formed, and no warning threshold reaches the effective max run.
/// The result is empty exactly when the entry is valid.
pub fn validate_entry(entry: &RawEntry, config: &RawConfig) -> (r: Vec<ValidationError>)
    ensures
        r@.len() == 0 <==> spec_entry_valid(*entry, config.daemon.default_max_run_seconds),
{
    let mut errors: Vec<ValidationError> = Vec::new();
    match &entry.kind {
        RawEntryKind::Process { command, .. } => {
            if command.as_str().is_empty() {
                errors.push(ValidationError::EntryError {
                    entry_id: entry.id.clone(),
                    message: String::from_str("command cannot be empty"),
                });
            }
        },
        RawEntryKind::Snap { snap_name, .. } => {
            if snap_name.as_str().is_empty() {
                errors.push(ValidationError::EntryError {
                    entry_id: entry.id.clone(),
                    message: String::from_str("snap_name cannot be empty"),
                });
            }
        },
        RawEntryKind::Vm { driver, .. } => {
            if driver.as_str().is_empty() {
                errors.push(ValidationError::EntryError {
                    entry_id: entry.id.clone(),
                    message: String::from_str("VM driver cannot be empty"),
                });
            }
        },
        RawEntryKind::Media { library_id, .. } => {
            if library_id.as_str().is_empty() {
                errors.push(ValidationError::EntryError {
                    entry_id: entry.id.clone(),
                    message: String::from_str("library_id cannot be empty"),
                });
            }
        },
        RawEntryKind::Custom { kind_name, .. } => {
            if kind_name.as_str().is_empty() {
                errors.push(ValidationError::EntryError {
                    entry_id: entry.id.clone(),
                    message: String::from_str("type_name cannot be empty"),
                });
            }
        },
    }
    match &entry.availability {
        Some(avail) => {
            let wn = avail.windows.len();
            let mut wi: usize = 0;
            while wi < wn
                invariant
                    wi <= wn,
                    entry.availability matches Some(av) && av == *avail,
                    wn == avail.windows@.len(),
                    errors@.len() == 0 <==> (spec_kind_payload_ok(entry.kind) && forall|k: int|
                        0 <= k < wi ==> spec_window_valid(#[trigger] avail.windows@[k])),
                decreases wn - wi,
            {
                let mut werrs = validate_time_window(&avail.windows[wi], entry.id.as_str());
                if werrs.len() > 0 {
                    errors.append(&mut werrs);
                }
                wi += 1;
            }
        },
        None => {},
    }
    let max_run: Option<u64> = match &entry.limits {
        Some(lm) => match lm.max_run_seconds {
            Some(x) => Some(x),
            None => config.daemon.default_max_run_seconds,
        },
        None => config.daemon.default_max_run_seconds,
    };
    let ghost errors_before = errors@;
    match (&entry.warnings, max_run) {
        (Some(ws), Some(m)) => {
            if m > 0 {
                let k = ws.len();
                let mut j: usize = 0;
                while j < k
                    invariant
                        j <= k,
                        entry.warnings matches Some(wsx) && wsx == *ws,
                        k == ws@.len(),
                        m > 0,
                        errors@.len() == 0 <==> (errors_before.len() == 0 && forall|q: int|
                            0 <= q < j ==> #[trigger] ws@[q].seconds_before < m),
                    decreases k - j,
                {
                    if ws[j].seconds_before >= m {
                        errors.push(ValidationError::WarningExceedsMaxRun {
                            entry_id: entry.id.clone(),
                            seconds: ws[j].seconds_before,
                            max_run: m,
                        });
                    }
                    j += 1;
                }
            }
        },
        _ => {},
    }
    errors
}

/// Whether the whole raw configuration passes validation: entry ids are
/// pairwise distinct and every entry is valid.
pub open spec fn spec_config_valid(config: RawConfig) -> bool {
    &&& forall|i: int, j: int|
        0 <= i < j < config.entries.len() ==> (#[trigger] config.entries[i].id)@ != (
        #[trigger] config.entries[j].id)@
    &&& forall|i: int|
        0 <= i < config.entries.len() ==> spec_entry_valid(
            #[trigger] config.entries[i],
            config.daemon.default_max_run_seconds,
        )
}

/// Validates a raw configuration; the result is empty exactly when it is
/// valid, with one error per duplicated id occurrence and per entry fault.
pub fn validate_config(config: &RawConfig) -> (r: Vec<ValidationError>)
    ensures
        r@.len() == 0 <==> spec_config_valid(*config),
{
    let mut errors: Vec<ValidationError> = Vec::new();
    let n = config.entries.len();
    let mut i: usize = 0;
    while i < n
        invariant
            i <= n,
            n == config.entries@.len(),
            errors@.len() == 0 <==> (forall|a: int, b: int|
                0 <= a < b < i ==> (#[trigger] config.entries@[a].id)@ != (
                #[trigger] config.entries@[b].id)@),
        decreases n - i,
    {
        let mut dup = false;
        let mut j: usize = 0;
        while j < i
            invariant
                j <= i < n,
                n == config.entries@.len(),
                dup <==> exists|b: int|
                    0 <= b < j && (#[trigger] config.entries@[b].id)@ == config.entries@[i as int].id@,
            decreases i - j,
        {
            if crate::ids::str_eq(config.entries[j].id.as_str(), config.entries[i].id.as_str()) {
                dup = true;
            }
            j += 1;
        }
        if dup {
            errors.push(ValidationError::DuplicateEntryId(config.entries[i].id.clone()));
        }
        i += 1;
    }
    let ghost dup_errors = errors@;
    let mut i2: usize = 0;
    while i2 < n
        invariant
            i2 <= n,
            n == config.entries@.len(),
            dup_errors.len() == 0 <==> (forall|a: int, b: int|
                0 <= a < b < n ==> (#[trigger] config.entries@[a].id)@ != (
                #[trigger] config.entries@[b].id)@),
            errors@.len() == 0 <==> (dup_errors.len() == 0 && forall|k: int|
                0 <= k < i2 ==> spec_entry_valid(
                    #[trigger] config.entries@[k],
                    config.daemon.default_max_run_seconds,
                )),
        decreases n - i2,
    {
        let mut eerrs = validate_entry(&config.entries[i2], config);
        if eerrs.len() > 0 {
            errors.append(&mut eerrs);
        }
        i2 += 1;
    }
    errors
}

} // verus!
