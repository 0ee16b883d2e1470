//! Time primitives: monotonic instants for enforcement, wall-clock values
//! for availability windows, and duration formatting.
//!
//! Monotonic time is carried as milliseconds from an arbitrary process-local
//! origin; wall-clock time as a day index (days since 1970-01-01 in local
//! time) plus seconds within the day. The process that hosts the service
//! captures both from the system clocks and hands them in as plain values.

use vstd::prelude::*;

verus! {

use vstd::string::StringExecFns;

/// Environment variable that selects a simulated wall clock in development.
pub const MOCK_TIME_ENV_VAR: &'static str = "SHEPHERD_MOCK_TIME";

/// A point in monotonic time, in milliseconds from a process-local origin.
/// Immune to wall-clock changes; all enforcement decisions use this.
#[derive(Debug, Clone, Copy, PartialEq, Eq, Structural)]
pub struct MonotonicInstant {
    pub millis: u64,
}

impl MonotonicInstant {
    pub fn from_millis(millis: u64) -> (r: MonotonicInstant)
        ensures
            r.millis == millis,
    {
        MonotonicInstant { millis }
    }

    /// Milliseconds from `earlier` to `self`; zero when `earlier` is later.
    pub fn duration_since(&self, earlier: MonotonicInstant) -> (r: u64)
        ensures
            r == if self.millis >= earlier.millis {
                (self.millis - earlier.millis) as int
            } else {
                0
            },
    {
        if self.millis >= earlier.millis {
            self.millis - earlier.millis
        } else {
            0
        }
    }

    pub fn checked_add(&self, millis: u64) -> (r: Option<MonotonicInstant>)
        ensures
            r == if self.millis + millis <= u64::MAX {
                Some(MonotonicInstant { millis: (self.millis + millis) as u64 })
            } else {
                None::<MonotonicInstant>
            },
    {
        match self.millis.checked_add(millis) {
            Some(m) => Some(MonotonicInstant { millis: m }),
            None => None,
        }
    }

    /// Milliseconds until `self`, seen from `from`; zero if `self` has passed.
    pub fn saturating_duration_until(&self, from: MonotonicInstant) -> (r: u64)
        ensures
            r == if self.millis > from.millis {
                (self.millis - from.millis) as int
            } else {
                0
            },
    {
        if self.millis > from.millis {
            self.millis - from.millis
        } else {
            0
        }
    }

    pub fn add_millis(&self, millis: u64) -> (r: MonotonicInstant)
        requires
            self.millis + millis <= u64::MAX,
        ensures
            r.millis == self.millis + millis,
    {
        MonotonicInstant { millis: self.millis + millis }
    }
}

/// A time of day at minute granularity.
#[derive(Debug, Clone, Copy, PartialEq, Eq, Structural)]
pub struct WallClock {
    pub hour: u8,
    pub minute: u8,
}

impl WallClock {
    pub open spec fn wf(self) -> bool {
        self.hour < 24 && self.minute < 60
    }

    pub open spec fn spec_seconds(self) -> int {
        self.hour * 3600 + self.minute * 60
    }

    pub fn new(hour: u8, minute: u8) -> (r: Option<WallClock>)
        ensures
            r == if hour < 24 && minute < 60 {
                Some(WallClock { hour, minute })
            } else {
                None::<WallClock>
            },
            r is Some ==> r->0.wf(),
    {
        if hour < 24 && minute < 60 {
            Some(WallClock { hour, minute })
        } else {
            None
        }
    }

    pub fn as_seconds_from_midnight(&self) -> (r: u32)
        ensures
            r == self.spec_seconds(),
    {
        (self.hour as u32) * 3600 + (self.minute as u32) * 60
    }
}

impl core::cmp::PartialOrd for WallClock {
    fn partial_cmp(&self, other: &WallClock) -> (r: Option<core::cmp::Ordering>) {
        let a = self.as_seconds_from_midnight();
        let b = other.as_seconds_from_midnight();
        if a < b {
            Some(core::cmp::Ordering::Less)
        } else if a == b {
            Some(core::cmp::Ordering::Equal)
        } else {
            Some(core::cmp::Ordering::Greater)
        }
    }
}

impl vstd::std_specs::cmp::PartialOrdSpecImpl for WallClock {
    open spec fn obeys_partial_cmp_spec() -> bool {
        true
    }

    open spec fn partial_cmp_spec(&self, other: &WallClock) -> Option<core::cmp::Ordering> {
        if self.spec_seconds() < other.spec_seconds() {
            Some(core::cmp::Ordering::Less)
        } else if self.spec_seconds() == other.spec_seconds() {
            Some(core::cmp::Ordering::Equal)
        } else {
            Some(core::cmp::Ordering::Greater)
        }
    }
}

/// A set of weekdays as a seven-bit mask; bit 0 is Monday, bit 6 Sunday.
#[derive(Debug, Clone, Copy, PartialEq, Eq, Structural, Default)]
pub struct DaysOfWeek {
    pub mask: u8,
}

impl DaysOfWeek {
    /// Bit position of Monday in the mask.
    pub open spec fn spec_contains(self, weekday: u8) -> bool {
        self.mask & (1u8 << weekday) != 0
    }

    pub fn new(mask: u8) -> (r: DaysOfWeek)
        ensures
            r.mask == mask & 0x7f,
    {
        DaysOfWeek { mask: mask & 0x7f }
    }

    /// Whether the day (0 = Monday .. 6 = Sunday) is in the set.
    pub fn contains(&self, weekday: u8) -> (r: bool)
        requires
            weekday < 7,
        ensures
            r == self.spec_contains(weekday),
    {
        self.mask & (1u8 << weekday) != 0
    }

    pub fn is_empty(&self) -> (r: bool)
        ensures
            r == (self.mask == 0),
    {
        self.mask == 0
    }

    pub fn weekdays() -> (r: DaysOfWeek)
        ensures
            r.mask == 0x1f,
    {
        DaysOfWeek { mask: 0x1f }
    }

    pub fn weekends() -> (r: DaysOfWeek)
        ensures
            r.mask == 0x60,
    {
        DaysOfWeek { mask: 0x60 }
    }

    pub fn all_days() -> (r: DaysOfWeek)
        ensures
            r.mask == 0x7f,
    {
        DaysOfWeek { mask: 0x7f }
    }
}

/// A wall-clock moment in local time: a day index (days since 1970-01-01 in
/// the local calendar) and seconds within that day. Used for availability
/// windows, usage keying, and display; never for enforcement.
#[derive(Debug, Clone, Copy, PartialEq, Eq, Structural)]
pub struct WallTime {
    pub days: u64,
    pub secs: u32,
}

/// Upper bound on the day index: keeps all second arithmetic far from overflow.
pub const MAX_DAY_INDEX: u64 = 0x1000_0000;

impl WallTime {
    pub open spec fn wf(self) -> bool {
        self.secs < 86400 && self.days < MAX_DAY_INDEX
    }

    /// The moment as seconds since the day-zero midnight.
    pub open spec fn spec_total_secs(self) -> int {
        self.days * 86400 + self.secs
    }

    /// Weekday with 0 = Monday .. 6 = Sunday (day zero was a Thursday).
    pub open spec fn spec_weekday(self) -> int {
        (self.days + 3) % 7
    }

    pub fn new(days: u64, secs: u32) -> (r: Option<WallTime>)
        ensures
            r == if secs < 86400 && days < MAX_DAY_INDEX {
                Some(WallTime { days, secs })
            } else {
                None::<WallTime>
            },
            r is Some ==> r->0.wf(),
    {
        if secs < 86400 && days < MAX_DAY_INDEX {
            Some(WallTime { days, secs })
        } else {
            None
        }
    }

    pub fn weekday(&self) -> (r: u8)
        requires
            self.wf(),
        ensures
            r == self.spec_weekday(),
            r < 7,
    {
        ((self.days + 3) % 7) as u8
    }

    /// The same moment shifted `secs` seconds forward.
    pub fn plus_secs(&self, secs: u64) -> (r: WallTime)
        requires
            self.wf(),
            self.spec_total_secs() + secs < MAX_DAY_INDEX * 86400,
        ensures
            r.wf(),
            r.spec_total_secs() == self.spec_total_secs() + secs,
    {
        let total: u64 = self.secs as u64 + secs;
        let add_days: u64 = total / 86400;
        let new_secs: u64 = total % 86400;
        proof {
            assert(total == add_days * 86400 + new_secs) by {
                vstd::arithmetic::div_mod::lemma_fundamental_div_mod(total as int, 86400);
            }
            assert(self.days + add_days < MAX_DAY_INDEX);
        }
        WallTime { days: self.days + add_days, secs: new_secs as u32 }
    }

    pub fn is_before(&self, other: &WallTime) -> (r: bool)
        requires
            self.wf(),
            other.wf(),
        ensures
            r == (self.spec_total_secs() < other.spec_total_secs()),
    {
        self.days < other.days || (self.days == other.days && self.secs < other.secs)
    }

    /// Seconds within the day, truncated to minute granularity; availability
    /// windows compare at this resolution.
    pub open spec fn spec_minute_secs(self) -> int {
        (self.secs / 60) * 60
    }

    /// Whether shifting this moment by `secs` seconds stays representable.
    pub fn total_secs_fits(&self, secs: u64) -> (r: bool)
        requires
            self.wf(),
        ensures
            r == (self.spec_total_secs() + secs < MAX_DAY_INDEX * 86400),
    {
        let total: u64 = self.days * 86400 + (self.secs as u64);
        let limit: u64 = MAX_DAY_INDEX * 86400;
        total < limit && secs < limit - total
    }
}

/// A weekly window during which an entry is available. `start > end` denotes
/// a window that wraps past midnight.
#[derive(Debug, Clone, PartialEq, Eq, Structural)]
pub struct TimeWindow {
    pub days: DaysOfWeek,
    pub start: WallClock,
    pub end: WallClock,
}

impl TimeWindow {
    pub open spec fn wf(self) -> bool {
        self.start.wf() && self.end.wf()
    }

    /// Whether the moment falls inside the window: its weekday is in the day
    /// mask and its minute-truncated time of day lies between start and end,
    /// with the wrap-past-midnight reading when `start > end`.
    pub open spec fn spec_contains(self, t: WallTime) -> bool {
        &&& self.days.spec_contains(((t.days + 3) % 7) as u8)
        &&& {
            let now = t.spec_minute_secs();
            if self.start.spec_seconds() <= self.end.spec_seconds() {
                now >= self.start.spec_seconds() && now < self.end.spec_seconds()
            } else {
                now >= self.start.spec_seconds() || now < self.end.spec_seconds()
            }
        }
    }

    /// Seconds left in the window from the moment `t`, when `t` is inside it.
    pub open spec fn spec_remaining(self, t: WallTime) -> Option<int> {
        if !self.spec_contains(t) {
            None
        } else {
            let now = t.spec_minute_secs();
            let start = self.start.spec_seconds();
            let end = self.end.spec_seconds();
            if start <= end {
                Some(end - now)
            } else {
                if now >= start {
                    Some(86400 - now + end)
                } else {
                    Some(end - now)
                }
            }
        }
    }

    pub fn new(days: DaysOfWeek, start: WallClock, end: WallClock) -> (r: TimeWindow)
        ensures
            r == (TimeWindow { days, start, end }),
    {
        TimeWindow { days, start, end }
    }

    pub fn contains(&self, t: &WallTime) -> (r: bool)
        requires
            t.wf(),
        ensures
            r == self.spec_contains(*t),
    {
        let weekday = t.weekday();
        if !self.days.contains(weekday) {
            return false;
        }
        let now = (t.secs / 60) * 60;
        let start = self.start.as_seconds_from_midnight();
        let end = self.end.as_seconds_from_midnight();
        if start <= end {
            now >= start && now < end
        } else {
            now >= start || now < end
        }
    }

    pub fn remaining_duration(&self, t: &WallTime) -> (r: Option<u64>)
        requires
            t.wf(),
        ensures
            match r {
                Some(secs) => self.spec_remaining(*t) == Some(secs as int),
                None => self.spec_remaining(*t) is None,
            },
    {
        if !self.contains(t) {
            return None;
        }
        let now = (t.secs / 60) * 60;
        let start = self.start.as_seconds_from_midnight();
        let end = self.end.as_seconds_from_midnight();
        let remaining: u32 = if start <= end {
            end - now
        } else {
            if now >= start {
                (86400 - now) + end
            } else {
                end - now
            }
        };
        Some(remaining as u64)
    }
}

/// The character for one decimal digit.
pub open spec fn digit_char(d: int) -> char {
    if d == 0 {
        '0'
    } else if d == 1 {
        '1'
    } else if d == 2 {
        '2'
    } else if d == 3 {
        '3'
    } else if d == 4 {
        '4'
    } else if d == 5 {
        '5'
    } else if d == 6 {
        '6'
    } else if d == 7 {
        '7'
    } else if d == 8 {
        '8'
    } else {
        '9'
    }
}

/// The decimal representation of a non-negative number, without sign or
/// leading zeros (a lone zero for 0).
pub open spec fn spec_decimal(n: int) -> Seq<char>
    decreases n,
{
    if n < 10 {
        seq![digit_char(n)]
    } else {
        spec_decimal(n / 10).push(digit_char(n % 10))
    }
}

fn push_digit(s: &mut String, d: u8)
    requires
        d < 10,
    ensures
        final(s)@ == old(s)@ + seq![digit_char(d as int)],
{
    if d == 0 {
        s.append("0");
        proof {
            reveal_strlit("0");
            assert(final(s)@ =~= old(s)@ + seq![digit_char(d as int)]);
        }
    } else if d == 1 {
        s.append("1");
        proof {
            reveal_strlit("1");
            assert(final(s)@ =~= old(s)@ + seq![digit_char(d as int)]);
        }
    } else if d == 2 {
        s.append("2");
        proof {
            reveal_strlit("2");
            assert(final(s)@ =~= old(s)@ + seq![digit_char(d as int)]);
        }
    } else if d == 3 {
        s.append("3");
        proof {
            reveal_strlit("3");
            assert(final(s)@ =~= old(s)@ + seq![digit_char(d as int)]);
        }
    } else if d == 4 {
        s.append("4");
        proof {
            reveal_strlit("4");
            assert(final(s)@ =~= old(s)@ + seq![digit_char(d as int)]);
        }
    } else if d == 5 {
        s.append("5");
        proof {
            reveal_strlit("5");
            assert(final(s)@ =~= old(s)@ + seq![digit_char(d as int)]);
        }
    } else if d == 6 {
        s.append("6");
        proof {
            reveal_strlit("6");
            assert(final(s)@ =~= old(s)@ + seq![digit_char(d as int)]);
        }
    } else if d == 7 {
        s.append("7");
        proof {
            reveal_strlit("7");
            assert(final(s)@ =~= old(s)@ + seq![digit_char(d as int)]);
        }
    } else if d == 8 {
        s.append("8");
        proof {
            reveal_strlit("8");
            assert(final(s)@ =~= old(s)@ + seq![digit_char(d as int)]);
        }
    } else {
        s.append("9");
        proof {
            reveal_strlit("9");
            assert(final(s)@ =~= old(s)@ + seq![digit_char(d as int)]);
        }
    }
}

fn push_decimal(s: &mut String, n: u64)
    ensures
        final(s)@ == old(s)@ + spec_decimal(n as int),
    decreases n,
{
    if n < 10 {
        push_digit(s, n as u8);
    } else {
        assert(n / 10 < n);
        push_decimal(s, n / 10);
        push_digit(s, (n % 10) as u8);
        proof {
            assert(final(s)@ =~= old(s)@ + spec_decimal(n as int));
        }
    }
}

/// The decimal representation of `n` as a string.
pub fn decimal_string(n: u64) -> (r: String)
    ensures
        r@ == spec_decimal(n as int),
{
    let mut s = String::new();
    push_decimal(&mut s, n);
    proof {
        assert(s@ =~= spec_decimal(n as int));
    }
    s
}

/// What `format_duration` produces for a duration in whole seconds:
/// "Hh Mm Ss" above an hour, "Mm Ss" above a minute, else "Ss".
pub open spec fn spec_format_duration(total_secs: int) -> Seq<char> {
    let hours = total_secs / 3600;
    let minutes = (total_secs % 3600) / 60;
    let seconds = total_secs % 60;
    if hours > 0 {
        spec_decimal(hours) + seq!['h', ' '] + spec_decimal(minutes) + seq!['m', ' ']
            + spec_decimal(seconds) + seq!['s']
    } else if minutes > 0 {
        spec_decimal(minutes) + seq!['m', ' '] + spec_decimal(seconds) + seq!['s']
    } else {
        spec_decimal(seconds) + seq!['s']
    }
}

/// Renders a duration of whole seconds for display.
pub fn format_duration(total_secs: u64) -> (r: String)
    ensures
        r@ == spec_format_duration(total_secs as int),
{
    let hours = total_secs / 3600;
    let minutes = (total_secs % 3600) / 60;
    let seconds = total_secs % 60;
    let mut s = String::new();
    if hours > 0 {
        push_decimal(&mut s, hours);
        s.append("h ");
        push_decimal(&mut s, minutes);
        s.append("m ");
        push_decimal(&mut s, seconds);
        s.append("s");
        proof {
            reveal_strlit("h ");
            reveal_strlit("m ");
            reveal_strlit("s");
            assert(s@ =~= spec_format_duration(total_secs as int));
        }
    } else if minutes > 0 {
        push_decimal(&mut s, minutes);
        s.append("m ");
        push_decimal(&mut s, seconds);
        s.append("s");
        proof {
            reveal_strlit("m ");
            reveal_strlit("s");
            assert(s@ =~= spec_format_duration(total_secs as int));
        }
    } else {
        push_decimal(&mut s, seconds);
        s.append("s");
        proof {
            reveal_strlit("s");
            assert(s@ =~= spec_format_duration(total_secs as int));
        }
    }
    s
}

} // verus!
