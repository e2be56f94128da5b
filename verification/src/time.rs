//! Instants and signed spans of time, with the ranges and overflow rules of the
//! calendar library the bot stores its times with.

use vstd::prelude::*;
use std::time::{SystemTime, UNIX_EPOCH};

verus! {

pub const NANOS_PER_SEC: i128 = 1_000_000_000;

/// Seconds since the epoch of the earliest representable instant, -262143-01-01T00:00:00Z.
pub const MIN_TIMESTAMP_SECS: i64 = -8_334_601_228_800;

/// Seconds since the epoch of the last second that can be represented, +262142-12-31T23:59:59Z.
pub const MAX_TIMESTAMP_SECS: i64 = 8_210_266_876_799;

/// Nanoseconds since the epoch of the earliest representable instant.
pub open spec fn min_instant() -> int {
    MIN_TIMESTAMP_SECS as int * 1_000_000_000
}

/// Nanoseconds since the epoch of the latest representable instant.
pub open spec fn max_instant() -> int {
    MAX_TIMESTAMP_SECS as int * 1_000_000_000 + 999_999_999
}

/// An instant, counted in nanoseconds since the epoch, that a calendar time can hold.
pub open spec fn instant_in_range(n: int) -> bool {
    min_instant() <= n <= max_instant()
}

/// The largest span a time delta can hold: `i64::MAX` milliseconds, in nanoseconds.
pub open spec fn max_span() -> int {
    i64::MAX as int * 1_000_000
}

/// A span, in nanoseconds, that a time delta can hold.
pub open spec fn span_in_range(n: int) -> bool {
    -max_span() <= n <= max_span()
}

/// Division that rounds toward zero, as integer division does in Rust.
pub open spec fn trunc_div(a: int, b: int) -> int
    recommends
        b > 0,
{
    if a >= 0 {
        a / b
    } else {
        -((-a) / b)
    }
}

/// An instant in UTC, without leap seconds.
#[derive(Clone, Copy, Debug, PartialEq, Eq, Structural)]
pub struct Timestamp {
    nanos: i128,
}

impl View for Timestamp {
    type V = int;

    /// Nanoseconds since the Unix epoch.
    closed spec fn view(&self) -> int {
        self.nanos as int
    }
}

/// A signed span of time.
#[derive(Clone, Copy, Debug, PartialEq, Eq, Structural)]
pub struct Delta {
    nanos: i128,
}

impl View for Delta {
    type V = int;

    /// The span in nanoseconds.
    closed spec fn view(&self) -> int {
        self.nanos as int
    }
}

#[verifier::external_type_specification]
#[verifier::external_body]
pub struct ExSystemTime(std::time::SystemTime);

/// Reads the system clock.
///
/// Calls `SystemTime::now`. Nothing is claimed of the reading, which is the time.
#[verifier::external_body]
fn system_clock() -> SystemTime {
    SystemTime::now()
}

/// How long after the Unix epoch `t` lies, in whole seconds and subsecond
/// nanoseconds, or `None` when `t` lies before the epoch.
///
/// Calls `SystemTime::duration_since(UNIX_EPOCH)`. Claimed: the nanoseconds are below
/// one second (a `Duration` keeps them so). Which duration comes back depends on the
/// clock reading and is left unsaid.
#[verifier::external_body]
fn since_epoch(t: &SystemTime) -> (r: Option<(u64, u32)>)
    ensures
        r matches Some(p) ==> p.1 < 1_000_000_000,
{
    t.duration_since(UNIX_EPOCH).ok().map(|d| (d.as_secs(), d.subsec_nanos()))
}

impl Timestamp {
    /// Every timestamp lies in the range a calendar time can hold.
    #[verifier::type_invariant]
    pub open spec fn valid(self) -> bool {
        instant_in_range(self@)
    }

    /// The instant `secs` seconds and `subsec_nanos` nanoseconds after the epoch,
    /// if a calendar time can hold it.
    pub fn from_parts(secs: i64, subsec_nanos: u32) -> (r: Option<Timestamp>)
        ensures
            r is Some <==> (subsec_nanos < 1_000_000_000 && MIN_TIMESTAMP_SECS <= secs
                <= MAX_TIMESTAMP_SECS),
            r matches Some(t) ==> t@ == secs as int * 1_000_000_000 + subsec_nanos as int,
    {
        if subsec_nanos < 1_000_000_000 && MIN_TIMESTAMP_SECS <= secs && secs
            <= MAX_TIMESTAMP_SECS {
            Some(Timestamp { nanos: secs as i128 * NANOS_PER_SEC + subsec_nanos as i128 })
        } else {
            None
        }
    }

    /// The instant of a clock reading taken as whole seconds and subsecond nanoseconds
    /// after the Unix epoch; `None` when there is no reading (the clock reads before the
    /// epoch), when the nanoseconds are not below one second, or when the reading lies
    /// past the last representable instant.
    pub fn from_clock_reading(reading: Option<(u64, u32)>) -> (r: Option<Timestamp>)
        ensures
            r is Some <==> (reading matches Some(p) && p.1 < 1_000_000_000 && p.0
                <= MAX_TIMESTAMP_SECS),
            r matches Some(t) ==> (reading matches Some(p) && t@ == p.0 as int * 1_000_000_000
                + p.1 as int),
    {
        match reading {
            None => None,
            Some((secs, subsec)) => {
                if secs <= MAX_TIMESTAMP_SECS as u64 {
                    Timestamp::from_parts(secs as i64, subsec)
                } else {
                    None
                }
            },
        }
    }

    /// The current time, read from the system clock; `None` when the clock reads before
    /// the Unix epoch or past the last representable instant.
    pub fn now() -> (r: Option<Timestamp>)
        ensures
            r matches Some(t) ==> t@ >= 0,
    {
        Timestamp::from_clock_reading(since_epoch(&system_clock()))
    }

    /// Whole seconds since the epoch, rounded down.
    pub fn secs(&self) -> (r: i64)
        ensures
            r as int == self@ / 1_000_000_000,
    {
        proof {
            use_type_invariant(self);
        }
        let (s, _) = split_nanos(self.nanos);
        s
    }

    /// The nanoseconds past the whole second.
    pub fn subsec_nanos(&self) -> (r: u32)
        ensures
            r as int == self@ % 1_000_000_000,
    {
        proof {
            use_type_invariant(self);
        }
        let (_, n) = split_nanos(self.nanos);
        n
    }

    /// `self + d`, or `None` where the calendar time would overflow
    /// (where `DateTime + TimeDelta` panics).
    pub fn checked_add(&self, d: Delta) -> (r: Option<Timestamp>)
        ensures
            r is Some <==> instant_in_range(self@ + d@),
            r matches Some(t) ==> t@ == self@ + d@,
    {
        proof {
            use_type_invariant(self);
            use_type_invariant(&d);
        }
        let sum = self.nanos + d.nanos;
        if min_instant_nanos() <= sum && sum <= max_instant_nanos() {
            Some(Timestamp { nanos: sum })
        } else {
            None
        }
    }

    /// `self - d`, or `None` where the calendar time would overflow
    /// (where `DateTime - TimeDelta` panics).
    pub fn checked_sub(&self, d: Delta) -> (r: Option<Timestamp>)
        ensures
            r is Some <==> instant_in_range(self@ - d@),
            r matches Some(t) ==> t@ == self@ - d@,
    {
        proof {
            use_type_invariant(self);
            use_type_invariant(&d);
        }
        let diff = self.nanos - d.nanos;
        if min_instant_nanos() <= diff && diff <= max_instant_nanos() {
            Some(Timestamp { nanos: diff })
        } else {
            None
        }
    }

    /// The span from `earlier` to `self` (`self - earlier`).
    pub fn since(&self, earlier: &Timestamp) -> (r: Delta)
        ensures
            r@ == self@ - earlier@,
    {
        proof {
            use_type_invariant(self);
            use_type_invariant(earlier);
        }
        Delta { nanos: self.nanos - earlier.nanos }
    }

    /// Whether `self` is strictly later than `other`.
    pub fn is_after(&self, other: &Timestamp) -> (r: bool)
        ensures
            r == (self@ > other@),
    {
        self.nanos > other.nanos
    }
}

fn min_instant_nanos() -> (r: i128)
    ensures
        r == min_instant(),
{
    MIN_TIMESTAMP_SECS as i128 * NANOS_PER_SEC
}

fn max_instant_nanos() -> (r: i128)
    ensures
        r == max_instant(),
{
    MAX_TIMESTAMP_SECS as i128 * NANOS_PER_SEC + 999_999_999
}

/// Splits nanoseconds since the epoch into whole seconds (rounded down) and the rest.
fn split_nanos(t: i128) -> (r: (i64, u32))
    requires
        instant_in_range(t as int),
    ensures
        r.0 as int == t as int / 1_000_000_000,
        r.1 as int == t as int % 1_000_000_000,
        r.0 as int * 1_000_000_000 + r.1 as int == t as int,
{
    if t >= 0 {
        let q = t / NANOS_PER_SEC;
        let m = t % NANOS_PER_SEC;
        (q as i64, m as u32)
    } else {
        let a = -t;
        let q = a / NANOS_PER_SEC;
        let m = a % NANOS_PER_SEC;
        if m == 0 {
            proof {
                assert((t as int) / 1_000_000_000 == -(q as int)) by (nonlinear_arith)
                    requires
                        a == -t,
                        a as int == q as int * 1_000_000_000,
                ;
                assert((t as int) % 1_000_000_000 == 0) by (nonlinear_arith)
                    requires
                        a == -t,
                        a as int == q as int * 1_000_000_000,
                ;
            }
            (-q as i64, 0)
        } else {
            proof {
                assert((t as int) / 1_000_000_000 == -(q as int) - 1 && (t as int) % 1_000_000_000
                    == 1_000_000_000 - m) by (nonlinear_arith)
                    requires
                        a == -t,
                        a as int == q as int * 1_000_000_000 + m as int,
                        0 < m < 1_000_000_000,
                ;
            }
            ((-q - 1) as i64, (NANOS_PER_SEC - m) as u32)
        }
    }
}

impl Delta {
    /// Every delta lies in the range a time delta can hold.
    #[verifier::type_invariant]
    pub open spec fn valid(self) -> bool {
        span_in_range(self@)
    }

    /// A span of `hours` hours, or `None` where `TimeDelta::hours` would panic
    /// (when the span exceeds `i64::MAX` milliseconds).
    pub fn try_hours(hours: i64) -> (r: Option<Delta>)
        ensures
            r is Some <==> span_in_range(hours as int * 3_600_000_000_000),
            r matches Some(d) ==> d@ == hours as int * 3_600_000_000_000,
    {
        let n = hours as i128 * 3_600_000_000_000i128;
        if -max_span_nanos() <= n && n <= max_span_nanos() {
            Some(Delta { nanos: n })
        } else {
            None
        }
    }

    /// A span of `minutes` minutes, or `None` where `TimeDelta::minutes` would panic.
    pub fn try_minutes(minutes: i64) -> (r: Option<Delta>)
        ensures
            r is Some <==> span_in_range(minutes as int * 60_000_000_000),
            r matches Some(d) ==> d@ == minutes as int * 60_000_000_000,
    {
        let n = minutes as i128 * 60_000_000_000i128;
        if -max_span_nanos() <= n && n <= max_span_nanos() {
            Some(Delta { nanos: n })
        } else {
            None
        }
    }

    /// Whole seconds in the span, rounded toward zero.
    pub fn num_seconds(&self) -> (r: i64)
        ensures
            r as int == trunc_div(self@, 1_000_000_000),
    {
        proof {
            use_type_invariant(self);
        }
        if self.nanos >= 0 {
            (self.nanos / NANOS_PER_SEC) as i64
        } else {
            (-((-self.nanos) / NANOS_PER_SEC)) as i64
        }
    }

    /// Whole hours in the span, rounded toward zero.
    pub fn num_hours(&self) -> (r: i64)
        ensures
            r as int == trunc_div(trunc_div(self@, 1_000_000_000), 3600),
    {
        proof {
            use_type_invariant(self);
        }
        let s = self.num_seconds();
        if s >= 0 {
            s / 3600
        } else {
            -((-s) / 3600)
        }
    }

    /// Whole minutes in the span, rounded toward zero.
    pub fn num_minutes(&self) -> (r: i64)
        ensures
            r as int == trunc_div(trunc_div(self@, 1_000_000_000), 60),
    {
        proof {
            use_type_invariant(self);
        }
        let s = self.num_seconds();
        if s >= 0 {
            s / 60
        } else {
            -((-s) / 60)
        }
    }

    /// The span as whole seconds and subsecond nanoseconds, or `None` when it is
    /// negative (where `TimeDelta::to_std` fails).
    pub fn to_std(&self) -> (r: Option<(u64, u32)>)
        ensures
            r is Some <==> self@ >= 0,
            r matches Some(p) ==> p.0 as int == self@ / 1_000_000_000 && p.1 as int == self@
                % 1_000_000_000,
    {
        proof {
            use_type_invariant(self);
        }
        if self.nanos >= 0 {
            Some(((self.nanos / NANOS_PER_SEC) as u64, (self.nanos % NANOS_PER_SEC) as u32))
        } else {
            None
        }
    }

    /// Whether `self` is a shorter (or more negative) span than `other`.
    pub fn is_less_than(&self, other: &Delta) -> (r: bool)
        ensures
            r == (self@ < other@),
    {
        self.nanos < other.nanos
    }
}

/// How `humantime::format_duration` writes a duration of `secs` seconds and `nanos`
/// nanoseconds (for example `2h 37m`).
pub uninterp spec fn humantime_text(secs: u64, nanos: u32) -> Seq<char>;

/// Writes a duration in words.
///
/// Calls `humantime::format_duration` on `Duration::new(secs, nanos)` and displays it.
/// Claimed: the text is a function of the two arguments alone, named `humantime_text`;
/// how it reads is left unsaid. `nanos` is kept below one second so that the
/// duration is built without carrying into the seconds.
#[verifier::external_body]
fn format_duration(secs: u64, nanos: u32) -> (r: String)
    requires
        nanos < 1_000_000_000,
    ensures
        r@ == humantime_text(secs, nanos),
{
    humantime::format_duration(std::time::Duration::new(secs, nanos)).to_string()
}

/// The text `humantime` writes for a span, or `None` for a negative span (where the
/// span cannot become a `std::time::Duration`).
pub open spec fn span_text(d: int) -> Option<Seq<char>> {
    if d >= 0 {
        Some(humantime_text((d / 1_000_000_000) as u64, (d % 1_000_000_000) as u32))
    } else {
        None
    }
}

impl Delta {
    /// The span in words, as `format_duration(span.to_std().unwrap())` writes it, or
    /// `None` where that unwrap fails (a negative span).
    pub fn format(&self) -> (r: Option<String>)
        ensures
            r is Some <==> self@ >= 0,
            r matches Some(s) ==> Some(s@) == span_text(self@),
    {
        match self.to_std() {
            Some((secs, nanos)) => Some(format_duration(secs, nanos)),
            None => None,
        }
    }
}

fn max_span_nanos() -> (r: i128)
    ensures
        r == max_span(),
{
    i64::MAX as i128 * 1_000_000
}

} // verus!
