//! Points in time as plain integers.
//!
//! A [`Timestamp`] is an instant on the UTC time line, a [`ZonedTime`] is an
//! instant together with the local offset that was in force at it, and a
//! [`ClockTime`] is a time of day. Their arithmetic follows `chrono`, whose
//! values they stand for, including its representation of a leap second as a
//! sub-second part of a billion nanoseconds or more.

use vstd::prelude::*;

verus! {

/// Seconds in a civil day.
pub const DAY_SECONDS: i64 = 86_400;

/// Nanoseconds in a second; a sub-second part at or above it marks a leap second.
pub const SECOND_NANOS: u32 = 1_000_000_000;

/// Largest distance from the epoch, in seconds, that the instant of a
/// [`ZonedTime`] may have. It lies well within the dates that `chrono` holds.
pub const MAX_EPOCH_SECONDS: i64 = 8_000_000_000_000;

/// Whole seconds that adding `delta` seconds moves an instant by, seen from the
/// second it lies in: an instant inside a leap second first leaves that second.
pub open spec fn leap_adjusted(nanos: u32, delta: int) -> int {
    if nanos >= SECOND_NANOS && delta < 0 {
        delta + 1
    } else {
        delta
    }
}

/// Sub-second part of an instant after `delta` whole seconds were added.
pub open spec fn nanos_after(nanos: u32, delta: int) -> u32 {
    if nanos >= SECOND_NANOS && delta != 0 {
        (nanos - SECOND_NANOS) as u32
    } else {
        nanos
    }
}

/// An instant: seconds since the Unix epoch and the nanoseconds within that second.
#[derive(Clone, Copy, Debug, PartialEq, Eq, Structural)]
pub struct Timestamp {
    pub secs: i64,
    pub nanos: u32,
}

impl Timestamp {
    /// The sub-second part is one that `chrono` can hold.
    pub open spec fn wf(self) -> bool {
        self.nanos < 2 * SECOND_NANOS
    }

    /// The instant lies in the span of dates that a [`ZonedTime`] may have.
    pub open spec fn in_span(self) -> bool {
        -MAX_EPOCH_SECONDS <= self.secs <= MAX_EPOCH_SECONDS
    }

    /// `self` lies strictly before `other`.
    pub open spec fn before(self, other: Timestamp) -> bool {
        self.secs < other.secs || (self.secs == other.secs && self.nanos < other.nanos)
    }

    /// `self` lies before `other` or is the same instant.
    pub open spec fn at_or_before(self, other: Timestamp) -> bool {
        self.before(other) || self == other
    }

    /// The instant `delta` whole seconds away.
    pub open spec fn shifted(self, delta: int) -> (int, u32) {
        (self.secs + leap_adjusted(self.nanos, delta), nanos_after(self.nanos, delta))
    }

    /// Whether the instant `delta` seconds away can be written with 64 bits.
    pub open spec fn can_shift(self, delta: int) -> bool {
        i64::MIN <= self.shifted(delta).0 <= i64::MAX
    }

    /// Whether `self` lies strictly before `other`.
    pub fn is_before(&self, other: &Timestamp) -> (r: bool)
        ensures
            r == self.before(*other),
    {
        self.secs < other.secs || (self.secs == other.secs && self.nanos < other.nanos)
    }

    /// Whether `self` lies before `other` or is the same instant.
    pub fn is_at_or_before(&self, other: &Timestamp) -> (r: bool)
        ensures
            r == self.at_or_before(*other),
    {
        self.secs < other.secs || (self.secs == other.secs && self.nanos <= other.nanos)
    }

    /// Adds `delta` whole seconds as `chrono` adds a duration to a date and
    /// time, or gives `None` where the seconds would not fit.
    pub fn plus_seconds(&self, delta: i64) -> (r: Option<Timestamp>)
        requires
            self.wf(),
        ensures
            r.is_some() == self.can_shift(delta as int),
            r matches Some(t) ==> t.wf() && (t.secs as int, t.nanos) == self.shifted(delta as int),
    {
        let leap: bool = self.nanos >= SECOND_NANOS;
        let step: i64 = if leap && delta < 0 { delta + 1 } else { delta };
        let nanos: u32 = if leap && delta != 0 { self.nanos - SECOND_NANOS } else { self.nanos };
        match self.secs.checked_add(step) {
            Some(secs) => Some(Timestamp { secs, nanos }),
            None => None,
        }
    }
}

/// An instant together with the local offset from UTC, in seconds east, that
/// was in force at it.
#[derive(Clone, Copy, Debug, PartialEq, Eq, Structural)]
pub struct ZonedTime {
    pub at: Timestamp,
    pub offset: i32,
}

/// A time of day: seconds since local midnight and the nanoseconds within that second.
#[derive(Clone, Copy, Debug, PartialEq, Eq, Structural)]
pub struct ClockTime {
    pub secs: u32,
    pub nanos: u32,
}

/// Days that the exec code adds before it divides, so that it divides a
/// number that is not negative.
const DAY_SHIFT: i64 = 100_000_000;

impl ZonedTime {
    /// The instant is one that `chrono` can hold as a local date and time.
    pub open spec fn wf(self) -> bool {
        &&& self.at.wf()
        &&& self.at.in_span()
        &&& -DAY_SECONDS < self.offset < DAY_SECONDS
    }

    /// Seconds since the epoch as a local clock counts them.
    pub open spec fn local_seconds(self) -> int {
        self.at.secs + self.offset
    }

    /// The local calendar day, as a count of days since the epoch's day.
    pub open spec fn local_day(self) -> int {
        self.local_seconds() / (DAY_SECONDS as int)
    }

    /// Seconds since local midnight.
    pub open spec fn second_of_day(self) -> int {
        self.local_seconds() % (DAY_SECONDS as int)
    }

    /// The local minute, as a count of minutes since the epoch's local midnight.
    pub open spec fn local_minute(self) -> int {
        self.local_seconds() / 60
    }

    /// The local time of day.
    pub open spec fn clock(self) -> ClockTime {
        ClockTime { secs: self.second_of_day() as u32, nanos: self.at.nanos }
    }

    /// Both lie on the same local calendar day.
    pub open spec fn same_day(self, other: ZonedTime) -> bool {
        self.local_day() == other.local_day()
    }

    /// Both lie in the same local minute.
    pub open spec fn same_minute(self, other: ZonedTime) -> bool {
        self.local_minute() == other.local_minute()
    }

    /// Local seconds moved up by a whole number of days, so that they are positive.
    fn raised_seconds(&self) -> (r: i64)
        requires
            self.wf(),
        ensures
            r == self.local_seconds() + DAY_SHIFT * DAY_SECONDS,
            0 < r < 2 * DAY_SHIFT * DAY_SECONDS,
    {
        self.at.secs + (self.offset as i64) + DAY_SHIFT * DAY_SECONDS
    }

    /// The local calendar day, counted from the day of the epoch.
    pub fn day_number(&self) -> (r: i64)
        requires
            self.wf(),
        ensures
            r == self.local_day(),
    {
        let raised: i64 = self.raised_seconds();
        let q: i64 = raised / DAY_SECONDS;
        proof {
            lemma_raised_division(self.local_seconds(), DAY_SECONDS as int, DAY_SHIFT as int);
        }
        q - DAY_SHIFT
    }

    /// Seconds since local midnight.
    pub fn seconds_from_midnight(&self) -> (r: u32)
        requires
            self.wf(),
        ensures
            r == self.second_of_day(),
            r < DAY_SECONDS,
    {
        let raised: i64 = self.raised_seconds();
        let m: i64 = raised % DAY_SECONDS;
        proof {
            lemma_raised_division(self.local_seconds(), DAY_SECONDS as int, DAY_SHIFT as int);
        }
        m as u32
    }

    /// The local minute, counted from the epoch's local midnight.
    pub fn minute_number(&self) -> (r: i64)
        requires
            self.wf(),
        ensures
            r == self.local_minute(),
    {
        let raised: i64 = self.raised_seconds();
        let q: i64 = raised / 60;
        proof {
            lemma_raised_division(self.local_seconds(), 60, DAY_SHIFT * 1440);
        }
        q - DAY_SHIFT * 1440
    }

    /// The local time of day.
    pub fn time(&self) -> (r: ClockTime)
        requires
            self.wf(),
        ensures
            r == self.clock(),
            r.wf(),
    {
        ClockTime { secs: self.seconds_from_midnight(), nanos: self.at.nanos }
    }

    /// Whether both lie on the same local calendar day.
    pub fn is_same_day(&self, other: &ZonedTime) -> (r: bool)
        requires
            self.wf(),
            other.wf(),
        ensures
            r == self.same_day(*other),
    {
        self.day_number() == other.day_number()
    }

    /// Whether both lie in the same local minute.
    pub fn is_same_minute(&self, other: &ZonedTime) -> (r: bool)
        requires
            self.wf(),
            other.wf(),
        ensures
            r == self.same_minute(*other),
    {
        self.minute_number() == other.minute_number()
    }
}

/// Dividing after adding `k` times the divisor gives the quotient raised by
/// `k` and the same remainder.
pub proof fn lemma_raised_division(x: int, d: int, k: int)
    requires
        d > 0,
    ensures
        (x + k * d) / d == x / d + k,
        (x + k * d) % d == x % d,
{
    vstd::arithmetic::div_mod::lemma_fundamental_div_mod(x, d);
    vstd::arithmetic::div_mod::lemma_mod_bound(x, d);
    let q = x / d + k;
    let r = x % d;
    assert(q * d == (x / d) * d + k * d) by (nonlinear_arith)
        requires
            q == x / d + k,
    ;
    assert(d * (x / d) == (x / d) * d) by (nonlinear_arith);
    assert(x + k * d == q * d + r);
    vstd::arithmetic::div_mod::lemma_fundamental_div_mod_converse(x + k * d, d, q, r);
}

impl ClockTime {
    /// The time is one that `chrono` can hold.
    pub open spec fn wf(self) -> bool {
        &&& self.secs < DAY_SECONDS
        &&& self.nanos < 2 * SECOND_NANOS
    }

    /// `self` is earlier in the day than `other`.
    pub open spec fn before(self, other: ClockTime) -> bool {
        self.secs < other.secs || (self.secs == other.secs && self.nanos < other.nanos)
    }

    /// The time of day `delta` whole seconds on, going round at midnight.
    pub open spec fn shifted(self, delta: int) -> ClockTime {
        ClockTime {
            secs: ((self.secs + leap_adjusted(self.nanos, delta)) % (DAY_SECONDS as int)) as u32,
            nanos: nanos_after(self.nanos, delta),
        }
    }

    /// Whether `self` is earlier in the day than `other`.
    pub fn is_before(&self, other: &ClockTime) -> (r: bool)
        ensures
            r == self.before(*other),
    {
        self.secs < other.secs || (self.secs == other.secs && self.nanos < other.nanos)
    }

    /// The time of day `minutes` minutes on, going round at midnight.
    pub fn plus_minutes(&self, minutes: i64) -> (r: ClockTime)
        requires
            self.wf(),
        ensures
            r == self.shifted(minutes * 60),
            r.wf(),
    {
        // Whole days change nothing: what counts is the rest, moved into 0..1440.
        let rest: i64 = minutes % 1440;
        let turn: i64 = if rest < 0 { rest + 1440 } else { rest };
        let leap: bool = self.nanos >= SECOND_NANOS;
        let step: i64 = if leap && minutes < 0 { turn * 60 + 1 } else { turn * 60 };
        let sum: i64 = (self.secs as i64) + step;
        let secs: i64 = sum % DAY_SECONDS;
        let nanos: u32 = if leap && minutes != 0 { self.nanos - SECOND_NANOS } else { self.nanos };
        proof {
            let whole = (minutes as int - turn as int) / 1440;
            assert(minutes as int == turn + whole * 1440) by {
                vstd::arithmetic::div_mod::lemma_fundamental_div_mod(minutes as int, 1440);
            }
            assert(minutes * 60 == turn * 60 + (whole * 1440) * 60);
            assert((whole * 1440) * 60 == whole * 86_400) by (nonlinear_arith);
            lemma_raised_division(sum as int, DAY_SECONDS as int, whole);
        }
        ClockTime { secs: secs as u32, nanos }
    }
}

/// The error that `chrono` gives for a text it cannot read as a time.
#[verifier::external_type_specification]
#[verifier::external_body]
pub struct ExParseError(chrono::ParseError);

/// What `chrono` reads from a text as an instant on the UTC time line: the
/// seconds since the epoch and the nanoseconds within the second, or `None`
/// where it refuses the text.
pub uninterp spec fn utc_instant_read(text: Seq<char>) -> Option<(i64, u32)>;

/// What `chrono` reads from a text as a time of day under a format: the seconds
/// since midnight and the nanoseconds within the second, or `None` where it
/// refuses the text.
pub uninterp spec fn time_of_day_read(text: Seq<char>, format: Seq<char>) -> Option<(u32, u32)>;

/// Calls `str::parse::<chrono::DateTime<chrono::Utc>>`, which reads a relaxed
/// form of RFC 3339 and depends on the text alone. The instant is given as
/// `DateTime::timestamp` and `DateTime::timestamp_subsec_nanos` report it; the
/// latter stays below two billion, a leap second included.
#[verifier::external_body]
pub(crate) fn read_utc_instant(text: &str) -> (r: Result<Timestamp, chrono::ParseError>)
    ensures
        match r {
            Ok(t) => utc_instant_read(text@) == Some((t.secs, t.nanos)) && t.nanos < 2
                * SECOND_NANOS,
            Err(_) => utc_instant_read(text@).is_none(),
        },
{
    match text.parse::<chrono::DateTime<chrono::Utc>>() {
        Ok(t) => Ok(Timestamp { secs: t.timestamp(), nanos: t.timestamp_subsec_nanos() }),
        Err(e) => Err(e),
    }
}

/// Calls `chrono::NaiveTime::parse_from_str`, which depends on the text and the
/// format alone. The time is given as `num_seconds_from_midnight` and
/// `nanosecond` report it: below 86 400 and below two billion.
#[verifier::external_body]
pub(crate) fn read_time_of_day(text: &str, format: &str) -> (r: Result<
    ClockTime,
    chrono::ParseError,
>)
    ensures
        match r {
            Ok(t) => time_of_day_read(text@, format@) == Some((t.secs, t.nanos)) && t.wf(),
            Err(_) => time_of_day_read(text@, format@).is_none(),
        },
{
    match chrono::NaiveTime::parse_from_str(text, format) {
        Ok(t) => Ok(
            ClockTime {
                secs: chrono::Timelike::num_seconds_from_midnight(&t),
                nanos: chrono::Timelike::nanosecond(&t),
            },
        ),
        Err(e) => Err(e),
    }
}

/// Calls `Display` for `chrono::ParseError`: the words in which `chrono`
/// explains why it refused a text. Nothing is claimed of them.
#[verifier::external_body]
pub(crate) fn parse_error_text(error: &chrono::ParseError) -> (r: String) {
    error.to_string()
}

/// Calls `chrono::TimeZone::timestamp_opt` on `chrono::Local`, for the start
/// of the second `secs`, and reports the offset of the result in seconds east
/// of UTC. Which offset that is depends on the machine's time zone; `chrono`
/// keeps every offset strictly within a day. For seconds that `chrono` can
/// hold as a date the call yields a single time.
#[verifier::external_body]
pub(crate) fn local_offset_at(secs: i64) -> (r: i32)
    requires
        -MAX_EPOCH_SECONDS <= secs <= MAX_EPOCH_SECONDS,
    ensures
        -DAY_SECONDS < r < DAY_SECONDS,
{
    chrono::TimeZone::timestamp_opt(&chrono::Local, secs, 0).unwrap().offset().local_minus_utc()
}

impl ZonedTime {
    /// The instant as the local clock of this machine shows it.
    pub fn localized(at: Timestamp) -> (r: ZonedTime)
        requires
            at.wf(),
            at.in_span(),
        ensures
            r.at == at,
            r.wf(),
    {
        ZonedTime { at, offset: local_offset_at(at.secs) }
    }

    /// Whether the instant `minutes` minutes away still lies in the span of dates.
    pub open spec fn can_shift(self, minutes: int) -> bool {
        -MAX_EPOCH_SECONDS <= self.at.shifted(minutes * 60).0 <= MAX_EPOCH_SECONDS
    }

    /// The local time `minutes` minutes away, or `None` where that instant
    /// leaves the span of dates. The offset of the result is the one in force
    /// there.
    pub fn plus_minutes(&self, minutes: i64) -> (r: Option<ZonedTime>)
        requires
            self.wf(),
        ensures
            r.is_some() == self.can_shift(minutes as int),
            r matches Some(z) ==> z.wf() && (z.at.secs as int, z.at.nanos) == self.at.shifted(
                minutes * 60,
            ),
    {
        if minutes > MAX_EPOCH_SECONDS || minutes < -MAX_EPOCH_SECONDS {
            return None;
        }
        match self.at.plus_seconds(minutes * 60) {
            Some(at) => {
                if at.secs < -MAX_EPOCH_SECONDS || at.secs > MAX_EPOCH_SECONDS {
                    None
                } else {
                    Some(ZonedTime::localized(at))
                }
            },
            None => None,
        }
    }
}

} // verus!
