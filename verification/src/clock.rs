//! Ages of commits, on the clock and the durations of the `time` crate.
//!
//! An instant is a number of nanoseconds since the Unix epoch.

use vstd::prelude::*;

use crate::text::decimal_text;

verus! {

/// The Unix timestamp of the first second that a date of the `time` crate can
/// hold: midnight of 1 January of the year -9999. This is the range of the crate
/// without its feature `large-dates`, which must be off in the whole build.
pub const MIN_TIMESTAMP: i64 = -377_705_116_800;

/// The Unix timestamp of the last second that a date of the `time` crate can
/// hold: the one before the end of the year 9999, again without the feature
/// `large-dates`.
pub const MAX_TIMESTAMP: i64 = 253_402_300_799;

/// The nanoseconds in a second.
pub const SECOND: i128 = 1_000_000_000;

/// The nanoseconds in a minute.
pub const MINUTE: i128 = 60_000_000_000;

/// The nanoseconds in an hour.
pub const HOUR: i128 = 3_600_000_000_000;

/// The nanoseconds in a day.
pub const DAY: i128 = 86_400_000_000_000;

/// Whether a Unix timestamp is one that a date can hold.
pub open spec fn is_timestamp(seconds: int) -> bool {
    MIN_TIMESTAMP <= seconds <= MAX_TIMESTAMP
}

/// Whether an instant lies in a second that a date can hold.
pub open spec fn is_instant(nanos: int) -> bool {
    MIN_TIMESTAMP * SECOND <= nanos < (MAX_TIMESTAMP + 1) * SECOND
}

/// The quotient rounded towards zero.
pub open spec fn truncated_quotient(dividend: int, divisor: int) -> int
    recommends
        divisor > 0,
{
    if dividend >= 0 {
        dividend / divisor
    } else {
        -((-dividend) / divisor)
    }
}

/// A length of time, negative where it leads into the past. Its whole seconds
/// and the nanoseconds beyond them never differ in sign.
#[derive(Clone, Copy, Debug, PartialEq, Eq, Structural)]
pub struct Span {
    pub seconds: i64,
    pub nanoseconds: i32,
}

impl Span {
    pub open spec fn wf(self) -> bool {
        &&& -SECOND < self.nanoseconds < SECOND
        &&& self.seconds > 0 ==> self.nanoseconds >= 0
        &&& self.seconds < 0 ==> self.nanoseconds <= 0
    }

    /// The whole length in nanoseconds.
    pub open spec fn nanos(self) -> int {
        self.seconds * SECOND + self.nanoseconds
    }
}

#[verifier::external_type_specification]
#[verifier::external_body]
pub struct ExComponentRange(time::error::ComponentRange);

/// Calls `time::OffsetDateTime::from_unix_timestamp`: it succeeds exactly on
/// the timestamps that a date can hold, and gives the instant at which that
/// second begins, which is handed out in nanoseconds since the epoch. The range
/// is the one that the crate has without its feature `large-dates`.
#[verifier::external_body]
fn from_unix_timestamp(timestamp: i64) -> (instant: Result<i128, time::error::ComponentRange>)
    ensures
        instant is Ok <==> is_timestamp(timestamp as int),
        instant matches Ok(nanos) ==> nanos == timestamp * SECOND,
{
    match time::OffsetDateTime::from_unix_timestamp(timestamp) {
        Ok(instant) => Ok(instant.unix_timestamp_nanos()),
        Err(error) => Err(error),
    }
}

/// Calls `time::OffsetDateTime::now_utc`: the instant that the system clock
/// shows, about which nothing is known but that a date can hold it. On a clock
/// that stands outside the years that a date can hold, the call panics.
#[verifier::external_body]
pub(crate) fn now_utc() -> (instant: i128)
    ensures
        is_instant(instant as int),
{
    time::OffsetDateTime::now_utc().unix_timestamp_nanos()
}

/// Calls the subtraction of `time::OffsetDateTime`: the exact length of time
/// from one instant to another.
#[verifier::external_body]
fn difference(later: i128, earlier: i128) -> (span: Span)
    requires
        is_instant(later as int),
        is_instant(earlier as int),
    ensures
        span.wf(),
        span.nanos() == later - earlier,
{
    let later = time::OffsetDateTime::from_unix_timestamp_nanos(later).unwrap();
    let earlier = time::OffsetDateTime::from_unix_timestamp_nanos(earlier).unwrap();
    let duration = later - earlier;
    Span { seconds: duration.whole_seconds(), nanoseconds: duration.subsec_nanoseconds() }
}

/// Calls `time::Duration::hours`: the length of a number of hours.
#[verifier::external_body]
fn hours(count: i64) -> (span: Span)
    requires
        i64::MIN <= count * 3_600 <= i64::MAX,
    ensures
        span == (Span { seconds: (count * 3_600) as i64, nanoseconds: 0 }),
{
    let duration = time::Duration::hours(count);
    Span { seconds: duration.whole_seconds(), nanoseconds: duration.subsec_nanoseconds() }
}

/// Calls `time::Duration::days`: the length of a number of days.
#[verifier::external_body]
fn days(count: i64) -> (span: Span)
    requires
        i64::MIN <= count * 86_400 <= i64::MAX,
    ensures
        span == (Span { seconds: (count * 86_400) as i64, nanoseconds: 0 }),
{
    let duration = time::Duration::days(count);
    Span { seconds: duration.whole_seconds(), nanoseconds: duration.subsec_nanoseconds() }
}

/// Calls the `<` of `time::Duration`: it compares the two lengths, where a
/// negative one is shorter than any other that is not.
#[verifier::external_body]
fn is_shorter(span: Span, other: Span) -> (shorter: bool)
    requires
        span.wf(),
        other.wf(),
    ensures
        shorter == (span.nanos() < other.nanos()),
{
    time::Duration::new(span.seconds, span.nanoseconds)
        < time::Duration::new(other.seconds, other.nanoseconds)
}

/// Calls `time::Duration::whole_minutes`: the minutes in the whole seconds,
/// rounded towards zero.
#[verifier::external_body]
fn whole_minutes(span: Span) -> (count: i64)
    requires
        span.wf(),
    ensures
        count == truncated_quotient(span.seconds as int, 60),
{
    time::Duration::new(span.seconds, span.nanoseconds).whole_minutes()
}

/// Calls `time::Duration::whole_hours`: the hours in the whole seconds, rounded
/// towards zero.
#[verifier::external_body]
fn whole_hours(span: Span) -> (count: i64)
    requires
        span.wf(),
    ensures
        count == truncated_quotient(span.seconds as int, 3_600),
{
    time::Duration::new(span.seconds, span.nanoseconds).whole_hours()
}

/// Calls `time::Duration::whole_days`: the days in the whole seconds, rounded
/// towards zero.
#[verifier::external_body]
fn whole_days(span: Span) -> (count: i64)
    requires
        span.wf(),
    ensures
        count == truncated_quotient(span.seconds as int, 86_400),
{
    time::Duration::new(span.seconds, span.nanoseconds).whole_days()
}

/// The unit in which an age is told.
#[derive(Clone, Copy, Debug, PartialEq, Eq, Structural)]
pub enum AgeUnit {
    Minutes,
    Hours,
    Days,
}

/// The unit for an age of so many nanoseconds: minutes below an hour, hours
/// below a day, days from there on.
pub open spec fn age_unit(elapsed: int) -> AgeUnit {
    if elapsed < HOUR {
        AgeUnit::Minutes
    } else if elapsed < DAY {
        AgeUnit::Hours
    } else {
        AgeUnit::Days
    }
}

/// How many whole units an age has. An age below zero counts as zero.
pub open spec fn age_count(elapsed: int) -> nat {
    if elapsed < 0 {
        0
    } else {
        match age_unit(elapsed) {
            AgeUnit::Minutes => (elapsed / MINUTE as int) as nat,
            AgeUnit::Hours => (elapsed / HOUR as int) as nat,
            AgeUnit::Days => (elapsed / DAY as int) as nat,
        }
    }
}

/// What follows the count in the text of an age.
pub open spec fn age_suffix(unit: AgeUnit) -> Seq<char> {
    match unit {
        AgeUnit::Minutes => "m ago"@,
        AgeUnit::Hours => "h ago"@,
        AgeUnit::Days => "d ago"@,
    }
}

/// The text of an age, such as "5m ago".
pub open spec fn age_label(elapsed: int) -> Seq<char> {
    crate::text::decimal(age_count(elapsed)) + age_suffix(age_unit(elapsed))
}

/// The text of the age that a commit has at an instant. A timestamp that no
/// date can hold has none.
pub open spec fn commit_age_label(timestamp: int, now: int) -> Seq<char> {
    if is_timestamp(timestamp) {
        age_label(now - timestamp * SECOND)
    } else {
        Seq::empty()
    }
}

/// Whether an instant is one that a reading of the system clock gave.
pub closed spec fn clock_showed(instant: int) -> bool {
    is_instant(instant) && call_ensures(now_utc, (), instant as i128)
}

/// An instant that the clock showed is one that a call of `now_utc` returned, and
/// a date can hold it.
pub(crate) proof fn law_clock_showed_a_reading(instant: int)
    requires
        clock_showed(instant),
    ensures
        call_ensures(now_utc, (), instant as i128),
        -377_705_116_800 * 1_000_000_000 <= instant < 253_402_300_800 * 1_000_000_000,
{
}

/// Reads the system clock.
fn read_clock() -> (instant: i128)
    ensures
        clock_showed(instant as int),
        is_instant(instant as int),
{
    let clock = now_utc;
    clock()
}

/// Whether a text is the age of a commit at an instant that the clock showed. A
/// timestamp that no date can hold has an empty one, whatever the clock shows.
pub open spec fn is_commit_age(label: Seq<char>, timestamp: int) -> bool {
    &&& exists|now: int| is_instant(now) && label == #[trigger] commit_age_label(timestamp, now)
    &&& is_timestamp(timestamp) ==> exists|now: int|
        clock_showed(now) && label == #[trigger] commit_age_label(timestamp, now)
}

/// Tells how long ago an instant was.
pub fn relative_age(now: i128, then: i128) -> (label: String)
    requires
        is_instant(now as int),
        is_instant(then as int),
    ensures
        label@ == age_label(now - then),
{
    let diff = difference(now, then);
    if is_shorter(diff, hours(1)) {
        let minutes: i64 = whole_minutes(diff);
        let count: u64 = if minutes > 0 {
            minutes as u64
        } else {
            0
        };
        let mut label = decimal_text(count);
        label.append("m ago");
        label
    } else if is_shorter(diff, days(1)) {
        let mut label = decimal_text(whole_hours(diff) as u64);
        label.append("h ago");
        label
    } else {
        let mut label = decimal_text(whole_days(diff) as u64);
        label.append("d ago");
        label
    }
}

/// Tells how long ago a commit was made, seen from an instant.
pub fn commit_age_at(timestamp: i64, now: i128) -> (label: String)
    requires
        is_instant(now as int),
    ensures
        label@ == commit_age_label(timestamp as int, now as int),
{
    match from_unix_timestamp(timestamp) {
        Ok(then) => relative_age(now, then),
        Err(_) => String::new(),
    }
}

/// Tells how long ago a commit was made, by the system clock. The clock is read
/// only for a timestamp that a date can hold.
pub fn commit_age(timestamp: i64) -> (label: String)
    ensures
        is_commit_age(label@, timestamp as int),
{
    match from_unix_timestamp(timestamp) {
        Ok(then) => {
            let now: i128 = read_clock();
            let label = relative_age(now, then);
            assert(label@ == commit_age_label(timestamp as int, now as int));
            label
        },
        Err(_) => {
            let label = String::new();
            assert(is_instant(0) && label@ == commit_age_label(timestamp as int, 0));
            label
        },
    }
}

} // verus!
