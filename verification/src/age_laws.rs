//! What holds of the numbers and the ages that the panel shows.

use vstd::prelude::*;

use crate::clock::{
    age_label, clock_showed, commit_age_label, is_commit_age, is_instant, is_timestamp,
};
use crate::text::decimal;

verus! {

/// The number that a text of digits denotes.
pub open spec fn decimal_value(text: Seq<char>) -> int
    decreases text.len(),
{
    if text.len() == 0 {
        0
    } else {
        decimal_value(text.drop_last()) * 10 + (text.last() as int - '0' as int)
    }
}

/// A number is written so that it can be read back: in digits alone, the first
/// of which is a zero only where the number is zero.
pub proof fn law_numbers_read_back(n: nat)
    ensures
        decimal_value(decimal(n)) == n,
        decimal(n).len() >= 1,
        forall|i: int|
            0 <= i < decimal(n).len() ==> '0' as int <= #[trigger] decimal(n)[i] as int <= '9' as int,
        decimal(n)[0] == '0' ==> decimal(n).len() == 1,
        n > 0 ==> decimal(n)[0] != '0',
    decreases n,
{
    reveal_with_fuel(decimal_value, 2);
    if n < 10 {
        assert(decimal(n).drop_last() =~= seq![]);
    } else {
        law_numbers_read_back(n / 10);
        assert(decimal(n).drop_last() =~= decimal(n / 10));
        assert(decimal(n)[0] == decimal(n / 10)[0]);
    }
}

/// Below an hour an age is told in whole minutes.
pub proof fn law_age_in_minutes(elapsed: int, minutes: nat)
    requires
        minutes < 60,
        minutes * 60_000_000_000 <= elapsed < (minutes + 1) * 60_000_000_000,
    ensures
        age_label(elapsed) == decimal(minutes) + "m ago"@,
{
}

/// From an hour up to a day an age is told in whole hours.
pub proof fn law_age_in_hours(elapsed: int, hours: nat)
    requires
        1 <= hours < 24,
        hours * 3_600_000_000_000 <= elapsed < (hours + 1) * 3_600_000_000_000,
    ensures
        age_label(elapsed) == decimal(hours) + "h ago"@,
{
}

/// From a day on an age is told in whole days, however many they are.
pub proof fn law_age_in_days(elapsed: int, days: nat)
    requires
        1 <= days,
        days * 86_400_000_000_000 <= elapsed < (days + 1) * 86_400_000_000_000,
    ensures
        age_label(elapsed) == decimal(days) + "d ago"@,
{
}

/// What lies in the future is told as no minutes ago.
pub proof fn law_age_of_the_future(elapsed: int)
    requires
        elapsed < 0,
    ensures
        age_label(elapsed) == decimal(0) + "m ago"@,
{
}

/// The instants and timestamps that an age can be told of are those of the years
/// -9999 to 9999.
pub proof fn law_range_of_dates(timestamp: int, instant: int)
    ensures
        is_timestamp(timestamp) <==> -377_705_116_800 <= timestamp <= 253_402_300_799,
        is_instant(instant) <==> -377_705_116_800_000_000_000 <= instant
            <= 253_402_300_799_999_999_999,
{
}

/// A commit is as old as the time that has passed since its timestamp. One whose
/// timestamp lies outside the years -9999 to 9999 has no age.
pub proof fn law_commit_age_is_the_time_since(timestamp: int, now: int)
    ensures
        -377_705_116_800 <= timestamp <= 253_402_300_799 ==> commit_age_label(timestamp, now)
            == age_label(now - timestamp * 1_000_000_000),
        !(-377_705_116_800 <= timestamp <= 253_402_300_799) ==> commit_age_label(
            timestamp,
            now,
        ).len() == 0,
{
}

/// Two commits are as old as each other, seen from instants that lie as far apart
/// as their timestamps.
pub proof fn law_commit_age_moves_with_the_clock(timestamp: int, now: int, seconds: int)
    requires
        -377_705_116_800 <= timestamp <= 253_402_300_799,
        -377_705_116_800 <= timestamp + seconds <= 253_402_300_799,
    ensures
        commit_age_label(timestamp + seconds, now + seconds * 1_000_000_000) == commit_age_label(
            timestamp,
            now,
        ),
{
    assert((timestamp + seconds) * 1_000_000_000 == timestamp * 1_000_000_000 + seconds
        * 1_000_000_000);
}

/// The age that is told of a commit is the one at an instant that the system
/// clock showed.
pub proof fn law_told_age_follows_the_clock(label: Seq<char>, timestamp: int)
    requires
        is_commit_age(label, timestamp),
    ensures
        -377_705_116_800 <= timestamp <= 253_402_300_799 ==> exists|now: int| #[trigger]
            clock_showed(now) && label == age_label(now - timestamp * 1_000_000_000),
        !(-377_705_116_800 <= timestamp <= 253_402_300_799) ==> label.len() == 0,
{
}

} // verus!
