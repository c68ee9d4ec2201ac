use branch_panel::clock::{
    commit_age, commit_age_at, relative_age, DAY, HOUR, MAX_TIMESTAMP, MINUTE, MIN_TIMESTAMP, SECOND,
};
use branch_panel::text::decimal_text;

fn seconds_ago(seconds: i64) -> i64 {
    time::OffsetDateTime::now_utc().unix_timestamp() - seconds
}

#[test]
fn minutes_below_an_hour() {
    assert_eq!(relative_age(0, 0), "0m ago");
    assert_eq!(relative_age(MINUTE - 1, 0), "0m ago");
    assert_eq!(relative_age(MINUTE, 0), "1m ago");
    assert_eq!(relative_age(HOUR - 1, 0), "59m ago");
}

#[test]
fn hours_below_a_day() {
    assert_eq!(relative_age(HOUR, 0), "1h ago");
    assert_eq!(relative_age(2 * HOUR - 1, 0), "1h ago");
    assert_eq!(relative_age(DAY - 1, 0), "23h ago");
}

#[test]
fn days_from_there_on() {
    assert_eq!(relative_age(DAY, 0), "1d ago");
    assert_eq!(relative_age(400 * DAY + 23 * HOUR, 0), "400d ago");
}

#[test]
fn only_the_difference_counts() {
    let start = 1_700_000_000 * SECOND;
    assert_eq!(relative_age(start + 5 * MINUTE, start), "5m ago");
    assert_eq!(relative_age(-start + 5 * HOUR, -start), "5h ago");
    assert_eq!(relative_age(HOUR, -HOUR), "2h ago");
}

#[test]
fn the_future_is_now() {
    assert_eq!(relative_age(0, 1), "0m ago");
    assert_eq!(relative_age(0, 90 * MINUTE), "0m ago");
    assert_eq!(relative_age(0, 3 * DAY), "0m ago");
}

#[test]
fn the_whole_range_of_dates() {
    let first = MIN_TIMESTAMP as i128 * SECOND;
    let last = (MAX_TIMESTAMP as i128 + 1) * SECOND - 1;
    assert_eq!(relative_age(last, first), "7304483d ago");
    assert_eq!(relative_age(first, last), "0m ago");
}

#[test]
fn ages_of_commits_at_an_instant() {
    let now = 1_700_000_000 * SECOND;
    assert_eq!(commit_age_at(1_700_000_000, now), "0m ago");
    assert_eq!(commit_age_at(1_700_000_000 - 7 * 60, now), "7m ago");
    assert_eq!(commit_age_at(1_700_000_000 - 7 * 3_600, now), "7h ago");
    assert_eq!(commit_age_at(0, now), "19675d ago");
    assert_eq!(commit_age_at(1_700_000_001, now), "0m ago");
    assert_eq!(commit_age_at(MAX_TIMESTAMP + 1, now), "");
    assert_eq!(commit_age_at(MIN_TIMESTAMP - 1, now), "");
}

#[test]
fn ages_by_the_system_clock() {
    assert_eq!(commit_age(seconds_ago(150)), "2m ago");
    assert_eq!(commit_age(seconds_ago(3 * 3_600 + 1_800)), "3h ago");
    assert_eq!(commit_age(seconds_ago(5 * 86_400 + 43_200)), "5d ago");
    assert_eq!(commit_age(seconds_ago(-10_000)), "0m ago");
}

#[test]
fn timestamps_that_no_date_holds_have_no_age() {
    assert_eq!(commit_age(MIN_TIMESTAMP - 1), "");
    assert_eq!(commit_age(MAX_TIMESTAMP + 1), "");
    assert_eq!(commit_age(i64::MIN), "");
    assert_eq!(commit_age(i64::MAX), "");
    assert!(commit_age(MIN_TIMESTAMP).ends_with("d ago"));
    assert_eq!(commit_age(MAX_TIMESTAMP), "0m ago");
}

#[test]
fn the_range_of_dates_is_that_of_the_time_crate() {
    assert!(time::OffsetDateTime::from_unix_timestamp(MIN_TIMESTAMP).is_ok());
    assert!(time::OffsetDateTime::from_unix_timestamp(MIN_TIMESTAMP - 1).is_err());
    assert!(time::OffsetDateTime::from_unix_timestamp(MAX_TIMESTAMP).is_ok());
    assert!(time::OffsetDateTime::from_unix_timestamp(MAX_TIMESTAMP + 1).is_err());
}

#[test]
fn numbers_in_decimal() {
    assert_eq!(decimal_text(0), "0");
    assert_eq!(decimal_text(9), "9");
    assert_eq!(decimal_text(10), "10");
    assert_eq!(decimal_text(1234567890), "1234567890");
    assert_eq!(decimal_text(u64::MAX), "18446744073709551615");
}
