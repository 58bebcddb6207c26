use dev_journal::{parse_date, format_date, compute_current_streak, compute_this_week_count, Date, StoreError};

fn d(y: i64, m: i64, day: i64) -> Date {
    Date { year: y, month: m, day }
}

#[test]
fn parse_accepts_calendar_dates() {
    assert_eq!(parse_date("2024-01-31"), Some(d(2024, 1, 31)));
    assert_eq!(parse_date("2024-02-29"), Some(d(2024, 2, 29)));
    assert_eq!(parse_date("0000-01-01"), Some(d(0, 1, 1)));
    assert_eq!(parse_date("9999-12-31"), Some(d(9999, 12, 31)));
}

#[test]
fn parse_rejects_malformed_and_out_of_range() {
    assert_eq!(parse_date("2023-02-29"), None);
    assert_eq!(parse_date("2024-13-01"), None);
    assert_eq!(parse_date("2024-00-10"), None);
    assert_eq!(parse_date("2024-04-31"), None);
    assert_eq!(parse_date("2024-1-31"), None);
    assert_eq!(parse_date("2024/01/31"), None);
    assert_eq!(parse_date(""), None);
    assert_eq!(parse_date("20240131"), None);
}

#[test]
fn format_round_trips() {
    let date = d(2024, 3, 9);
    let s = format_date(&date);
    assert_eq!(s, "2024-03-09");
    assert_eq!(parse_date(&s), Some(date));
    assert_eq!(format_date(&d(7, 11, 2)), "0007-11-02");
}

#[test]
fn day_numbers_are_consecutive_across_boundaries() {
    assert_eq!(
        d(2024, 3, 1).day_number(),
        d(2024, 2, 29).day_number() + 1
    );
    assert_eq!(
        d(2023, 3, 1).day_number(),
        d(2023, 2, 28).day_number() + 1
    );
    assert_eq!(
        d(2024, 1, 1).day_number(),
        d(2023, 12, 31).day_number() + 1
    );
}

#[test]
fn weekday_matches_known_dates() {
    // 2024-01-01 was a Monday, 2024-01-17 a Wednesday, 2024-01-21 a Sunday.
    assert_eq!(d(2024, 1, 1).days_from_monday(), 0);
    assert_eq!(d(2024, 1, 17).days_from_monday(), 2);
    assert_eq!(d(2024, 1, 21).days_from_monday(), 6);
}

fn strings(v: &[&str]) -> Vec<String> {
    v.iter().map(|s| s.to_string()).collect()
}

#[test]
fn streak_counts_back_from_today() {
    let today = d(2024, 1, 17);
    let dates = strings(&["2024-01-17", "2024-01-16", "2024-01-15"]);
    assert_eq!(compute_current_streak(&dates, &today), 3);
}

#[test]
fn streak_is_zero_without_today_or_yesterday() {
    let today = d(2024, 1, 17);
    let dates = strings(&["2024-01-15"]);
    assert_eq!(compute_current_streak(&dates, &today), 0);
    assert_eq!(compute_current_streak(&strings(&[]), &today), 0);
}

#[test]
fn streak_may_anchor_on_yesterday() {
    let today = d(2024, 1, 17);
    let dates = strings(&["2024-01-16", "2024-01-15"]);
    assert_eq!(compute_current_streak(&dates, &today), 2);
}

#[test]
fn streak_ignores_unparsable_dates() {
    let today = d(2024, 1, 17);
    let dates = strings(&["2024-01-17", "bogus", "2024-01-16"]);
    assert_eq!(compute_current_streak(&dates, &today), 2);
}

#[test]
fn streak_handles_duplicates() {
    let today = d(2024, 1, 17);
    let dates = strings(&["2024-01-17", "2024-01-17", "2024-01-16"]);
    assert_eq!(compute_current_streak(&dates, &today), 2);
}

#[test]
fn week_count_is_monday_to_sunday_of_today() {
    // Today is Wednesday 2024-01-17; the week runs Monday the 15th through
    // Sunday the 21st.  Dates span the prior Sunday through the following
    // Monday; only those within the week count.
    let today = d(2024, 1, 17);
    let dates = strings(&[
        "2024-01-14", // prior Sunday: out
        "2024-01-15", // Monday: in
        "2024-01-16", // in
        "2024-01-17", // in
        "2024-01-18", // in
        "2024-01-21", // Sunday: in
        "2024-01-22", // following Monday: out
    ]);
    assert_eq!(compute_this_week_count(&dates, &today), 5);
}

#[test]
fn week_count_ignores_duplicates_and_junk() {
    let today = d(2024, 1, 17);
    let dates = strings(&["2024-01-15", "2024-01-15", "junk"]);
    assert_eq!(compute_this_week_count(&dates, &today), 1);
}

#[test]
fn elapsed_since_floors_and_tolerates_junk() {
    // An unparsable start stamp contributes nothing.
    assert_eq!(dev_journal::elapsed_since("not a timestamp"), 0);
    // A start far in the past yields a large positive elapsed time.
    assert!(dev_journal::elapsed_since("1970-01-01T00:00:00+00:00") > 1_000_000_000);
    // A start in the far future is floored at zero.
    assert_eq!(dev_journal::elapsed_since("9999-01-01T00:00:00+00:00"), 0);
}

#[test]
fn error_descriptions_are_stable() {
    assert_eq!(
        StoreError::StorageUnavailable.describe(),
        "cannot open or create the database"
    );
    assert_eq!(
        StoreError::MigrationFailed { version: 3 }.describe(),
        "a schema migration step failed"
    );
    assert_eq!(StoreError::QueryFailed.describe(), "a database operation failed");
    assert_eq!(
        StoreError::TransactionAborted.describe(),
        "the transaction was rolled back"
    );
}
