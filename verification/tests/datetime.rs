use spot_scraper::datetime::{parse_access_time, parse_dt};
use spot_scraper::models::DateTime;

fn first_of_march() -> DateTime {
    DateTime { year: 2024, month: 3, day: 1, hour: 10, minute: 0, second: 0, nanosecond: 0 }
}

#[test]
fn hyphens_and_slashes_name_the_same_instant() {
    assert_eq!(parse_dt("01-03-2024 10:00"), Some(first_of_march()));
    assert_eq!(parse_dt("01/03/2024 10:00:00"), Some(first_of_march()));
    assert_eq!(parse_dt("01-03-2024 10:00"), parse_dt("01/03/2024 10:00:00"));
}

#[test]
fn all_four_notations_are_read() {
    let expected = DateTime { year: 2023, month: 12, day: 31, hour: 23, minute: 59, second: 58, nanosecond: 0 };
    assert_eq!(parse_dt("31-12-2023 23:59:58"), Some(expected));
    assert_eq!(parse_dt("31/12/2023 23:59:58"), Some(expected));
    let whole = DateTime { second: 0, ..expected };
    assert_eq!(parse_dt("31-12-2023 23:59"), Some(whole));
    assert_eq!(parse_dt("31/12/2023 23:59"), Some(whole));
}

#[test]
fn surrounding_white_space_is_dropped() {
    assert_eq!(parse_dt("  01-03-2024 10:00\n"), Some(first_of_march()));
}

#[test]
fn unreadable_text_gives_none() {
    assert_eq!(parse_dt(""), None);
    assert_eq!(parse_dt("besok"), None);
    assert_eq!(parse_dt("2024-03-01 10:00"), None);
    assert_eq!(parse_dt("31-02-2024 10:00"), None);
    assert_eq!(parse_dt("01-03-2024 24:00"), None);
    assert_eq!(parse_dt("01-03-2024"), None);
}

#[test]
fn access_label_is_taken_out() {
    assert_eq!(parse_access_time(&Some("Waktu Akses: 01-03-2024 10:00".to_string())), Some(first_of_march()));
    assert_eq!(parse_access_time(&Some("Waktu Akses:01/03/2024 10:00:00".to_string())), Some(first_of_march()));
    assert_eq!(parse_access_time(&Some("01-03-2024 10:00".to_string())), Some(first_of_march()));
    assert_eq!(parse_access_time(&Some("Waktu Akses: -".to_string())), None);
    assert_eq!(parse_access_time(&None), None);
}
