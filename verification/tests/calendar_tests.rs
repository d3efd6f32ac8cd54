use solar_dispatch::calendar::{datetime_le, get_month_name, next_hour, Date, DateTime};
use solar_dispatch::records::expected_full_year_hours;

fn dt(year: u32, month: u8, day: u8, hour: u8) -> DateTime {
    DateTime { date: Date { year, month, day }, hour }
}

#[test]
fn month_names() {
    assert_eq!(get_month_name(1), "January");
    assert_eq!(get_month_name(6), "June");
    assert_eq!(get_month_name(7), "July");
    assert_eq!(get_month_name(12), "December");
    assert_eq!(get_month_name(0), "Unknown");
    assert_eq!(get_month_name(13), "Unknown");
}

#[test]
fn next_hour_within_day() {
    assert_eq!(next_hour(dt(2024, 7, 14, 0)), dt(2024, 7, 14, 1));
    assert_eq!(next_hour(dt(2024, 7, 14, 22)), dt(2024, 7, 14, 23));
}

#[test]
fn next_hour_day_rollover() {
    assert_eq!(next_hour(dt(2024, 7, 14, 23)), dt(2024, 7, 15, 0));
}

#[test]
fn next_hour_leap_february() {
    // 2024 is a leap year: February has a 29th.
    assert_eq!(next_hour(dt(2024, 2, 28, 23)), dt(2024, 2, 29, 0));
    assert_eq!(next_hour(dt(2024, 2, 29, 23)), dt(2024, 3, 1, 0));
    // 2023 is not.
    assert_eq!(next_hour(dt(2023, 2, 28, 23)), dt(2023, 3, 1, 0));
}

#[test]
fn next_hour_year_rollover() {
    assert_eq!(next_hour(dt(2023, 12, 31, 23)), dt(2024, 1, 1, 0));
}

#[test]
fn chronological_order() {
    assert!(datetime_le(&dt(2023, 11, 2, 0), &dt(2024, 4, 14, 23)));
    assert!(!datetime_le(&dt(2024, 4, 14, 23), &dt(2023, 11, 2, 0)));
    assert!(datetime_le(&dt(2024, 7, 14, 5), &dt(2024, 7, 14, 5)));
    assert!(datetime_le(&dt(2024, 7, 14, 5), &dt(2024, 7, 14, 6)));
}

#[test]
fn full_year_hour_counts() {
    assert_eq!(expected_full_year_hours(2024), 366 * 24);
    assert_eq!(expected_full_year_hours(2023), 365 * 24);
    assert_eq!(expected_full_year_hours(2000), 366 * 24);
    assert_eq!(expected_full_year_hours(1900), 365 * 24);
}
