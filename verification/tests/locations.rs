use rust_flipit::clock::{day_difference, UtcDateTime};
use rust_flipit::location::{clock_string, read_clock, Location};

fn at(time: &str) -> Location {
    let mut l = Location::new("UTC", "UTC");
    l.current_time = time.to_string();
    l
}

#[test]
fn new_location_has_no_time_yet() {
    let l = Location::new("Tokyo Standard Time", "Tokyo");
    assert_eq!(l.display_name, "Tokyo");
    assert_eq!(l.time_zone_id, "Tokyo Standard Time");
    assert_eq!(l.current_time, "");
    assert!(!l.is_dst);
    assert_eq!(l.days_difference, 0);
    assert!(!l.has_error);
}

#[test]
fn format_time_24_and_12_hour() {
    assert_eq!(at("07:05").format_time(true, false), "07:05");
    assert_eq!(at("07:05").format_time(false, false), "7:05 AM");
    assert_eq!(at("13:30").format_time(false, true), "1:30 PM");
    assert_eq!(at("12:00").format_time(false, false), "12:00 PM");
    assert_eq!(at("00:00").format_time(false, false), "12:00 AM");
    assert_eq!(at("23:59").format_time(true, false), "23:59");
}

#[test]
fn format_time_of_odd_stored_text() {
    assert_eq!(at("").format_time(true, false), "00:00");
    assert_eq!(at("5").format_time(true, false), "05:00");
    assert_eq!(at("x:7").format_time(true, false), "00:07");
    assert_eq!(at("123:4:5").format_time(true, false), "123:04");
    assert_eq!(at("25:00").format_time(false, false), "1:00 PM");
}

#[test]
fn format_time_of_error() {
    let mut l = at("10:00");
    l.has_error = true;
    assert_eq!(l.format_time(true, false), "Error");
    assert_eq!(l.format_time(false, false), "Error");
}

#[test]
fn clock_reading_round_trip() {
    assert_eq!(read_clock("09:41"), (9, 41));
    assert_eq!(clock_string(9, 41, true), "09:41");
    assert_eq!(read_clock(&clock_string(9, 41, true)), (9, 41));
}

fn utc(y: i32, mo: u32, d: u32, h: u32, mi: u32) -> UtcDateTime {
    UtcDateTime::new(y, mo, d, h, mi, 0).unwrap()
}

#[test]
fn utc_date_time_validity() {
    assert!(UtcDateTime::new(2024, 2, 29, 0, 0, 0).is_some());
    assert!(UtcDateTime::new(2023, 2, 29, 0, 0, 0).is_none());
    assert!(UtcDateTime::new(1900, 2, 29, 0, 0, 0).is_none());
    assert!(UtcDateTime::new(2000, 2, 29, 0, 0, 0).is_some());
    assert!(UtcDateTime::new(-4, 2, 29, 0, 0, 0).is_some());
    assert!(UtcDateTime::new(2024, 4, 31, 0, 0, 0).is_none());
    assert!(UtcDateTime::new(2024, 13, 1, 0, 0, 0).is_none());
    assert!(UtcDateTime::new(2024, 1, 1, 24, 0, 0).is_none());
    assert!(UtcDateTime::new(2024, 1, 1, 0, 60, 0).is_none());
    assert!(UtcDateTime::new(2024, 1, 1, 0, 0, 60).is_none());
    assert!(UtcDateTime::new(262143, 1, 1, 0, 0, 0).is_none());
    assert!(UtcDateTime::new(-262143, 1, 1, 0, 0, 0).is_some());
}

#[test]
fn refresh_time_same_day() {
    let mut l = Location::new("Tokyo Standard Time", "Tokyo");
    l.refresh_time(&utc(2024, 1, 15, 10, 30));
    assert_eq!(l.current_time, "19:30");
    assert_eq!(l.days_difference, 0);
    assert!(!l.has_error);
    assert!(!l.is_dst);
    assert_eq!(l.format_time(false, false), "7:30 PM");
}

#[test]
fn refresh_time_next_day_new_week() {
    // Sunday evening in UTC is Monday morning in Tokyo.
    let mut l = Location::new("Tokyo Standard Time", "Tokyo");
    l.refresh_time(&utc(2024, 1, 14, 20, 0));
    assert_eq!(l.current_time, "05:00");
    assert_eq!(l.days_difference, 1);
}

#[test]
fn refresh_time_previous_day() {
    // Monday early in UTC is still Sunday in Hawaii.
    let mut l = Location::new("Hawaiian Standard Time", "Hawaii");
    l.refresh_time(&utc(2024, 1, 15, 5, 0));
    assert_eq!(l.current_time, "19:00");
    assert_eq!(l.days_difference, -1);
}

#[test]
fn refresh_time_half_hour_zone() {
    let mut l = Location::new("India Standard Time", "Delhi");
    l.refresh_time(&utc(2024, 6, 1, 12, 0));
    assert_eq!(l.current_time, "17:30");
    let mut n = Location::new("Newfoundland Standard Time", "St. John's");
    n.refresh_time(&utc(2024, 6, 1, 12, 0));
    assert_eq!(n.current_time, "08:30");
}

#[test]
fn refresh_time_unknown_zone() {
    let mut l = Location::new("Mars Standard Time", "Olympus");
    l.current_time = "10:00".to_string();
    l.refresh_time(&utc(2024, 1, 15, 10, 30));
    assert!(l.has_error);
    assert_eq!(l.current_time, "");
    assert_eq!(l.format_time(true, false), "Error");
}

#[test]
fn day_difference_rules() {
    assert_eq!(day_difference(3, 3, 10, 19, 15, 15), 0);
    assert_eq!(day_difference(2, 3, 20, 5, 14, 15), 1);
    assert_eq!(day_difference(3, 2, 5, 19, 15, 14), -1);
    assert_eq!(day_difference(3, 3, 20, 5, 15, 16), 0);
    assert_eq!(day_difference(3, 3, 5, 20, 15, 16), 1);
    assert_eq!(day_difference(3, 3, 20, 5, 16, 15), -1);
    assert_eq!(day_difference(52, 1, 1, 23, 31, 1), -1);
    assert_eq!(day_difference(52, 1, 23, 1, 31, 1), -1);
}
