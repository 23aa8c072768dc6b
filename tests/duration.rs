use ding::duration::{format_duration, push_decimal};

#[test]
fn zero_is_seconds_only() {
    assert_eq!(format_duration(0), "0s");
}

#[test]
fn minutes_and_seconds() {
    assert_eq!(format_duration(65), "1m 5s");
}

#[test]
fn hours_minutes_seconds() {
    assert_eq!(format_duration(3661), "1h 1m 1s");
}

#[test]
fn days_hours_minutes_seconds() {
    assert_eq!(format_duration(90061), "1d 1h 1m 1s");
}

#[test]
fn unit_boundaries_keep_lower_units() {
    assert_eq!(format_duration(59), "59s");
    assert_eq!(format_duration(60), "1m 0s");
    assert_eq!(format_duration(3599), "59m 59s");
    assert_eq!(format_duration(3600), "1h 0m 0s");
    assert_eq!(format_duration(3605), "1h 0m 5s");
    assert_eq!(format_duration(86399), "23h 59m 59s");
    assert_eq!(format_duration(86400), "1d 0h 0m 0s");
    assert_eq!(format_duration(86405), "1d 0h 0m 5s");
}

#[test]
fn largest_span() {
    assert_eq!(format_duration(u64::MAX), "213503982334601d 7h 0m 15s");
}

#[test]
fn decimal_appends_digits() {
    let mut s = String::from("n=");
    push_decimal(&mut s, 0);
    assert_eq!(s, "n=0");
    push_decimal(&mut s, 1207);
    assert_eq!(s, "n=01207");
    let mut t = String::new();
    push_decimal(&mut t, u64::MAX);
    assert_eq!(t, "18446744073709551615");
}
