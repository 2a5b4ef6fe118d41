use video_downloader::duration::{format_clock, normalize_duration, parse_u64, DurationValue};

#[test]
fn clock_format_pads_to_two_digits() {
    assert_eq!(format_clock(125), "02:05");
    assert_eq!(format_clock(0), "00:00");
    assert_eq!(format_clock(59), "00:59");
    assert_eq!(format_clock(600), "10:00");
    assert_eq!(format_clock(6000), "100:00");
    assert_eq!(format_clock(u64::MAX), "307445734561825860:15");
}

#[test]
fn integer_duration_normalizes() {
    assert_eq!(normalize_duration(&DurationValue::Seconds(125)).as_deref(), Some("02:05"));
}

#[test]
fn float_duration_normalizes() {
    let reported: f64 = 125.7;
    let value = DurationValue::Seconds(reported as u64);
    assert_eq!(normalize_duration(&value).as_deref(), Some("02:05"));
}

#[test]
fn string_duration_normalizes() {
    let value = DurationValue::Text("125".to_string());
    assert_eq!(normalize_duration(&value).as_deref(), Some("02:05"));
}

#[test]
fn unreadable_duration_is_absent() {
    let value = DurationValue::Text("not-a-number".to_string());
    assert_eq!(normalize_duration(&value), None);
    assert_eq!(normalize_duration(&DurationValue::Text(String::new())), None);
}

#[test]
fn encoded_duration_keeps_whole_seconds() {
    let quoted = DurationValue::Encoded("\"125.7\"".to_string());
    assert_eq!(normalize_duration(&quoted).as_deref(), Some("02:05"));
    let plain = DurationValue::Encoded("61".to_string());
    assert_eq!(normalize_duration(&plain).as_deref(), Some("01:01"));
    assert_eq!(normalize_duration(&DurationValue::Encoded("null".to_string())), None);
    assert_eq!(normalize_duration(&DurationValue::Encoded("[1]".to_string())), None);
}

#[test]
fn parse_follows_std() {
    for s in ["0", "125", "+7", "", "+", "-1", "1 ", "12a", "18446744073709551615", "18446744073709551616", "007"] {
        assert_eq!(parse_u64(s), s.parse::<u64>().ok(), "{}", s);
    }
}
