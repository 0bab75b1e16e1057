use betteruptime::analytics::{process_check_result, CheckResult};
use betteruptime::text::parse_u64;
use betteruptime::schedule::{read_interval, ScheduleError};
use betteruptime::clock::within_calendar_range;
use betteruptime::text::{int_to_text, nat_to_text, split_bar, text_contains, text_eq, text_strip_prefix};
use betteruptime::status::Status;

#[test]
fn decimal_text_of_numbers() {
    assert_eq!(nat_to_text(0), "0");
    assert_eq!(nat_to_text(7), "7");
    assert_eq!(nat_to_text(1234567), "1234567");
    assert_eq!(nat_to_text(u32::MAX), "4294967295");
    assert_eq!(int_to_text(60), "60");
    assert_eq!(int_to_text(-42), "-42");
    assert_eq!(int_to_text(0), "0");
    assert_eq!(int_to_text(i32::MIN), "-2147483648");
    assert_eq!(int_to_text(i32::MAX), "2147483647");
}

#[test]
fn decimal_text_matches_to_string() {
    for n in [-1000i32, -1, 1, 9, 10, 99, 100, 300, 86400, 123456789] {
        assert_eq!(int_to_text(n), n.to_string());
    }
}

#[test]
fn equality_of_texts() {
    assert!(text_eq("UP", "UP"));
    assert!(!text_eq("UP", "up"));
    assert!(!text_eq("DOWN", "DOWN "));
    assert!(text_eq("", ""));
}

#[test]
fn containment_of_texts() {
    assert!(text_contains("duplicate key value violates unique constraint \"users_email_key\"", "users_email_key"));
    assert!(!text_contains("users_email", "users_email_key"));
    assert!(text_contains("abc", ""));
    assert!(text_contains("abc", "abc"));
    assert!(text_contains("xxabc", "abc"));
    assert!(!text_contains("", "a"));
}

#[test]
fn prefix_stripping() {
    assert_eq!(text_strip_prefix("Bearer abc", "Bearer "), Some("abc".to_string()));
    assert_eq!(text_strip_prefix("Bearer ", "Bearer "), Some(String::new()));
    assert_eq!(text_strip_prefix("bearer abc", "Bearer "), None);
    assert_eq!(text_strip_prefix("Bear", "Bearer "), None);
    assert_eq!(text_strip_prefix("héllo wörld", "héllo "), Some("wörld".to_string()));
}

#[test]
fn splitting_at_bars_matches_str_split() {
    for s in ["", "a", "a|b|c", "||", "|x|", "a||b", "ünï|cödé|"] {
        let expected: Vec<String> = s.split('|').map(|p| p.to_string()).collect();
        assert_eq!(split_bar(s), expected);
    }
}

#[test]
fn status_texts() {
    assert_eq!(Status::Up.as_str(), "UP");
    assert_eq!(Status::Down.as_str(), "DOWN");
    assert_eq!(Status::from_check(true), Status::Up);
    assert_eq!(Status::from_check(false), Status::Down);
    assert!(Status::Up.is_stored_as("UP"));
    assert!(!Status::Up.is_stored_as("DOWN"));
    assert!(!Status::Down.is_stored_as("down"));
}

#[test]
fn unsigned_numbers_are_read_like_str_parse() {
    for s in ["0", "60", "+60", "0060", "18446744073709551615", "18446744073709551616", "", "+", "-1", " 1", "1 ", "1_000", "12a", "٣"] {
        assert_eq!(parse_u64(s), s.parse::<u64>().ok(), "input {:?}", s);
    }
}

#[test]
fn written_interval_reads_back() {
    for n in [0i32, 1, 60, 300, i32::MAX] {
        assert_eq!(read_interval(Some(int_to_text(n))), Ok(Some(n as u64)));
    }
    assert_eq!(read_interval(None), Ok(None));
    assert_eq!(read_interval(Some(int_to_text(-15))), Err(ScheduleError::IntervalNotANumber));
}

#[test]
fn calendar_range() {
    assert!(within_calendar_range(0));
    assert!(within_calendar_range(1_700_000_000));
    assert!(within_calendar_range(8_210_266_876_799));
    assert!(!within_calendar_range(8_210_266_876_800));
    assert!(within_calendar_range(-8_334_601_228_800));
    assert!(!within_calendar_range(-8_334_601_228_801));
    assert!(!within_calendar_range(i64::MAX));
}

#[test]
fn calendar_range_is_chronos_range() {
    assert!(chrono::DateTime::from_timestamp(8_210_266_876_799, 0).is_some());
    assert!(chrono::DateTime::from_timestamp(8_210_266_876_800, 0).is_none());
    assert!(chrono::DateTime::from_timestamp(-8_334_601_228_800, 0).is_some());
    assert!(chrono::DateTime::from_timestamp(-8_334_601_228_801, 0).is_none());
}

#[test]
fn minute_at_the_calendar_edges() {
    let r = || CheckResult {
        website_id: "w".to_string(),
        is_up: true,
        response_time_ms: 0,
        error_msg: None,
        previous_status: "UP".to_string(),
    };
    // 23:59:59 on the last day: minute 59, no sync
    assert!(process_check_result(r(), 8_210_266_876_799).is_empty());
    // 00:00:00 on the first day: minute 0, sync
    assert_eq!(process_check_result(r(), -8_334_601_228_800).len(), 2);
}
