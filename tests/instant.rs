use moontime::{DateTime, QueryError};

fn at(year: i32, month: u8, day: u8, nanosecond: u32, offset_hours: i8, offset_minutes: i8) -> DateTime {
    DateTime {
        year,
        month,
        day,
        hour: 12,
        minute: 0,
        second: 0,
        nanosecond,
        offset_hours,
        offset_minutes,
    }
}

#[test]
fn instant_renders_as_rfc3339() {
    assert_eq!(at(2024, 6, 1, 0, 0, 0).to_string(), Ok("2024-06-01T12:00:00Z".to_string()));
    assert_eq!(at(2024, 6, 1, 0, 2, 0).to_string(), Ok("2024-06-01T12:00:00+02:00".to_string()));
    assert_eq!(at(2024, 6, 1, 0, -5, -30).to_string(), Ok("2024-06-01T12:00:00-05:30".to_string()));
    assert_eq!(at(2024, 6, 1, 0, 0, -30).to_string(), Ok("2024-06-01T12:00:00-00:30".to_string()));
    assert_eq!(at(2024, 6, 1, 500_000_000, 0, 0).to_string(), Ok("2024-06-01T12:00:00.5Z".to_string()));
    assert_eq!(at(7, 1, 2, 0, 0, 0).to_string(), Ok("0007-01-02T12:00:00Z".to_string()));
}

#[test]
fn leap_days_follow_the_gregorian_rule() {
    assert_eq!(at(2024, 2, 29, 0, 0, 0).to_string(), Ok("2024-02-29T12:00:00Z".to_string()));
    assert_eq!(at(2000, 2, 29, 0, 0, 0).to_string(), Ok("2000-02-29T12:00:00Z".to_string()));
    assert_eq!(at(1900, 2, 29, 0, 0, 0).to_string(), Err(QueryError::EncodingFailure));
    assert!(!at(2023, 2, 29, 0, 0, 0).is_valid());
    assert!(at(-400, 2, 29, 0, 0, 0).is_valid());
    assert!(!at(-100, 2, 29, 0, 0, 0).is_valid());
    assert!(!at(2024, 4, 31, 0, 0, 0).is_valid());
    assert!(!at(2024, 13, 1, 0, 0, 0).is_valid());
}

#[test]
fn instants_without_an_rfc3339_form_are_encoding_failures() {
    assert_eq!(at(-1, 6, 1, 0, 0, 0).to_string(), Err(QueryError::EncodingFailure));
    assert_eq!(at(2024, 6, 1, 0, 24, 0).to_string(), Err(QueryError::EncodingFailure));
    assert_eq!(at(2024, 6, 1, 0, -25, 0).to_string(), Err(QueryError::EncodingFailure));
    assert!(at(2024, 6, 1, 0, 25, 59).is_valid());
    assert!(!at(2024, 6, 1, 0, 2, -30).is_valid());
    assert_eq!(at(2024, 6, 1, 1_000_000_000, 0, 0).to_string(), Err(QueryError::EncodingFailure));
}

#[test]
fn default_instant_is_now_in_utc() {
    let t = moontime::default_datetime();
    assert!(t.is_valid());
    assert!(t.year >= 2024);
    assert_eq!((t.offset_hours, t.offset_minutes), (0, 0));
    let s = DateTime::new().to_string().unwrap();
    assert!(s.ends_with('Z'));
    assert_eq!(s.len() >= 20, true);
}
