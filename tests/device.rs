use monarch2::device::{Clock, GetClock, Time, TimeParseError, MODEM_MIN_VALID_TIMESTAMP};

#[test]
fn test_valid_clock_with_valid_timestamp() {
    let input = "24/05/30,13:22:45+08";
    let clock = Time::from_str(input).unwrap();
    assert!(clock.timestamp >= MODEM_MIN_VALID_TIMESTAMP);
    assert_eq!(clock.offset_seconds, 8 * 15 * 60);
}

#[test]
fn test_valid_clock_with_old_timestamp() {
    let input = "70/01/01,00:07:30+00";
    let clock = Time::from_str(input).unwrap();
    assert_eq!(clock.timestamp, 0);
    assert_eq!(clock.offset_seconds, 0);
}

#[test]
fn test_valid_clock_negative_offset() {
    let input = "24/05/30,13:22:45-04";
    let clock = Time::from_str(input).unwrap();
    assert_eq!(clock.offset_seconds, -4 * 15 * 60);
}

#[test]
fn test_invalid_format_too_short() {
    let input = "24/05/30,13:22";
    let err = Time::from_str(input).unwrap_err();
    assert!(matches!(err, TimeParseError::InvalidFormat));
}

#[test]
fn test_invalid_offset_parse() {
    let input = "24/05/30,13:22:45+XX";
    let err = Time::from_str(input).unwrap_err();
    assert!(matches!(err, TimeParseError::InvalidFormat));
}

#[test]
fn test_invalid_datetime_format() {
    let input = "24-05-30,13:22:45+08"; // bad separator
    let err = Time::from_str(input).unwrap_err();
    assert!(matches!(err, TimeParseError::InvalidFormat));
}

#[test]
fn clock_gives_the_exact_instant() {
    let t = Time::from_str("24/05/30,13:22:45+08").unwrap();
    assert_eq!(t.timestamp, 1_717_068_165);
    let t = Time::from_str("24/05/30,13:22:45-04").unwrap();
    assert_eq!(t.timestamp, 1_717_078_965);
}

#[test]
fn clock_threshold_is_strict() {
    let t = Time::from_str("23/01/01,00:00:00+00").unwrap();
    assert_eq!(t.timestamp, MODEM_MIN_VALID_TIMESTAMP);
    let t = Time::from_str("22/12/31,23:59:59+00").unwrap();
    assert_eq!(t, Time { timestamp: 0, offset_seconds: 0 });
    let t = Time::from_str("23/01/01,00:59:59+04").unwrap();
    assert_eq!(t.timestamp, 0);
}

#[test]
fn clock_rejects_impossible_dates_and_offsets() {
    assert!(Time::from_str("23/02/29,00:00:00+00").is_err());
    assert!(Time::from_str("24/02/29,00:00:00+00").is_ok());
    assert!(Time::from_str("24/05/30,24:00:00+00").is_err());
    assert!(Time::from_str("24/05/30,13:22:45+200").is_err());
    assert_eq!(TimeParseError::InvalidFormat.to_string(), "InvalidFormat");
}

#[test]
fn clock_response_payload() {
    let c = Clock::decode(b"\"24/05/30,13:22:45+08\"").unwrap();
    assert_eq!(c.time.timestamp, 1_717_068_165);
    assert!(Clock::decode(b"24/05/30,13:22:45+08").is_err());
    assert_eq!(GetClock.encode(), b"AT+CCLK?\r\n".to_vec());
}
