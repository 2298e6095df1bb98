use freqtrade_rs::time::Timestamp;
use freqtrade_rs::types::Timeframe;

#[test]
fn rfc3339_text_of_a_known_instant() {
    let t = Timestamp::from_millis(947_638_923_004);
    assert_eq!(t.to_rfc3339().unwrap(), "2000-01-12T01:02:03.004+00:00");
}

#[test]
fn rfc3339_text_reads_back() {
    for millis in [0i64, 1, 999, 1_700_000_000_000, -62_135_596_800_000, 253_402_300_799_999] {
        let t = Timestamp::from_millis(millis);
        let text = t.to_rfc3339().unwrap();
        assert_eq!(Timestamp::parse_rfc3339(&text), Some(t));
    }
}

#[test]
fn rfc3339_parse_gives_utc_whatever_the_offset() {
    let t = Timestamp::parse_rfc3339("1996-12-19T16:39:57-08:00").unwrap();
    assert_eq!(t.millis, 851_042_397_000);
    assert!(Timestamp::parse_rfc3339("not a date").is_none());
}

#[test]
fn rfc3339_text_is_none_outside_the_calendar() {
    assert!(Timestamp::from_millis(i64::MAX).to_rfc3339().is_none());
}

#[test]
fn plus_minutes_is_clipped_at_the_ends() {
    let t = Timestamp::from_millis(1_000);
    assert_eq!(t.plus_minutes_clipped(60).millis, 3_601_000);
    assert_eq!(t.plus_minutes_clipped(-1).millis, -59_000);
    assert_eq!(t.plus_minutes_clipped(i64::MAX).millis, i64::MAX);
    assert_eq!(t.plus_minutes_clipped(i64::MIN).millis, i64::MIN);
}

#[test]
fn lookback_window_test_does_not_overflow() {
    let now = Timestamp::from_millis(10 * 60_000);
    assert!(Timestamp::from_millis(5 * 60_000).within_minutes_before(&now, 5));
    assert!(!Timestamp::from_millis(5 * 60_000 - 1).within_minutes_before(&now, 5));
    assert!(Timestamp::from_millis(i64::MIN).within_minutes_before(&now, i64::MAX));
    assert!(!Timestamp::from_millis(i64::MAX).within_minutes_before(&now, i64::MIN));
}

#[test]
fn unix_seconds_become_milliseconds() {
    assert_eq!(Timestamp::from_unix_seconds(1_507_725_176).unwrap().millis, 1_507_725_176_000);
    assert!(Timestamp::from_unix_seconds(i64::MAX).is_none());
}

#[test]
fn timeframe_tags_read_back() {
    let all = [
        (Timeframe::OneMinute, "1m", 1),
        (Timeframe::ThreeMinutes, "3m", 3),
        (Timeframe::FiveMinutes, "5m", 5),
        (Timeframe::FifteenMinutes, "15m", 15),
        (Timeframe::ThirtyMinutes, "30m", 30),
        (Timeframe::OneHour, "1h", 60),
        (Timeframe::TwoHours, "2h", 120),
        (Timeframe::FourHours, "4h", 240),
        (Timeframe::SixHours, "6h", 360),
        (Timeframe::EightHours, "8h", 480),
        (Timeframe::TwelveHours, "12h", 720),
        (Timeframe::OneDay, "1d", 1440),
        (Timeframe::ThreeDays, "3d", 4320),
        (Timeframe::OneWeek, "1w", 10080),
        (Timeframe::OneMonth, "1M", 43200),
    ];
    for (tf, tag, minutes) in all {
        assert_eq!(tf.as_str(), tag);
        assert_eq!(Timeframe::parse(tag), Some(tf));
        assert_eq!(tf.minutes(), minutes);
        assert_eq!(tf.millis(), minutes * 60_000);
    }
}

#[test]
fn timeframe_parse_rejects_anything_else() {
    for tag in ["", "1", "1H", "1 minute", " 1m", "2m", "1D", "1mo"] {
        assert_eq!(Timeframe::parse(tag), None);
    }
}

#[test]
fn timeframe_alignment() {
    let hour = Timeframe::OneHour;
    assert!(hour.is_aligned(Timestamp::from_millis(0)));
    assert!(hour.is_aligned(Timestamp::from_millis(3_600_000 * 5)));
    assert!(hour.is_aligned(Timestamp::from_millis(-3_600_000)));
    assert!(!hour.is_aligned(Timestamp::from_millis(3_600_001)));
    assert!(!hour.is_aligned(Timestamp::from_millis(-1)));
    assert_eq!(hour.close_time(Timestamp::from_millis(7)).unwrap().millis, 3_600_007);
    assert!(hour.close_time(Timestamp::from_millis(i64::MAX)).is_none());
}
