use escrow::timestamp::Timestamp;

#[test]
fn round_trips_through_text() {
    for text in [
        "2026-03-01T20:00:00+09:00",
        "2026-03-01T12:00:00+00:00",
        "1999-12-31T23:59:59-05:00",
    ] {
        let parsed = Timestamp::parse(text).expect(text);
        assert_eq!(parsed.to_text(), text, "字面ごと往復すること");
    }
}

#[test]
fn keeps_the_offset_it_was_given() {
    let jst = Timestamp::parse("2026-03-01T20:00:00+09:00").unwrap();
    let utc = Timestamp::parse("2026-03-01T11:00:00+00:00").unwrap();

    assert_eq!(jst, utc, "同じ瞬間を指す");
    assert_eq!(jst.epoch_seconds(), utc.epoch_seconds());
    assert_ne!(jst.to_text(), utc.to_text(), "字面は違う");
}

#[test]
fn truncates_below_seconds() {
    let t = Timestamp::parse("2026-03-01T20:00:00.123456+09:00").unwrap();
    assert_eq!(t.to_text(), "2026-03-01T20:00:00+09:00");
}

#[test]
fn rejects_what_is_not_a_timestamp() {
    for text in ["", "2026-03-01", "きのう", "2026-13-01T00:00:00+09:00"] {
        assert!(Timestamp::parse(text).is_err(), "通ってはいけない: {text:?}");
    }
}

#[test]
fn orders_by_instant_not_by_text() {
    let earlier = Timestamp::parse("2026-03-01T20:00:00+09:00").unwrap();
    let later = Timestamp::parse("2026-03-01T13:00:00+00:00").unwrap();
    assert!(earlier.is_before(&later));
    assert!(!later.is_before(&earlier));
}

#[test]
fn the_date_is_read_in_the_offset_it_was_given() {
    let late_evening = Timestamp::parse("2026-03-01T23:30:00+09:00").unwrap();
    assert_eq!(late_evening.date_text(), "2026-03-01");
    let same_instant_in_utc = Timestamp::parse("2026-03-01T14:30:00+00:00").unwrap();
    assert_eq!(same_instant_in_utc.date_text(), "2026-03-01");
    let early_morning = Timestamp::parse("2026-03-02T00:30:00+09:00").unwrap();
    assert_eq!(early_morning.date_text(), "2026-03-02");
}

#[test]
fn days_are_added_as_whole_days_in_the_same_offset() {
    let t = Timestamp::parse("2026-03-01T20:00:00+09:00").unwrap();
    assert_eq!(t.plus_days(7).unwrap().to_text(), "2026-03-08T20:00:00+09:00");
}

#[test]
fn a_clock_reading_is_taken_within_the_calendar() {
    let t = Timestamp::from_reading(1256453853, 32400).unwrap();
    assert_eq!(t.to_text(), "2009-10-25T15:57:33+09:00");
    assert!(Timestamp::from_reading(i64::MAX, 0).is_none());
    assert!(Timestamp::from_reading(0, 86400).is_none());
    assert!(Timestamp::now().is_some());
}

#[test]
fn a_leap_second_is_kept_and_written_back() {
    let leap = Timestamp::parse("2016-12-31T23:59:60+00:00").unwrap();
    assert!(leap.leap_second());
    assert_eq!(leap.to_text(), "2016-12-31T23:59:60+00:00");
    let seoul = Timestamp::parse("2017-01-01T08:59:60+09:00").unwrap();
    assert_eq!(seoul, leap);
    assert_eq!(seoul.to_text(), "2017-01-01T08:59:60+09:00");
    let fraction = Timestamp::parse("2016-12-31T23:59:60.5+00:00").unwrap();
    assert_eq!(fraction.to_text(), "2016-12-31T23:59:60+00:00");
}

#[test]
fn a_leap_second_comes_between_its_neighbours() {
    let before = Timestamp::parse("2016-12-31T23:59:59+00:00").unwrap();
    let leap = Timestamp::parse("2016-12-31T23:59:60+00:00").unwrap();
    let after = Timestamp::parse("2017-01-01T00:00:00+00:00").unwrap();
    assert!(!before.leap_second());
    assert_ne!(before, leap);
    assert!(before.is_before(&leap));
    assert!(leap.is_before(&after));
    assert!(!leap.is_before(&before));
    assert!(leap.is_at_or_before(&leap));
    assert_eq!(before.epoch_seconds(), leap.epoch_seconds());
}

#[test]
fn days_after_a_leap_second_count_from_the_second_it_extends() {
    let leap = Timestamp::parse("2016-12-31T23:59:60+00:00").unwrap();
    let later = leap.plus_days(1).unwrap();
    assert!(!later.leap_second());
    assert_eq!(later.to_text(), "2017-01-01T23:59:59+00:00");
    assert_eq!(leap.plus_days(0), Some(leap));
}

#[test]
fn a_leap_second_needs_the_last_second_of_a_minute() {
    assert!(Timestamp::from_parts(1483228799, 0, 1_000_000_000).unwrap().leap_second());
    assert!(Timestamp::from_parts(1483228800, 0, 1_000_000_000).is_none());
    assert!(!Timestamp::from_parts(1483228800, 0, 5).unwrap().leap_second());
}
