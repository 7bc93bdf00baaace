use fokus_editor::instant::Timestamp;

#[test]
fn an_instant_is_read_from_a_date_and_time() {
    assert_eq!(Timestamp::parse("2024-05-01T09:30:00Z"), Some(Timestamp { secs: 1714555800, nanos: 0 }));
    assert_eq!(Timestamp::parse("2024-05-01 09:30:00Z"), Some(Timestamp { secs: 1714555800, nanos: 0 }));
    assert_eq!(Timestamp::parse("2024-05-01T18:30:00+09:00"), Some(Timestamp { secs: 1714555800, nanos: 0 }));
    assert_eq!(
        Timestamp::parse("2024-05-01T09:30:00.25Z"),
        Some(Timestamp { secs: 1714555800, nanos: 250_000_000 })
    );
    assert_eq!(Timestamp::parse("1969-12-31T23:59:59Z"), Some(Timestamp { secs: -1, nanos: 0 }));
}

#[test]
fn a_text_that_is_no_date_and_time_is_not_read() {
    assert_eq!(Timestamp::parse(""), None);
    assert_eq!(Timestamp::parse("2024-05-01"), None);
    assert_eq!(Timestamp::parse("2024-05-01T09:30:00"), None);
    assert_eq!(Timestamp::parse("2024-13-01T09:30:00Z"), None);
    assert_eq!(Timestamp::parse("2024-05-01T09:30:00Z and more"), None);
}

#[test]
fn an_instant_is_written_as_a_date_and_time() {
    assert_eq!(Timestamp { secs: 1714555800, nanos: 0 }.render(), Some("2024-05-01T09:30:00Z".to_string()));
    assert_eq!(Timestamp { secs: 0, nanos: 0 }.render(), Some("1970-01-01T00:00:00Z".to_string()));
    assert_eq!(Timestamp { secs: -1, nanos: 0 }.render(), Some("1969-12-31T23:59:59Z".to_string()));
    assert_eq!(
        Timestamp { secs: 1714555800, nanos: 500_000_000 }.render(),
        Some("2024-05-01T09:30:00.500Z".to_string())
    );
    assert_eq!(
        Timestamp { secs: 1714555800, nanos: 1 }.render(),
        Some("2024-05-01T09:30:00.000000001Z".to_string())
    );
}

#[test]
fn an_instant_out_of_range_is_not_written() {
    assert_eq!(Timestamp { secs: i64::MAX, nanos: 0 }.render(), None);
    assert_eq!(Timestamp { secs: i64::MIN, nanos: 0 }.render(), None);
    assert_eq!(Timestamp { secs: 0, nanos: 2_000_000_000 }.render(), None);
    assert_eq!(Timestamp { secs: 0, nanos: 1_000_000_000 }.render(), None);
}

#[test]
fn an_instant_is_read_back_from_its_text() {
    for stamp in [
        Timestamp { secs: 0, nanos: 0 },
        Timestamp { secs: 1714555800, nanos: 0 },
        Timestamp { secs: 1714555800, nanos: 123_456_789 },
        Timestamp { secs: -86_400, nanos: 999_999_999 },
    ] {
        let text = stamp.render().unwrap();
        assert_eq!(Timestamp::parse(&text), Some(stamp));
    }
}

#[test]
fn instants_are_ordered_by_seconds_and_then_nanoseconds() {
    let early = Timestamp { secs: 10, nanos: 900 };
    let late = Timestamp { secs: 11, nanos: 0 };
    let later = Timestamp { secs: 11, nanos: 1 };
    assert!(early.precedes(&late));
    assert!(late.precedes(&later));
    assert!(early.precedes(&later));
    assert!(!late.precedes(&early));
    assert!(!later.precedes(&late));
    assert!(!late.precedes(&late));
    assert!(early < late && late < later);
}
