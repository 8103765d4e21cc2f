use surflog::datetime::DateTime;

#[test]
fn parse_canonical_text() {
    let d = DateTime::parse("2024-03-10 07:30").unwrap();
    assert_eq!(d, DateTime { year: 2024, month: 3, day: 10, hour: 7, minute: 30 });
}

#[test]
fn parse_rejects_other_layouts() {
    assert_eq!(DateTime::parse("2024-03-10"), None);
    assert_eq!(DateTime::parse("2024-13-01 00:00"), None);
    assert_eq!(DateTime::parse("2023-02-29 00:00"), None);
    assert_eq!(DateTime::parse("2024-03-10 24:00"), None);
    assert_eq!(DateTime::parse("10/03/2024 07:30"), None);
    assert_eq!(DateTime::parse(""), None);
}

#[test]
fn canonical_string_is_zero_padded() {
    let d = DateTime { year: 987, month: 1, day: 2, hour: 3, minute: 4 };
    assert_eq!(d.to_canonical_string(), "0987-01-02 03:04");
    let d = DateTime::parse("2024-03-10 07:30").unwrap();
    assert_eq!(d.to_canonical_string(), "2024-03-10 07:30");
}

#[test]
fn from_parts_checks_the_calendar() {
    assert!(DateTime::from_parts(2024, 2, 29, 0, 0).is_some());
    assert!(DateTime::from_parts(2000, 2, 29, 0, 0).is_some());
    assert!(DateTime::from_parts(1900, 2, 29, 0, 0).is_none());
    assert!(DateTime::from_parts(2023, 2, 29, 0, 0).is_none());
    assert!(DateTime::from_parts(2023, 4, 31, 0, 0).is_none());
    assert!(DateTime::from_parts(2023, 12, 31, 23, 59).is_some());
    assert!(DateTime::from_parts(2023, 12, 31, 23, 60).is_none());
    assert!(DateTime::from_parts(2023, 0, 1, 0, 0).is_none());
    assert!(DateTime::from_parts(2023, 1, 0, 0, 0).is_none());
    assert_eq!(
        DateTime::from_parts(2024, 3, 10, 7, 30),
        DateTime::parse("2024-03-10 07:30")
    );
}

#[test]
fn canonical_text_reads_back() {
    for text in ["2024-03-10 07:30", "0001-01-01 00:00", "9999-12-31 23:59", "2000-02-29 12:05"] {
        let d = DateTime::parse(text).unwrap();
        assert_eq!(DateTime::parse(&d.to_canonical_string()), Some(d));
    }
}
