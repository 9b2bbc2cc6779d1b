use authramp::instant::Instant;

#[test]
fn instant_from_parts() {
    let t = Instant::new(1_700_000_000, 5).unwrap();
    assert_eq!(t.secs(), 1_700_000_000);
    assert_eq!(t.nanos(), 5);
    assert_eq!(Instant::from_secs(-3).secs(), -3);
    assert_eq!(Instant::from_secs(-3).nanos(), 0);
    assert_eq!(Instant::new(7, 0), Some(Instant::from_secs(7)));
    assert_eq!(Instant::new(7, 999_999_999).unwrap().nanos(), 999_999_999);
}

#[test]
fn leap_second_reads_as_the_next_second() {
    let t = Instant::new(59, 1_000_000_000).unwrap();
    assert_eq!(t.secs(), 60);
    assert_eq!(t.nanos(), 0);
    let t = Instant::new(59, 1_999_999_999).unwrap();
    assert_eq!(t.secs(), 60);
    assert_eq!(t.nanos(), 999_999_999);
    assert_eq!(Instant::new(59, 2_000_000_000), None);
    assert_eq!(Instant::new(59, u32::MAX), None);
    assert_eq!(Instant::new(i64::MAX, 1_000_000_000), None);
    assert!(Instant::new(i64::MAX, 999_999_999).is_some());
}

#[test]
fn instants_are_ordered() {
    let a = Instant::new(10, 500).unwrap();
    let b = Instant::new(10, 501).unwrap();
    let c = Instant::new(11, 0).unwrap();
    let d = Instant::new(-1, 999_999_999).unwrap();
    assert!(a.is_before(&b));
    assert!(b.is_before(&c));
    assert!(a.is_before(&c));
    assert!(d.is_before(&a));
    assert!(!b.is_before(&a));
    assert!(!a.is_before(&a));
    assert!(!c.is_before(&d));
    assert!(Instant::from_secs(i64::MIN).is_before(&Instant::from_secs(i64::MAX)));
}

#[test]
fn instants_move_by_seconds() {
    let a = Instant::new(10, 500).unwrap();
    assert_eq!(a.plus_seconds(30), Instant::new(40, 500));
    assert_eq!(a.plus_seconds(-30), Instant::new(-20, 500));
    assert_eq!(a.plus_seconds(0), Some(a));
    assert_eq!(a.plus_seconds(i64::MAX), None);
    assert_eq!(a.plus_seconds(i64::MAX - 10), Instant::new(i64::MAX, 500));
    assert_eq!(Instant::from_secs(-5).plus_seconds(i64::MIN), None);
    assert_eq!(Instant::from_secs(0).plus_seconds(i64::MIN), Some(Instant::from_secs(i64::MIN)));
}

#[test]
fn seconds_until_counts_whole_seconds() {
    let now = Instant::new(100, 600_000_000).unwrap();
    assert_eq!(now.seconds_until(&Instant::new(130, 600_000_000).unwrap()), 30);
    assert_eq!(now.seconds_until(&Instant::new(130, 599_999_999).unwrap()), 29);
    assert_eq!(now.seconds_until(&Instant::new(130, 0).unwrap()), 29);
    assert_eq!(now.seconds_until(&Instant::new(130, 999_999_999).unwrap()), 30);
    assert_eq!(now.seconds_until(&Instant::new(101, 0).unwrap()), 0);
    assert_eq!(now.seconds_until(&Instant::new(100, 600_000_001).unwrap()), 0);
    assert_eq!(now.seconds_until(&now), 0);
    assert_eq!(now.seconds_until(&Instant::from_secs(50)), 0);
    assert_eq!(
        Instant::from_secs(i64::MIN).seconds_until(&Instant::from_secs(i64::MAX)),
        u64::MAX
    );
    assert_eq!(
        Instant::new(i64::MIN, 1).unwrap().seconds_until(&Instant::from_secs(i64::MAX)),
        u64::MAX - 1
    );
}

#[test]
fn timestamps_are_read() {
    assert_eq!(Instant::parse("2023-01-01T00:00:00Z"), Some(Instant::from_secs(1_672_531_200)));
    assert_eq!(Instant::parse("2023-01-01 00:00:00 UTC"), Some(Instant::from_secs(1_672_531_200)));
    assert_eq!(Instant::parse("2023-01-01 02:00:00+02:00"), Some(Instant::from_secs(1_672_531_200)));
    assert_eq!(Instant::parse("1970-01-01T00:00:00Z"), Some(Instant::from_secs(0)));
    assert_eq!(Instant::parse("1969-12-31T23:59:59.5Z"), Instant::new(-1, 500_000_000));
    assert_eq!(
        Instant::parse("2024-06-01 12:00:00.987654321 UTC"),
        Instant::new(1_717_243_200, 987_654_321)
    );
    assert_eq!(Instant::parse("2016-12-31T23:59:60Z"), Some(Instant::from_secs(1_483_228_800)));
    assert_eq!(Instant::parse("2016-12-31T23:59:60.25Z"), Instant::new(1_483_228_800, 250_000_000));
}

#[test]
fn what_is_no_timestamp_is_not_read() {
    assert_eq!(Instant::parse(""), None);
    assert_eq!(Instant::parse("yesterday"), None);
    assert_eq!(Instant::parse("2023-01-01"), None);
    assert_eq!(Instant::parse("2023-01-01T00:00:00"), None);
    assert_eq!(Instant::parse("2023-13-01T00:00:00Z"), None);
    assert_eq!(Instant::parse("1672531200"), None);
    assert_eq!(Instant::parse("2023-01-01T00:00:00Z and more"), None);
}

#[test]
fn timestamps_are_written() {
    assert_eq!(
        Instant::from_secs(1_672_531_200).to_text(),
        Some(String::from("2023-01-01 00:00:00 UTC"))
    );
    assert_eq!(Instant::from_secs(0).to_text(), Some(String::from("1970-01-01 00:00:00 UTC")));
    assert_eq!(
        Instant::new(-1, 500_000_000).unwrap().to_text(),
        Some(String::from("1969-12-31 23:59:59.500 UTC"))
    );
    assert_eq!(
        Instant::new(1_717_243_200, 987_654_321).unwrap().to_text(),
        Some(String::from("2024-06-01 12:00:00.987654321 UTC"))
    );
    assert_eq!(Instant::from_secs(i64::MAX).to_text(), None);
    assert_eq!(Instant::from_secs(i64::MIN).to_text(), None);
}

#[test]
fn timestamps_are_written_under_a_pattern() {
    let t = Instant::from_secs(1_672_531_200 + 13 * 3600 + 5 * 60 + 9);
    assert_eq!(t.format("%Y-%m-%d %I:%M:%S %p"), Some(String::from("2023-01-01 01:05:09 PM")));
    assert_eq!(t.format("%H:%M"), Some(String::from("13:05")));
    assert_eq!(t.format(""), Some(String::new()));
    assert_eq!(t.format("plain"), Some(String::from("plain")));
    assert_eq!(t.format("%Q"), None);
    assert_eq!(Instant::from_secs(i64::MAX).format("%Y"), None);
}

#[test]
fn written_timestamps_read_back() {
    let instants = vec![
        Instant::from_secs(0),
        Instant::from_secs(1_700_000_000),
        Instant::new(1_700_000_000, 1).unwrap(),
        Instant::new(1_700_000_000, 120_000_000).unwrap(),
        Instant::new(-86_400 * 365 * 300, 999_999_999).unwrap(),
        Instant::new(32_503_680_000, 5_000).unwrap(),
    ];
    for t in instants {
        let text = t.to_text().unwrap();
        assert_eq!(Instant::parse(&text), Some(t));
    }
}
