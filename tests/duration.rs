use reaper::duration::{Duration, DurationError};

fn parse(s: &str) -> Duration {
    Duration::new(s.to_string())
}

#[test]
fn text_without_unit_is_permanent() {
    for s in ["", "abc", "10", "forever", "7 7 7", "y2"] {
        let d = parse(s);
        assert!(d.is_permanent(), "{s}");
        assert_eq!(d.to_unix_timestamp(1_700_000_000), 0);
        assert_eq!(d.checked_expiry(1_700_000_000), Ok(None));
    }
}

#[test]
fn ten_days() {
    let d = parse("10d");
    assert_eq!(
        (d.years, d.months, d.weeks, d.days, d.hours, d.minutes, d.seconds),
        (0, 0, 0, 10, 0, 0, 0)
    );
    assert!(!d.is_permanent());
    assert_eq!(d.to_unix_timestamp(1_000), 1_000 + 864_000);
    assert_eq!(d.string, "10d");
}

#[test]
fn two_years_three_months() {
    let d = parse("2y3mo");
    assert_eq!((d.years, d.months), (2, 3));
    assert_eq!((d.weeks, d.days, d.hours, d.minutes, d.seconds), (0, 0, 0, 0, 0));
    let now = 1_600_000_000;
    assert_eq!(d.to_unix_timestamp(now), now + 2 * 31_536_000 + 3 * 2_592_000);
}

#[test]
fn every_unit_has_its_width() {
    let d = parse("1y1mo1w1d1h1m1s");
    assert_eq!(
        (d.years, d.months, d.weeks, d.days, d.hours, d.minutes, d.seconds),
        (1, 1, 1, 1, 1, 1, 1)
    );
    assert_eq!(
        d.to_unix_timestamp(0),
        31_536_000 + 2_592_000 + 604_800 + 86_400 + 3_600 + 60 + 1
    );
}

#[test]
fn later_token_for_same_unit_wins() {
    let d = parse("1d 4d");
    assert_eq!(d.days, 4);
}

#[test]
fn m_is_minutes_and_mo_is_months() {
    assert_eq!(parse("5m").minutes, 5);
    assert_eq!(parse("5m").months, 0);
    assert_eq!(parse("5mo").months, 5);
    assert_eq!(parse("5mo").minutes, 0);
    assert_eq!(parse("3months").months, 3);
}

#[test]
fn filler_between_number_and_unit() {
    let d = parse("10 days");
    assert_eq!(d.days, 10);
    assert_eq!(d.seconds, 0);
    assert_eq!(parse("30sec").seconds, 30);
    assert_eq!(parse("2 weeks, 1 hour").weeks, 2);
    assert_eq!(parse("2 weeks, 1 hour").hours, 1);
}

#[test]
fn huge_number_saturates() {
    let d = parse("99999999999999999999999s");
    assert_eq!(d.seconds, u64::MAX);
    assert_eq!(d.checked_expiry(1), Err(DurationError::TooLong));
}

#[test]
fn expiry_that_fits() {
    let d = parse("1h");
    assert_eq!(d.checked_expiry(100), Ok(Some(3_700)));
}
