use runner_orchestrator::text::decimal_text;
use runner_orchestrator::time::{Timestamp, FIRST_SECOND, LAST_SECOND};

#[test]
fn rfc3339_notation() {
    let text = |s, n| Timestamp::new(s, n).unwrap().rfc3339();
    assert_eq!(text(0, 0), "1970-01-01T00:00:00+00:00");
    assert_eq!(text(1431648000, 0), "2015-05-15T00:00:00+00:00");
    assert_eq!(text(-1, 1_000), "1969-12-31T23:59:59.000001+00:00");
    assert_eq!(text(59, 1_500_000_000), "1970-01-01T00:00:60.500+00:00");
    assert_eq!(text(FIRST_SECOND, 0), "-262143-01-01T00:00:00+00:00");
    assert_eq!(
        text(LAST_SECOND, 999_999_999),
        "+262142-12-31T23:59:59.999999999+00:00"
    );
}

#[test]
fn calendar_has_an_end() {
    assert!(Timestamp::new(FIRST_SECOND - 1, 0).is_none());
    assert!(Timestamp::new(LAST_SECOND + 1, 0).is_none());
    assert!(Timestamp::new(0, 1_000_000_000).is_none());
    assert!(Timestamp::new(59, 1_999_999_999).is_some());
    assert!(Timestamp::new(-1, 1_000_000_000).is_some());
    assert!(Timestamp::new(59, 2_000_000_000).is_none());
    assert!(chrono::DateTime::from_timestamp(FIRST_SECOND, 0).is_some());
    assert!(chrono::DateTime::from_timestamp(FIRST_SECOND - 1, 0).is_none());
    assert!(chrono::DateTime::from_timestamp(LAST_SECOND, 0).is_some());
    assert!(chrono::DateTime::from_timestamp(LAST_SECOND + 1, 0).is_none());
}

#[test]
fn clock_runs_forward() {
    let before = chrono::Utc::now().timestamp();
    let now = Timestamp::now();
    let after = chrono::Utc::now().timestamp();
    assert!(before <= now.seconds() && now.seconds() <= after);
    assert!(now.nanos() < 1_000_000_000);
}

#[test]
fn whole_minutes() {
    let at = |s, n| Timestamp::new(s, n).unwrap();
    assert_eq!(at(60, 0).minutes_since(&at(0, 0)), 1);
    assert_eq!(at(60, 0).minutes_since(&at(0, 1)), 0);
    assert_eq!(at(3659, 999_999_999).minutes_since(&at(0, 0)), 60);
    assert_eq!(at(0, 0).minutes_since(&at(60, 0)), 0);
    assert_eq!(
        at(LAST_SECOND, 0).minutes_since(&at(FIRST_SECOND, 0)),
        275747801759
    );
}

#[test]
fn decimal_notation() {
    assert_eq!(decimal_text(0), "0");
    assert_eq!(decimal_text(9), "9");
    assert_eq!(decimal_text(10), "10");
    assert_eq!(decimal_text(1050), "1050");
    assert_eq!(decimal_text(u64::MAX), "18446744073709551615");
    for n in [0u64, 7, 42, 999, 1000, 123456789] {
        assert_eq!(decimal_text(n).parse::<u64>().unwrap(), n);
    }
}
