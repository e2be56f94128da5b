use chrono::{DateTime, TimeDelta, Utc};
use fred::events::counting_should_delete;
use fred::ids::{checked_discord_id, db_id, discord_id};
use fred::text::{format_int, parse_i32, user_mention};
use fred::time::{Delta, Timestamp, MAX_TIMESTAMP_SECS, MIN_TIMESTAMP_SECS};

fn ts(secs: i64, nanos: u32) -> Timestamp {
    Timestamp::from_parts(secs, nanos).unwrap()
}

fn chrono_of(t: &Timestamp) -> DateTime<Utc> {
    DateTime::from_timestamp(t.secs(), t.subsec_nanos()).unwrap()
}

#[test]
fn timestamp_range_matches_chrono() {
    assert_eq!(DateTime::<Utc>::MIN_UTC.timestamp(), MIN_TIMESTAMP_SECS);
    assert_eq!(DateTime::<Utc>::MAX_UTC.timestamp(), MAX_TIMESTAMP_SECS);
    assert_eq!(DateTime::<Utc>::MAX_UTC.timestamp_subsec_nanos(), 999_999_999);
    assert!(Timestamp::from_parts(MIN_TIMESTAMP_SECS, 0).is_some());
    assert!(Timestamp::from_parts(MIN_TIMESTAMP_SECS - 1, 999_999_999).is_none());
    assert!(Timestamp::from_parts(MAX_TIMESTAMP_SECS, 999_999_999).is_some());
    assert!(Timestamp::from_parts(MAX_TIMESTAMP_SECS + 1, 0).is_none());
    assert!(Timestamp::from_parts(0, 1_000_000_000).is_none());
}

#[test]
fn timestamp_parts_round_trip() {
    let t = ts(-5, 250);
    assert_eq!(t.secs(), -5);
    assert_eq!(t.subsec_nanos(), 250);
    let c = chrono_of(&t);
    assert_eq!(c.timestamp(), -5);
    assert_eq!(c.timestamp_subsec_nanos(), 250);
}

#[test]
fn now_is_recent() {
    let now = Timestamp::now().unwrap();
    assert!(now.secs() > 1_600_000_000);
    assert!(now.subsec_nanos() < 1_000_000_000);
}

#[test]
fn clock_readings() {
    assert_eq!(Timestamp::from_clock_reading(None), None);
    let t = Timestamp::from_clock_reading(Some((1_700_000_000, 42))).unwrap();
    assert_eq!((t.secs(), t.subsec_nanos()), (1_700_000_000, 42));
    assert_eq!(Timestamp::from_clock_reading(Some((1, 1_000_000_000))), None);
    let last = MAX_TIMESTAMP_SECS as u64;
    assert!(Timestamp::from_clock_reading(Some((last, 999_999_999))).is_some());
    assert_eq!(Timestamp::from_clock_reading(Some((last + 1, 0))), None);
    assert_eq!(Timestamp::from_clock_reading(Some((u64::MAX, 0))), None);
}

#[test]
fn hours_bounds_match_chrono() {
    let limit: i64 = i64::MAX / 3_600_000;
    for h in [0, 1, -1, 24, limit, -limit, limit + 1, -limit - 1, i64::MAX, i64::MIN] {
        assert_eq!(Delta::try_hours(h).is_some(), TimeDelta::try_hours(h).is_some(), "hours {}", h);
    }
    for m in [0i64, 30, -30, i64::MAX / 60_000, i64::MAX / 60_000 + 1, i64::MIN] {
        assert_eq!(Delta::try_minutes(m).is_some(), TimeDelta::try_minutes(m).is_some(), "minutes {}", m);
    }
}

#[test]
fn addition_overflow_matches_chrono() {
    let cases = [
        (ts(0, 0), 5i64),
        (ts(MAX_TIMESTAMP_SECS - 3600, 0), 1),
        (ts(MAX_TIMESTAMP_SECS - 3599, 0), 1),
        (ts(MIN_TIMESTAMP_SECS + 3600, 0), -1),
        (ts(MIN_TIMESTAMP_SECS + 3599, 999_999_999), -1),
        (ts(1_700_000_000, 5), 2_000_000_000),
        (ts(1_700_000_000, 5), -2_000_000_000),
    ];
    for (t, h) in cases {
        let d = Delta::try_hours(h).unwrap();
        let ours = t.checked_add(d);
        let theirs = chrono_of(&t).checked_add_signed(TimeDelta::try_hours(h).unwrap());
        assert_eq!(ours.is_some(), theirs.is_some(), "{:?} + {}h", t, h);
        if let (Some(a), Some(b)) = (ours, theirs) {
            assert_eq!(a.secs(), b.timestamp());
            assert_eq!(a.subsec_nanos(), b.timestamp_subsec_nanos());
        }
        let ours = t.checked_sub(d);
        let theirs = chrono_of(&t).checked_sub_signed(TimeDelta::try_hours(h).unwrap());
        assert_eq!(ours.is_some(), theirs.is_some(), "{:?} - {}h", t, h);
        if let (Some(a), Some(b)) = (ours, theirs) {
            assert_eq!(a.secs(), b.timestamp());
        }
    }
}

#[test]
fn span_counts_match_chrono() {
    let pairs = [
        (ts(10_000, 0), ts(0, 0)),
        (ts(0, 0), ts(10_000, 0)),
        (ts(0, 500), ts(3_661, 0)),
        (ts(3_661, 1), ts(0, 0)),
        (ts(-7_201, 3), ts(0, 999_999_999)),
    ];
    for (a, b) in pairs {
        let ours = a.since(&b);
        let theirs = chrono_of(&a) - chrono_of(&b);
        assert_eq!(ours.num_seconds(), theirs.num_seconds());
        assert_eq!(ours.num_hours(), theirs.num_hours());
        assert_eq!(ours.num_minutes(), theirs.num_minutes());
        match theirs.to_std() {
            Ok(d) => assert_eq!(ours.to_std(), Some((d.as_secs(), d.subsec_nanos()))),
            Err(_) => assert_eq!(ours.to_std(), None),
        }
    }
}

#[test]
fn span_format_is_humantime() {
    let d = ts(9420, 0).since(&ts(0, 0));
    assert_eq!(d.format().unwrap(), "2h 37m");
    let d = ts(0, 32_000_000).since(&ts(0, 0));
    assert_eq!(d.format().unwrap(), "32ms");
    assert_eq!(ts(0, 0).since(&ts(1, 0)).format(), None);
    assert_eq!(ts(0, 0).since(&ts(0, 0)).format().unwrap(), "0s");
}

#[test]
fn comparisons() {
    assert!(ts(1, 0).is_after(&ts(0, 999_999_999)));
    assert!(!ts(1, 0).is_after(&ts(1, 0)));
    let short = Delta::try_minutes(29).unwrap();
    let long = Delta::try_minutes(30).unwrap();
    assert!(short.is_less_than(&long));
    assert!(!long.is_less_than(&long));
}

#[test]
fn integers_are_written_as_display_does() {
    for n in [0i128, 7, 10, 42, -1, -10, 1234567890, i64::MAX as i128, i64::MIN as i128, u64::MAX as i128, i128::MIN, i128::MAX] {
        assert_eq!(format_int(n), n.to_string());
    }
}

#[test]
fn i32_is_read_as_parse_does() {
    let cases = [
        "0", "7", "-7", "+7", "007", "-0", "", "+", "-", "12a", " 1", "1 ", "2147483647", "2147483648",
        "-2147483648", "-2147483649", "99999999999999999999", "1-", "--1", "+-1", "٣", "1.0",
    ];
    for c in cases {
        assert_eq!(parse_i32(c), c.parse::<i32>().ok(), "{:?}", c);
    }
}

#[test]
fn mentions() {
    assert_eq!(user_mention(42), "<@42>");
    assert_eq!(user_mention(u64::MAX), format!("<@{}>", u64::MAX));
}

#[test]
fn ids_round_trip() {
    assert_eq!(db_id(5), 5);
    assert_eq!(db_id(u64::MAX), -1);
    assert_eq!(db_id(1u64 << 63), i64::MIN);
    assert_eq!(discord_id(-1), u64::MAX);
    assert_eq!(discord_id(i64::MIN), 1u64 << 63);
    for id in [0u64, 1, 1u64 << 63, u64::MAX, 123456789012345678] {
        assert_eq!(discord_id(db_id(id)), id);
        assert_eq!(db_id(id), id as i64);
    }
    assert_eq!(checked_discord_id(5), Some(5));
    assert_eq!(checked_discord_id(-5), None);
}

#[test]
fn counting_channel() {
    assert_eq!(counting_should_delete("41", "42"), Some(false));
    assert_eq!(counting_should_delete("41", "43"), Some(true));
    assert_eq!(counting_should_delete("41", "+42"), Some(false));
    assert_eq!(counting_should_delete("-1", "0"), Some(false));
    assert_eq!(counting_should_delete("41", "forty-two"), None);
    assert_eq!(counting_should_delete("hello", "1"), None);
    assert_eq!(counting_should_delete("2147483647", "0"), None);
    for n in [-5i32, 0, 9, 99, 12345, 2147483646] {
        assert_eq!(counting_should_delete(&n.to_string(), &(n + 1).to_string()), Some(false));
    }
}
