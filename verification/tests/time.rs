//! Temporal resolution tests, with expected instants computed through
//! the calendar library the resolver itself leans on.

use kaisantantoudaijin::model::time::{
    AfterTimeSpecifier, AtTimeSpecifier, Hour, HourMinuteSpecifier, Minute, TimeSpecifier,
};
use kaisantantoudaijin::model::zone::ZoneId;

fn ts(s: &str) -> i64 {
    chrono::DateTime::parse_from_rfc3339(s).unwrap().timestamp()
}

fn zone(name: &str) -> ZoneId {
    ZoneId::parse(name).unwrap()
}

#[test]
fn test_calculate_time_after() {
    let now = ts("2024-07-20T13:15:00Z");
    let spec = TimeSpecifier::After(AfterTimeSpecifier::HourMinute(3, 15));
    let expected = ts("2024-07-20T16:30:00Z");
    assert_eq!(spec.calculate_time(now, &zone("UTC")), Some(expected));
    // An offset zone (one hour east) changes nothing for a duration.
    assert_eq!(spec.calculate_time(now, &zone("Etc/GMT-1")), Some(expected));
}

#[test]
fn test_calculate_time_at() {
    let now = ts("2024-07-20T13:15:00Z");
    let spec = TimeSpecifier::At(AtTimeSpecifier::HourMinute {
        hour: Hour::from_u8(12).unwrap(),
        minute: Minute::from_u8(35).unwrap(),
        is_tomorrow: false,
    });
    let expected = ts("2024-07-20T12:35:00Z");
    assert_eq!(spec.calculate_time(now, &zone("UTC")), Some(expected));
}

#[test]
fn test_calculate_time_at_minute_with_tz() {
    // Nine hours east, as the original's fixed offset was.
    let now = ts("2024-07-20T13:15:00+09:00");
    let spec = TimeSpecifier::At(AtTimeSpecifier::Minute(Minute::from_u8(35).unwrap()));
    let expected = ts("2024-07-20T13:35:00+09:00");
    assert_eq!(spec.calculate_time(now, &zone("Etc/GMT-9")), Some(expected));
}

#[test]
fn test_calculate_time_at_tomorrow() {
    let now = ts("2024-07-20T13:15:00Z");
    let spec = TimeSpecifier::At(AtTimeSpecifier::HourMinute {
        hour: Hour::from_u8(23).unwrap(),
        minute: Minute::from_u8(25).unwrap(),
        is_tomorrow: true,
    });
    let expected = ts("2024-07-21T23:25:00Z");
    assert_eq!(spec.calculate_time(now, &zone("UTC")), Some(expected));
}

#[test]
fn test_calculate_time_at_with_tz() {
    let now = ts("2024-07-20T03:05:00+09:00");
    let spec = TimeSpecifier::At(AtTimeSpecifier::HourMinute {
        hour: Hour::from_u8(7).unwrap(),
        minute: Minute::from_u8(15).unwrap(),
        is_tomorrow: false,
    });
    let expected = ts("2024-07-20T07:15:00+09:00");
    assert_eq!(spec.calculate_time(now, &zone("Etc/GMT-9")), Some(expected));
}

#[test]
fn test_calculate_time_exactly() {
    let now = chrono::Utc::now().timestamp();
    let expected = now + 10;
    let spec = TimeSpecifier::Exactly(expected);
    assert_eq!(spec.calculate_time(now, &zone("UTC")), Some(expected));
    assert_eq!(spec.calculate_time(now, &zone("Etc/GMT-1")), Some(expected));
}

#[test]
fn test_hour_minute_round_trip() {
    for h in 0u8..24 {
        let hour = Hour::from_u8(h).unwrap();
        assert_eq!(hour.as_u32(), h as u32);
    }
    for h in 24u8..=255 {
        assert!(Hour::from_u8(h).is_err());
    }
    for m in 0u8..60 {
        let minute = Minute::from_u8(m).unwrap();
        assert_eq!(minute.as_u32(), m as u32);
    }
    for m in 60u8..=255 {
        assert!(Minute::from_u8(m).is_err());
    }
}

#[test]
fn test_calculate_time_now_variant() {
    let now = ts("2024-07-20T13:15:00Z");
    assert_eq!(TimeSpecifier::Now.calculate_time(now, &zone("Asia/Tokyo")), Some(now));
}

#[test]
fn test_calculate_time_in_real_zone() {
    // 13:15 UTC is 22:15 in Tokyo; minute 35 of the current local hour
    // is 22:35 Tokyo time, with no day rollover.
    let now = ts("2024-07-20T13:15:00Z");
    let spec = TimeSpecifier::At(AtTimeSpecifier::Minute(Minute::from_u8(35).unwrap()));
    let expected = ts("2024-07-20T22:35:00+09:00");
    assert_eq!(spec.calculate_time(now, &zone("Asia/Tokyo")), Some(expected));
}

#[test]
fn test_calculate_time_skipped_wall_clock() {
    // In America/New_York the wall clock jumps from 02:00 to 03:00 on
    // 2024-03-10: half past two does not exist that day, so resolution
    // fails rather than guessing.
    let now = ts("2024-03-10T01:00:00-05:00");
    let spec = TimeSpecifier::At(AtTimeSpecifier::HourMinute {
        hour: Hour::from_u8(2).unwrap(),
        minute: Minute::from_u8(30).unwrap(),
        is_tomorrow: false,
    });
    assert_eq!(spec.calculate_time(now, &zone("America/New_York")), None);
}

#[test]
fn test_with_hour_and_minute() {
    assert_eq!(
        HourMinuteSpecifier::with_hour(1, Some(30)),
        HourMinuteSpecifier::Both(1, 30)
    );
    assert_eq!(
        HourMinuteSpecifier::<u8, u8>::with_hour(2, None),
        HourMinuteSpecifier::Hour(2)
    );
    assert_eq!(
        HourMinuteSpecifier::with_minute(15, Some(3)),
        HourMinuteSpecifier::Both(3, 15)
    );
    assert_eq!(
        HourMinuteSpecifier::<u8, u8>::with_minute(15, None),
        HourMinuteSpecifier::Minute(15)
    );
    assert_eq!(
        AfterTimeSpecifier::with_hour(1, Some(30)),
        AfterTimeSpecifier::HourMinute(1, 30)
    );
    assert_eq!(AfterTimeSpecifier::with_hour(1, None), AfterTimeSpecifier::Hour(1));
    assert_eq!(
        AfterTimeSpecifier::with_minute(5, None),
        AfterTimeSpecifier::Minute(5)
    );
    let h = Hour::from_u8(7).unwrap();
    let m = Minute::from_u8(45).unwrap();
    assert_eq!(
        AtTimeSpecifier::with_hour(h, Some(m), false),
        AtTimeSpecifier::HourMinute { hour: h, minute: m, is_tomorrow: false }
    );
    assert_eq!(
        AtTimeSpecifier::with_hour(h, None, true),
        AtTimeSpecifier::Hour { hour: h, is_tomorrow: true }
    );
    assert_eq!(AtTimeSpecifier::with_minute(m, None), AtTimeSpecifier::Minute(m));
    assert_eq!(
        AtTimeSpecifier::with_minute(m, Some(h)),
        AtTimeSpecifier::HourMinute { hour: h, minute: m, is_tomorrow: false }
    );
}

#[test]
fn test_duration_seconds() {
    assert_eq!(AfterTimeSpecifier::Hour(2).duration_seconds(), 7200);
    assert_eq!(AfterTimeSpecifier::Minute(90).duration_seconds(), 5400);
    assert_eq!(AfterTimeSpecifier::HourMinute(1, 30).duration_seconds(), 5400);
    assert_eq!(AfterTimeSpecifier::Second(255).duration_seconds(), 255);
}

#[test]
fn test_interest_flags() {
    let after = TimeSpecifier::After(AfterTimeSpecifier::Minute(5));
    let at = TimeSpecifier::At(AtTimeSpecifier::Minute(Minute::from_u8(5).unwrap()));
    let now = TimeSpecifier::Now;
    assert!(after.is_interested_in_time());
    assert!(!after.is_interested_in_duration());
    assert!(!at.is_interested_in_time());
    assert!(at.is_interested_in_duration());
    assert!(now.is_interested_in_time());
    assert!(now.is_interested_in_duration());
}
