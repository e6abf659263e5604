//! Grammar tests: every accepted form yields exactly the structured
//! value the grammar promises, and the rejected forms fail.

use kaisantantoudaijin::model::command::{command, kaisanee, time_range, Command, TimeRangeSpecifier};
use kaisantantoudaijin::model::kaisanee::KaisaneeSpecifier;
use kaisantantoudaijin::model::time::{AfterTimeSpecifier, AtTimeSpecifier, Hour, Minute, TimeSpecifier};
use kaisantantoudaijin::model::zone::ZoneId;

fn hour(h: u8) -> Hour {
    Hour::from_u8(h).unwrap()
}

fn minute(m: u8) -> Minute {
    Minute::from_u8(m).unwrap()
}

#[test]
fn test_help_command() {
    assert_eq!(command("help"), Ok(Command::Help));
}

#[test]
fn test_setting_command() {
    assert_eq!(
        command("timezone UTC"),
        Ok(Command::TimeZone(ZoneId::parse("UTC").unwrap()))
    );
    assert_eq!(
        command("timezone Etc/GMT+0"),
        Ok(Command::TimeZone(ZoneId::parse("Etc/GMT+0").unwrap()))
    );
    assert!(command("timezone NoSuchTZ").is_err());
    assert_eq!(
        command("require-permission はい"),
        Ok(Command::RequirePermission(true))
    );
    assert_eq!(
        command("require-permission no"),
        Ok(Command::RequirePermission(false))
    );
    assert_eq!(command("show-setting"), Ok(Command::ShowSetting));
}

#[test]
fn test_kaisan_command_ja() {
    assert_eq!(
        command("明日の1時に"),
        Ok(Command::Kaisan {
            kaisanee: KaisaneeSpecifier::All,
            time_range: TimeRangeSpecifier::At(TimeSpecifier::At(AtTimeSpecifier::Hour {
                hour: hour(1),
                is_tomorrow: true,
            }))
        })
    );
    assert_eq!(
        command("10分後 私"),
        Ok(Command::Kaisan {
            kaisanee: KaisaneeSpecifier::Me,
            time_range: TimeRangeSpecifier::At(TimeSpecifier::After(AfterTimeSpecifier::Minute(
                10
            )))
        })
    );
    assert_eq!(
        command("10分に私を解散"),
        Ok(Command::Kaisan {
            kaisanee: KaisaneeSpecifier::Me,
            time_range: TimeRangeSpecifier::At(TimeSpecifier::At(AtTimeSpecifier::Minute(
                minute(10)
            ))),
        })
    );
    assert_eq!(
        command("全員を一分後"),
        Ok(Command::Kaisan {
            kaisanee: KaisaneeSpecifier::All,
            time_range: TimeRangeSpecifier::At(TimeSpecifier::After(AfterTimeSpecifier::Minute(
                1
            )))
        })
    );
}

#[test]
fn test_kaisan_command_en() {
    assert_eq!(
        command("me 10:10"),
        Ok(Command::Kaisan {
            kaisanee: KaisaneeSpecifier::Me,
            time_range: TimeRangeSpecifier::At(TimeSpecifier::At(AtTimeSpecifier::HourMinute {
                hour: hour(10),
                minute: minute(10),
                is_tomorrow: false,
            }))
        })
    );
    assert_eq!(
        command("10:10 tomorrow"),
        Ok(Command::Kaisan {
            kaisanee: KaisaneeSpecifier::All,
            time_range: TimeRangeSpecifier::At(TimeSpecifier::At(AtTimeSpecifier::HourMinute {
                hour: hour(10),
                minute: minute(10),
                is_tomorrow: true,
            }))
        })
    );
}

#[test]
fn test_kaisanee_ja() {
    assert_eq!(kaisanee("全員"), Ok(KaisaneeSpecifier::All));
    assert_eq!(kaisanee("わたし"), Ok(KaisaneeSpecifier::Me));
}

#[test]
fn test_kaisanee_en() {
    assert_eq!(kaisanee("All"), Ok(KaisaneeSpecifier::All));
    assert_eq!(kaisanee("me"), Ok(KaisaneeSpecifier::Me));
    assert_eq!(
        kaisanee("<@!12345> <@!45678><@!99999>"),
        Ok(KaisaneeSpecifier::Users(vec![12345, 45678, 99999]))
    );
}

#[test]
fn test_now_ja() {
    assert_eq!(
        time_range("今すぐ"),
        Ok(TimeRangeSpecifier::At(TimeSpecifier::Now))
    );
}

#[test]
fn test_now_en() {
    assert_eq!(
        time_range("now"),
        Ok(TimeRangeSpecifier::At(TimeSpecifier::Now))
    );
}

#[test]
fn test_at_ja() {
    assert_eq!(
        time_range("二十分"),
        Ok(TimeRangeSpecifier::At(TimeSpecifier::At(
            AtTimeSpecifier::Minute(minute(20))
        )))
    );
    assert_eq!(
        time_range("0:15"),
        Ok(TimeRangeSpecifier::At(TimeSpecifier::At(
            AtTimeSpecifier::HourMinute {
                hour: hour(0),
                minute: minute(15),
                is_tomorrow: false,
            }
        )))
    );
    assert!(time_range("90分").is_err());
    assert_eq!(
        time_range("十時"),
        Ok(TimeRangeSpecifier::At(TimeSpecifier::At(
            AtTimeSpecifier::Hour {
                hour: hour(10),
                is_tomorrow: false,
            }
        )))
    );
    assert_eq!(
        time_range("1時半"),
        Ok(TimeRangeSpecifier::At(TimeSpecifier::At(
            AtTimeSpecifier::HourMinute {
                hour: hour(1),
                minute: minute(30),
                is_tomorrow: false,
            }
        )))
    );
    assert!(time_range("30時").is_err());
    assert_eq!(
        time_range("明日の一時"),
        Ok(TimeRangeSpecifier::At(TimeSpecifier::At(
            AtTimeSpecifier::Hour {
                hour: hour(1),
                is_tomorrow: true,
            }
        )))
    );
    assert_eq!(
        time_range("明日の10時15分"),
        Ok(TimeRangeSpecifier::At(TimeSpecifier::At(
            AtTimeSpecifier::HourMinute {
                hour: hour(10),
                minute: minute(15),
                is_tomorrow: true,
            }
        )))
    );
    assert!(time_range("明日の15分").is_err());
}

#[test]
fn test_after_ja() {
    assert_eq!(
        time_range("90分後"),
        Ok(TimeRangeSpecifier::At(TimeSpecifier::After(
            AfterTimeSpecifier::Minute(90)
        )))
    );
    assert_eq!(
        time_range("一時間後"),
        Ok(TimeRangeSpecifier::At(TimeSpecifier::After(
            AfterTimeSpecifier::Hour(1)
        )))
    );
    assert_eq!(
        time_range("1時間30分後"),
        Ok(TimeRangeSpecifier::At(TimeSpecifier::After(
            AfterTimeSpecifier::HourMinute(1, 30)
        )))
    );
    assert_eq!(
        time_range("三秒後"),
        Ok(TimeRangeSpecifier::At(TimeSpecifier::After(
            AfterTimeSpecifier::Second(3)
        )))
    );
}

#[test]
fn test_by_ja() {
    assert_eq!(
        time_range("12:12まで"),
        Ok(TimeRangeSpecifier::By(TimeSpecifier::At(
            AtTimeSpecifier::HourMinute {
                hour: hour(12),
                minute: minute(12),
                is_tomorrow: false,
            }
        )))
    );
    assert_eq!(
        time_range("四十五分まで"),
        Ok(TimeRangeSpecifier::By(TimeSpecifier::At(
            AtTimeSpecifier::Minute(minute(45))
        )))
    );
    assert_eq!(
        time_range("十二時まで"),
        Ok(TimeRangeSpecifier::By(TimeSpecifier::At(
            AtTimeSpecifier::Hour {
                hour: hour(12),
                is_tomorrow: false,
            }
        )))
    );
    assert_eq!(
        time_range("明日の1時まで"),
        Ok(TimeRangeSpecifier::By(TimeSpecifier::At(
            AtTimeSpecifier::Hour {
                hour: hour(1),
                is_tomorrow: true,
            }
        )))
    );
    assert_eq!(
        time_range("明日の三時二十二分まで"),
        Ok(TimeRangeSpecifier::By(TimeSpecifier::At(
            AtTimeSpecifier::HourMinute {
                hour: hour(3),
                minute: minute(22),
                is_tomorrow: true,
            }
        )))
    );
}

#[test]
fn test_within_ja() {
    assert_eq!(
        time_range("九十分後まで"),
        Ok(TimeRangeSpecifier::By(TimeSpecifier::After(
            AfterTimeSpecifier::Minute(90)
        )))
    );
    assert_eq!(
        time_range("11時間後まで"),
        Ok(TimeRangeSpecifier::By(TimeSpecifier::After(
            AfterTimeSpecifier::Hour(11)
        )))
    );
    assert_eq!(
        time_range("90分以内"),
        Ok(TimeRangeSpecifier::By(TimeSpecifier::After(
            AfterTimeSpecifier::Minute(90)
        )))
    );
    assert_eq!(
        time_range("五十秒以内"),
        Ok(TimeRangeSpecifier::By(TimeSpecifier::After(
            AfterTimeSpecifier::Second(50)
        )))
    );
}

#[test]
fn test_at_en() {
    assert_eq!(
        time_range("at 12:00"),
        Ok(TimeRangeSpecifier::At(TimeSpecifier::At(
            AtTimeSpecifier::HourMinute {
                hour: hour(12),
                minute: minute(0),
                is_tomorrow: false,
            }
        )))
    );
    assert!(time_range("at 30:00").is_err());
    assert_eq!(
        time_range("at 10:15 tomorrow"),
        Ok(TimeRangeSpecifier::At(TimeSpecifier::At(
            AtTimeSpecifier::HourMinute {
                hour: hour(10),
                minute: minute(15),
                is_tomorrow: true,
            }
        )))
    );
}

#[test]
fn test_after_en() {
    assert_eq!(
        time_range("after 90min"),
        Ok(TimeRangeSpecifier::At(TimeSpecifier::After(
            AfterTimeSpecifier::Minute(90)
        )))
    );
    assert_eq!(
        time_range("after 1h"),
        Ok(TimeRangeSpecifier::At(TimeSpecifier::After(
            AfterTimeSpecifier::Hour(1)
        )))
    );
    assert_eq!(
        time_range("after 1h30m"),
        Ok(TimeRangeSpecifier::At(TimeSpecifier::After(
            AfterTimeSpecifier::HourMinute(1, 30)
        )))
    );
    assert_eq!(
        time_range("after 2s"),
        Ok(TimeRangeSpecifier::At(TimeSpecifier::After(
            AfterTimeSpecifier::Second(2)
        )))
    );
    assert_eq!(
        time_range("after 2 seconds"),
        Ok(TimeRangeSpecifier::At(TimeSpecifier::After(
            AfterTimeSpecifier::Second(2)
        )))
    );
}

#[test]
fn test_by_en() {
    assert_eq!(
        time_range("by 12:12"),
        Ok(TimeRangeSpecifier::By(TimeSpecifier::At(
            AtTimeSpecifier::HourMinute {
                hour: hour(12),
                minute: minute(12),
                is_tomorrow: false,
            }
        )))
    );
    assert_eq!(
        time_range("by 23:25 tomorrow"),
        Ok(TimeRangeSpecifier::By(TimeSpecifier::At(
            AtTimeSpecifier::HourMinute {
                hour: hour(23),
                minute: minute(25),
                is_tomorrow: true,
            }
        )))
    );
}

#[test]
fn test_within_en() {
    assert_eq!(
        time_range("within 90m"),
        Ok(TimeRangeSpecifier::By(TimeSpecifier::After(
            AfterTimeSpecifier::Minute(90)
        )))
    );
    assert_eq!(
        time_range("within 11hr"),
        Ok(TimeRangeSpecifier::By(TimeSpecifier::After(
            AfterTimeSpecifier::Hour(11)
        )))
    );
    assert_eq!(
        time_range("within 90 minute"),
        Ok(TimeRangeSpecifier::By(TimeSpecifier::After(
            AfterTimeSpecifier::Minute(90)
        )))
    );
    assert_eq!(
        time_range("within 30sec"),
        Ok(TimeRangeSpecifier::By(TimeSpecifier::After(
            AfterTimeSpecifier::Second(30)
        )))
    );
}

#[test]
fn test_kanji_numbers() {
    assert_eq!(
        time_range("二十分"),
        Ok(TimeRangeSpecifier::At(TimeSpecifier::At(
            AtTimeSpecifier::Minute(minute(20))
        )))
    );
    assert_eq!(
        time_range("百分後"),
        Ok(TimeRangeSpecifier::At(TimeSpecifier::After(
            AfterTimeSpecifier::Minute(100)
        )))
    );
    assert_eq!(
        time_range("百二十分後"),
        Ok(TimeRangeSpecifier::At(TimeSpecifier::After(
            AfterTimeSpecifier::Minute(120)
        )))
    );
    assert_eq!(
        time_range("二百五十五秒後"),
        Ok(TimeRangeSpecifier::At(TimeSpecifier::After(
            AfterTimeSpecifier::Second(255)
        )))
    );
    // The hundreds rule rejects a nested value of one hundred or more,
    // and anything that no longer fits in a byte.
    assert!(time_range("三百分後").is_err());
    assert!(time_range("二百五十六秒後").is_err());
    assert_eq!(
        time_range("一時半"),
        Ok(TimeRangeSpecifier::At(TimeSpecifier::At(
            AtTimeSpecifier::HourMinute {
                hour: hour(1),
                minute: minute(30),
                is_tomorrow: false,
            }
        )))
    );
}

#[test]
fn test_rfc3339_and_half() {
    assert_eq!(
        time_range("rfc3339 2024-07-20T13:15:00Z"),
        Ok(TimeRangeSpecifier::At(TimeSpecifier::Exactly(
            chrono::DateTime::parse_from_rfc3339("2024-07-20T13:15:00Z")
                .unwrap()
                .timestamp()
        )))
    );
    assert_eq!(
        time_range("半"),
        Ok(TimeRangeSpecifier::At(TimeSpecifier::At(
            AtTimeSpecifier::Minute(minute(30))
        )))
    );
    assert!(time_range("rfc3339 not-a-date").is_err());
}

#[test]
fn test_parse_failures() {
    assert!(command("").is_err());
    assert!(command("helpme").is_err());
    // A kaisanee on both sides of the time range is rejected.
    assert!(command("私 10分後 全員").is_err());
    // An empty mention list never parses as a user list.
    assert!(kaisanee("").is_err());
    assert!(kaisanee("<@!>").is_err());
    let err = command("nonsense").unwrap_err();
    assert!(!err.expected.is_empty());
    assert_eq!(err.got, Some("nonsense".to_string()));
    assert!(!err.message().is_empty());
    // A mention whose id does not fit an unsigned 64-bit number never
    // parses; in particular it never wraps around.
    assert!(kaisanee("<@!99999999999999999999999999>").is_err());
}
