//! Use-case tests: the permission gates, the settings operations with
//! their set semantics, and the scheduling plans with their reminder
//! wakes and fire-time decisions.

use kaisantantoudaijin::context::random::{RandomContext, ThreadRandom};
use kaisantantoudaijin::error::{Error, PermissionKind};
use kaisantantoudaijin::model::command::{command, Command, TimeRangeSpecifier};
use kaisantantoudaijin::model::kaisanee::KaisaneeSpecifier;
use kaisantantoudaijin::model::message::Message;
use kaisantantoudaijin::model::reminder::Reminder;
use kaisantantoudaijin::model::time::{AfterTimeSpecifier, TimeSpecifier};
use kaisantantoudaijin::model::zone::ZoneId;
use kaisantantoudaijin::setting::GuildSettings;
use kaisantantoudaijin::use_case::add_reminder::add_reminder;
use kaisantantoudaijin::use_case::help::help;
use kaisantantoudaijin::use_case::remove_reminder::remove_reminder;
use kaisantantoudaijin::use_case::schedule_kaisan::{
    collect_target_users, kaisan_fire, pick_by_instant, plan_kaisan, remind_fire, KaisanPlan,
};
use kaisantantoudaijin::use_case::set_reminds_random_kaisan::set_reminds_random_kaisan;
use kaisantantoudaijin::use_case::set_requires_permission::set_requires_permission;
use kaisantantoudaijin::use_case::set_timezone::set_timezone;
use kaisantantoudaijin::use_case::show_setting::show_setting;

const MOCK_VOICE_CHANNEL_ID: u64 = 8549307414562138112;
const MOCK_AUTHOR_1: u64 = 17308610930080528384;
const MOCK_AUTHOR_2: u64 = 4081392650864611328;
const FIXED_RANDOM: i64 = 12345;

/// A random source fixed for the test, clamped into the asked range as
/// the contract demands.
struct FixedRandom(i64);

impl RandomContext for FixedRandom {
    fn random_range(&mut self, from: i64, to: i64) -> i64 {
        if self.0 < from {
            from
        } else if self.0 >= to {
            to - 1
        } else {
            self.0
        }
    }
}

/// The default settings of the original's mock: timezone Japan, the
/// permission flag on, one reminder five minutes before.
fn mock_settings() -> GuildSettings {
    let mut s = GuildSettings::new(ZoneId::parse("Japan").unwrap());
    assert!(s.add_reminder(Reminder::before_minutes(5)));
    s
}

fn mock_members() -> Vec<u64> {
    vec![MOCK_AUTHOR_1, MOCK_AUTHOR_2]
}

#[test]
fn add_reminder_test_success() {
    let mut s = mock_settings();
    let reminder1 = Reminder::before_minutes(10);
    add_reminder(&mut s, true, reminder1).unwrap();
    assert!(s.has_reminder(reminder1));
    let reminder2 = Reminder::before_minutes(15);
    add_reminder(&mut s, true, reminder2).unwrap();
    assert!(s.has_reminder(reminder2));
}

#[test]
fn test_duplicate() {
    let mut s = mock_settings();
    let reminder = Reminder::before_minutes(10);
    add_reminder(&mut s, true, reminder).unwrap();
    assert!(matches!(
        add_reminder(&mut s, true, reminder),
        Err(Error::DuplicatedReminders(_))
    ));
}

#[test]
fn add_reminder_test_insufficient_permission() {
    let mut s = mock_settings();
    assert!(matches!(
        add_reminder(&mut s, false, Reminder::before_minutes(5)),
        Err(Error::InsufficientPermission(_))
    ));
}

#[test]
fn help_test() {
    assert!(matches!(help(), Message::Help));
}

#[test]
fn remove_reminder_test_success() {
    let mut s = mock_settings();
    let reminder = Reminder::before_minutes(5);
    remove_reminder(&mut s, true, reminder).unwrap();
    assert!(!s.has_reminder(reminder));
}

#[test]
fn test_not_found() {
    let mut s = mock_settings();
    let reminder = Reminder::before_minutes(10);
    let _ = remove_reminder(&mut s, true, reminder);
    assert!(matches!(
        remove_reminder(&mut s, true, reminder),
        Err(Error::NoSuchReminder(_))
    ));
}

#[test]
fn remove_reminder_test_insufficient_permission() {
    let mut s = mock_settings();
    assert!(matches!(
        remove_reminder(&mut s, false, Reminder::before_minutes(5)),
        Err(Error::InsufficientPermission(_))
    ));
}

#[test]
fn test_all() {
    let s = mock_settings();
    let now = chrono::Utc::now().timestamp();
    let plan = plan_kaisan(
        &mut FixedRandom(FIXED_RANDOM),
        KaisaneeSpecifier::All,
        TimeRangeSpecifier::Now,
        MOCK_AUTHOR_2,
        Some(MOCK_VOICE_CHANNEL_ID),
        s.requires_permission(),
        true,
        now,
        s.timezone(),
        s.reminders(),
    )
    .unwrap();
    assert!(matches!(
        plan,
        KaisanPlan::Immediate { channel: MOCK_VOICE_CHANNEL_ID, .. }
    ));
    let firing = kaisan_fire(&KaisaneeSpecifier::All, MOCK_AUTHOR_2, &mock_members());
    assert!(firing.disconnect.contains(&MOCK_AUTHOR_1));
    assert!(firing.disconnect.contains(&MOCK_AUTHOR_2));
    assert!(matches!(firing.announce, Some(Message::Kaisan(_))));
}

#[test]
fn test_me() {
    let s = mock_settings();
    let now = chrono::Utc::now().timestamp();
    let plan = plan_kaisan(
        &mut FixedRandom(FIXED_RANDOM),
        KaisaneeSpecifier::Me,
        TimeRangeSpecifier::At(TimeSpecifier::Exactly(now + 600)),
        MOCK_AUTHOR_2,
        Some(MOCK_VOICE_CHANNEL_ID),
        s.requires_permission(),
        true,
        now,
        s.timezone(),
        s.reminders(),
    )
    .unwrap();
    let KaisanPlan::Scheduled { kaisanee, fire_at, .. } = plan else {
        panic!("expected a scheduled plan");
    };
    assert_eq!(fire_at, now + 600);
    // Advancing the clock to the fire instant disconnects the author
    // alone.
    let firing = kaisan_fire(&kaisanee, MOCK_AUTHOR_2, &mock_members());
    assert!(!firing.disconnect.contains(&MOCK_AUTHOR_1));
    assert!(firing.disconnect.contains(&MOCK_AUTHOR_2));
}

#[test]
fn test_unreachable_time() {
    let s = mock_settings();
    let now = chrono::Utc::now().timestamp();
    let res = plan_kaisan(
        &mut FixedRandom(FIXED_RANDOM),
        KaisaneeSpecifier::Me,
        TimeRangeSpecifier::At(TimeSpecifier::Exactly(now - 60)),
        MOCK_AUTHOR_2,
        Some(MOCK_VOICE_CHANNEL_ID),
        s.requires_permission(),
        true,
        now,
        s.timezone(),
        s.reminders(),
    );
    assert!(matches!(res, Err(Error::UnreachableTime { .. })));
}

#[test]
fn test_reminders() {
    let mut s = mock_settings();
    let now = chrono::Utc::now().timestamp();
    let reminder1 = Reminder::before_minutes(3);
    add_reminder(&mut s, true, reminder1).unwrap();
    let reminder2 = Reminder::before_minutes(1);
    add_reminder(&mut s, true, reminder2).unwrap();
    let plan = plan_kaisan(
        &mut FixedRandom(FIXED_RANDOM),
        KaisaneeSpecifier::All,
        TimeRangeSpecifier::At(TimeSpecifier::After(AfterTimeSpecifier::Minute(5))),
        MOCK_AUTHOR_2,
        Some(MOCK_VOICE_CHANNEL_ID),
        s.requires_permission(),
        true,
        now,
        s.timezone(),
        s.reminders(),
    )
    .unwrap();
    let KaisanPlan::Scheduled { fire_at, reminders, kaisanee, .. } = plan else {
        panic!("expected a scheduled plan");
    };
    assert_eq!(fire_at, now + 300);
    // The five-minute reminder would wake exactly now: not strictly in
    // the future, so it is skipped; the others wake in order.
    assert_eq!(reminders.len(), 2);
    assert_eq!(reminders[0].at, now + 120);
    assert_eq!(reminders[0].reminder, reminder1);
    assert_eq!(reminders[1].at, now + 240);
    assert_eq!(reminders[1].reminder, reminder2);
    for entry in &reminders {
        let msg = remind_fire(&kaisanee, MOCK_AUTHOR_2, &mock_members(), entry.reminder);
        assert!(matches!(msg, Some(Message::Remind(_, _))));
    }
}

#[test]
fn schedule_kaisan_test_insufficient_permission() {
    let s = mock_settings();
    let now = chrono::Utc::now().timestamp();
    let res = plan_kaisan(
        &mut FixedRandom(FIXED_RANDOM),
        KaisaneeSpecifier::All,
        TimeRangeSpecifier::Now,
        MOCK_AUTHOR_1,
        Some(MOCK_VOICE_CHANNEL_ID),
        true,
        false,
        now,
        s.timezone(),
        s.reminders(),
    );
    assert!(matches!(
        res,
        Err(Error::InsufficientPermission(PermissionKind::MoveMembers))
    ));
}

#[test]
fn test_sufficient_permission() {
    let s = mock_settings();
    let now = chrono::Utc::now().timestamp();
    let res = plan_kaisan(
        &mut FixedRandom(FIXED_RANDOM),
        KaisaneeSpecifier::All,
        TimeRangeSpecifier::Now,
        MOCK_AUTHOR_1,
        Some(MOCK_VOICE_CHANNEL_ID),
        false,
        false,
        now,
        s.timezone(),
        s.reminders(),
    );
    assert!(res.is_ok());
}

#[test]
fn test_not_in_voice_channel() {
    let s = mock_settings();
    let now = chrono::Utc::now().timestamp();
    let res = plan_kaisan(
        &mut FixedRandom(FIXED_RANDOM),
        KaisaneeSpecifier::Me,
        TimeRangeSpecifier::Now,
        MOCK_AUTHOR_2,
        None,
        s.requires_permission(),
        true,
        now,
        s.timezone(),
        s.reminders(),
    );
    assert!(matches!(res, Err(Error::NotInVoiceChannel)));
}

#[test]
fn test_by_range_bounds() {
    let s = mock_settings();
    let now = chrono::Utc::now().timestamp();
    let plan = plan_kaisan(
        &mut FixedRandom(FIXED_RANDOM),
        KaisaneeSpecifier::All,
        TimeRangeSpecifier::By(TimeSpecifier::After(AfterTimeSpecifier::Minute(10))),
        MOCK_AUTHOR_2,
        Some(MOCK_VOICE_CHANNEL_ID),
        s.requires_permission(),
        true,
        now,
        s.timezone(),
        s.reminders(),
    )
    .unwrap();
    let KaisanPlan::Scheduled { fire_at, .. } = plan else {
        panic!("expected a scheduled plan");
    };
    assert!(now <= fire_at && fire_at <= now + 600);
    // A bound in the past is rejected.
    let res = plan_kaisan(
        &mut FixedRandom(FIXED_RANDOM),
        KaisaneeSpecifier::All,
        TimeRangeSpecifier::By(TimeSpecifier::Exactly(now - 1)),
        MOCK_AUTHOR_2,
        Some(MOCK_VOICE_CHANNEL_ID),
        s.requires_permission(),
        true,
        now,
        s.timezone(),
        s.reminders(),
    );
    assert!(matches!(res, Err(Error::UnreachableTime { specified: Some(_), .. })));
}

#[test]
fn test_pick_by_instant_with_thread_random() {
    let now = 1_700_000_000;
    for _ in 0..32 {
        let fire = pick_by_instant(&mut ThreadRandom, now, now + 600);
        assert!(now <= fire && fire <= now + 600);
    }
    assert_eq!(pick_by_instant(&mut ThreadRandom, now, now), now);
}

#[test]
fn test_firing_rereads_membership() {
    // One user left after scheduling, another joined: the firing works
    // on the membership read at fire time.
    let leaver: u64 = 111;
    let joiner: u64 = 222;
    let live = vec![MOCK_AUTHOR_2, joiner];
    let all = kaisan_fire(&KaisaneeSpecifier::All, MOCK_AUTHOR_2, &live);
    assert_eq!(all.disconnect, live);
    let listed = kaisan_fire(
        &KaisaneeSpecifier::Users(vec![leaver, joiner]),
        MOCK_AUTHOR_2,
        &live,
    );
    assert_eq!(listed.disconnect, vec![joiner]);
    // An author who left is no longer a target of `Me`, and the
    // reminder of an empty target set stays silent.
    let me_gone = collect_target_users(&KaisaneeSpecifier::Me, leaver, &live);
    assert!(me_gone.is_empty());
    assert_eq!(
        remind_fire(&KaisaneeSpecifier::Me, leaver, &live, Reminder::before_minutes(1)),
        None
    );
}

#[test]
fn test_end_to_end_me_after_ten_minutes() {
    // The whole path of "me 10分後": parse, plan, fire.
    let cmd = command("me 10分後").unwrap();
    let Command::Kaisan { kaisanee, time_range } = cmd else {
        panic!("expected a kaisan command");
    };
    assert_eq!(kaisanee, KaisaneeSpecifier::Me);
    let s = GuildSettings::new(ZoneId::parse("Japan").unwrap());
    let now = chrono::Utc::now().timestamp();
    let plan = plan_kaisan(
        &mut FixedRandom(FIXED_RANDOM),
        kaisanee,
        time_range,
        MOCK_AUTHOR_2,
        Some(MOCK_VOICE_CHANNEL_ID),
        s.requires_permission(),
        true,
        now,
        s.timezone(),
        s.reminders(),
    )
    .unwrap();
    let KaisanPlan::Scheduled { fire_at, reminders, kaisanee, .. } = plan else {
        panic!("expected a scheduled plan");
    };
    assert_eq!(fire_at, now + 600);
    assert!(reminders.is_empty());
    let firing = kaisan_fire(&kaisanee, MOCK_AUTHOR_2, &mock_members());
    assert_eq!(firing.disconnect, vec![MOCK_AUTHOR_2]);
    assert!(matches!(firing.announce, Some(Message::Kaisan(ids)) if ids == vec![MOCK_AUTHOR_2]));
}

#[test]
fn test_end_to_end_coincident_reminder() {
    // "全員を一分後" with a one-minute reminder configured: the reminder
    // instant coincides with now, is not strictly in the future, and is
    // skipped; the disbandment itself goes through untroubled.
    let cmd = command("全員を一分後").unwrap();
    let Command::Kaisan { kaisanee, time_range } = cmd else {
        panic!("expected a kaisan command");
    };
    assert_eq!(kaisanee, KaisaneeSpecifier::All);
    let mut s = GuildSettings::new(ZoneId::parse("Japan").unwrap());
    assert!(s.add_reminder(Reminder::before_minutes(1)));
    let now = chrono::Utc::now().timestamp();
    let plan = plan_kaisan(
        &mut FixedRandom(FIXED_RANDOM),
        kaisanee,
        time_range,
        MOCK_AUTHOR_2,
        Some(MOCK_VOICE_CHANNEL_ID),
        s.requires_permission(),
        true,
        now,
        s.timezone(),
        s.reminders(),
    )
    .unwrap();
    let KaisanPlan::Scheduled { fire_at, reminders, kaisanee, .. } = plan else {
        panic!("expected a scheduled plan");
    };
    assert_eq!(fire_at, now + 60);
    assert!(reminders.is_empty());
    let firing = kaisan_fire(&kaisanee, MOCK_AUTHOR_2, &mock_members());
    assert!(firing.disconnect.contains(&MOCK_AUTHOR_1));
    assert!(firing.disconnect.contains(&MOCK_AUTHOR_2));
}

#[test]
fn set_reminds_random_kaisan_test_success() {
    let mut s = mock_settings();
    set_reminds_random_kaisan(&mut s, true, false).unwrap();
    assert!(!s.reminds_random_kaisan());
    set_reminds_random_kaisan(&mut s, true, true).unwrap();
    assert!(s.reminds_random_kaisan());
}

#[test]
fn set_reminds_random_kaisan_test_insufficient_permission() {
    let mut s = mock_settings();
    assert!(matches!(
        set_reminds_random_kaisan(&mut s, false, true),
        Err(Error::InsufficientPermission(_))
    ));
}

#[test]
fn set_requires_permission_test_success() {
    let mut s = mock_settings();
    set_requires_permission(&mut s, true, false).unwrap();
    assert!(!s.requires_permission());
    set_requires_permission(&mut s, true, true).unwrap();
    assert!(s.requires_permission());
}

#[test]
fn set_requires_permission_test_insufficient_permission() {
    let mut s = mock_settings();
    assert!(matches!(
        set_requires_permission(&mut s, false, true),
        Err(Error::InsufficientPermission(_))
    ));
}

#[test]
fn set_timezone_test_success() {
    let mut s = mock_settings();
    set_timezone(&mut s, true, ZoneId::parse("UTC").unwrap()).unwrap();
    assert_eq!(s.timezone().name(), "UTC");
    set_timezone(&mut s, true, ZoneId::parse("Japan").unwrap()).unwrap();
    assert_eq!(s.timezone().name(), "Japan");
}

#[test]
fn set_timezone_test_insufficient_permission() {
    let mut s = mock_settings();
    assert!(matches!(
        set_timezone(&mut s, false, ZoneId::parse("UTC").unwrap()),
        Err(Error::InsufficientPermission(_))
    ));
}

#[test]
fn show_setting_test() {
    let s = mock_settings();
    let m = show_setting(&s);
    let Message::Setting { requires_permission, timezone, reminders, reminds_random_kaisan } = m
    else {
        panic!("expected a settings message");
    };
    assert!(requires_permission);
    assert_eq!(timezone.name(), "Japan");
    assert_eq!(reminders, vec![Reminder::before_minutes(5)]);
    assert!(!reminds_random_kaisan);
}
