//! Scheduling a disbandment: the permission gate, resolving the time
//! range (with the randomized "by" semantics), planning the reminder
//! instants, and the pure decisions made again at fire time. The
//! suspension itself and every platform call stay outside; they run the
//! plan this module computes.

use vstd::prelude::*;

use crate::context::random::RandomContext;
use crate::error::{Error, PermissionKind};
use crate::model::kaisanee::{spec_may_include_others, KaisaneeSpecifier, KaisaneeView, UserId};
use crate::model::message::{CalculatedDateTime, Message};
use crate::model::reminder::Reminder;
use crate::model::time::{spec_resolve, TimeSpecifier, MAX_AFTER_SECONDS};
use crate::model::command::TimeRangeSpecifier;
use crate::model::zone::{self, ZoneId};

verus! {

/// A voice channel, by its numeric id.
pub type ChannelId = u64;

/// The smallest and largest "now" the planner accepts: roughly 126,000
/// years either side of the epoch, far inside what the calendar
/// arithmetic can represent, and with room for every relative duration
/// and reminder offset.
pub const MIN_PLAN_INSTANT: i64 = -4_000_000_000_000;

pub const MAX_PLAN_INSTANT: i64 = 4_000_000_000_000;

/// One reminder of a scheduled disbandment: when to wake, and the
/// configured offset to announce.
#[derive(Debug, Clone, Copy, PartialEq, Eq, Structural)]
pub struct ReminderAt {
    pub at: i64,
    pub reminder: Reminder,
}

/// What a scheduling command resolves to: fire at once, or wake at a
/// fixed instant (with reminder wakes before it) after sending the
/// confirmation notice.
#[derive(Debug, Clone, PartialEq, Eq)]
pub enum KaisanPlan {
    Immediate { channel: ChannelId, kaisanee: KaisaneeSpecifier },
    Scheduled {
        channel: ChannelId,
        kaisanee: KaisaneeSpecifier,
        fire_at: i64,
        reminders: Vec<ReminderAt>,
        notice: Message,
    },
}

/// The reminder wakes a plan carries: one per configured offset whose
/// instant still lies strictly in the future, in configuration order.
pub open spec fn spec_planned_reminders(rs: Seq<Reminder>, fire: int, now: int) -> Seq<ReminderAt>
    decreases rs.len(),
{
    if rs.len() == 0 {
        Seq::empty()
    } else {
        let rest = spec_planned_reminders(rs.drop_last(), fire, now);
        let rm = rs.last();
        if fire - rm@ * 60 > now {
            rest.push(ReminderAt { at: (fire - rm@ * 60) as i64, reminder: rm })
        } else {
            rest
        }
    }
}

/// What the planner owes for each shape of time range, once the
/// permission gate and the voice-channel check have passed: `Now` plans
/// an immediate firing; `At` fires exactly at the resolved instant; `By`
/// fires somewhere in `[now, bound]`; resolution failures and past
/// instants are unreachable-time errors; and the reminder wakes are
/// exactly the still-future ones.
pub open spec fn plan_outcome(
    r: Result<KaisanPlan, Error>,
    k: KaisaneeView,
    time_range: TimeRangeSpecifier,
    channel: ChannelId,
    now: int,
    tz: Seq<char>,
    rs: Seq<Reminder>,
) -> bool {
    match time_range {
        TimeRangeSpecifier::Now => {
            &&& r matches Ok(p)
            &&& r->Ok_0 matches KaisanPlan::Immediate { channel: c, kaisanee: kk }
            &&& c == channel
            &&& kk@ == k
        },
        TimeRangeSpecifier::At(spec) => match spec_resolve(spec, now, tz) {
            None => r == Err::<KaisanPlan, Error>(
                Error::UnreachableTime { specified: None, at: now as i64 },
            ),
            Some(t) => if t < now {
                &&& r matches Err(e)
                &&& e matches Error::UnreachableTime { specified, at }
                &&& specified matches Some(s) && s as int == t
                &&& at as int == now
            } else {
                &&& r matches Ok(p)
                &&& p matches KaisanPlan::Scheduled {
                    channel: c,
                    kaisanee: kk,
                    fire_at,
                    reminders: ents,
                    notice,
                }
                &&& c == channel
                &&& kk@ == k
                &&& fire_at as int == t
                &&& ents@ == spec_planned_reminders(rs, t, now)
            },
        },
        TimeRangeSpecifier::By(spec) => match spec_resolve(spec, now, tz) {
            None => r == Err::<KaisanPlan, Error>(
                Error::UnreachableTime { specified: None, at: now as i64 },
            ),
            Some(b) => if b < now {
                &&& r matches Err(e)
                &&& e matches Error::UnreachableTime { specified, at }
                &&& specified matches Some(s) && s as int == b
                &&& at as int == now
            } else {
                &&& r matches Ok(p)
                &&& p matches KaisanPlan::Scheduled {
                    channel: c,
                    kaisanee: kk,
                    fire_at,
                    reminders: ents,
                    notice,
                }
                &&& c == channel
                &&& kk@ == k
                &&& now <= fire_at as int <= b
                &&& ents@ == spec_planned_reminders(rs, fire_at as int, now)
            },
        },
    }
}

/// Resolve a scheduling command into a plan. The permission check comes
/// first: a target that may reach others needs the Move Members
/// permission when the guild demands one. Then the author must be in a
/// voice channel. The rest is `plan_outcome`, for every draw the random
/// source makes.
pub fn plan_kaisan<R: RandomContext>(
    rng: &mut R,
    kaisanee: KaisaneeSpecifier,
    time_range: TimeRangeSpecifier,
    author: UserId,
    voice_channel: Option<ChannelId>,
    requires_permission: bool,
    can_move_members: bool,
    now: i64,
    tz: &ZoneId,
    reminders: &Vec<Reminder>,
) -> (r: Result<KaisanPlan, Error>)
    requires
        MIN_PLAN_INSTANT <= now <= MAX_PLAN_INSTANT,
    ensures
        ({
            let denied = spec_may_include_others(kaisanee@, author) && requires_permission
                && !can_move_members;
            &&& (denied ==> r == Err::<KaisanPlan, Error>(
                Error::InsufficientPermission(PermissionKind::MoveMembers),
            ))
            &&& (!denied && voice_channel is None ==> r == Err::<KaisanPlan, Error>(
                Error::NotInVoiceChannel,
            ))
            &&& (!denied && voice_channel is Some ==> plan_outcome(
                r,
                kaisanee@,
                time_range,
                voice_channel->Some_0,
                now as int,
                tz@,
                reminders@,
            ))
        }),
{
    if kaisanee.may_include_others(author) && requires_permission && !can_move_members {
        return Err(Error::InsufficientPermission(PermissionKind::MoveMembers));
    }
    let channel = match voice_channel {
        Some(c) => c,
        None => {
            return Err(Error::NotInVoiceChannel);
        },
    };
    match time_range {
        TimeRangeSpecifier::Now => Ok(KaisanPlan::Immediate { channel, kaisanee }),
        TimeRangeSpecifier::At(spec) => {
            assert(now <= i64::MAX - MAX_AFTER_SECONDS);
            let target = match spec.calculate_time(now, tz) {
                Some(t) => t,
                None => {
                    return Err(Error::UnreachableTime { specified: None, at: now });
                },
            };
            if target < now {
                return Err(Error::UnreachableTime { specified: Some(target), at: now });
            }
            let notice = scheduled_notice(&kaisanee, spec, target, now, tz, false);
            let entries = plan_reminders(reminders, target, now);
            Ok(
                KaisanPlan::Scheduled {
                    channel,
                    kaisanee,
                    fire_at: target,
                    reminders: entries,
                    notice,
                },
            )
        },
        TimeRangeSpecifier::By(spec) => {
            assert(now <= i64::MAX - MAX_AFTER_SECONDS);
            let bound = match spec.calculate_time(now, tz) {
                Some(t) => t,
                None => {
                    return Err(Error::UnreachableTime { specified: None, at: now });
                },
            };
            if bound < now {
                return Err(Error::UnreachableTime { specified: Some(bound), at: now });
            }
            let fire = pick_by_instant(rng, now, bound);
            let notice = scheduled_notice(&kaisanee, spec, bound, now, tz, true);
            let entries = plan_reminders(reminders, fire, now);
            Ok(
                KaisanPlan::Scheduled {
                    channel,
                    kaisanee,
                    fire_at: fire,
                    reminders: entries,
                    notice,
                },
            )
        },
    }
}

/// Draw the fire instant of a `By` range: uniform over `[now, bound]`,
/// never outside it, whatever the random source returns.
pub fn pick_by_instant<R: RandomContext>(rng: &mut R, now: i64, bound: i64) -> (r: i64)
    requires
        now <= bound,
    ensures
        now <= r <= bound,
{
    let span_big: i128 = (bound as i128) - (now as i128);
    let cap_big: i128 = (i64::MAX as i128) - (now as i128);
    let mut draw_max: i128 = if span_big < cap_big {
        span_big
    } else {
        cap_big
    };
    let limit: i128 = 9_223_372_036_854_775_806;
    if draw_max > limit {
        draw_max = limit;
    }
    let dm: i64 = draw_max as i64;
    if dm == 0 {
        return now;
    }
    let offset = rng.random_range(0, dm + 1);
    now + offset
}

/// The still-future reminder wakes for a fire instant, in configuration
/// order; one per offset whose instant lies strictly after now.
pub fn plan_reminders(reminders: &Vec<Reminder>, fire: i64, now: i64) -> (r: Vec<ReminderAt>)
    requires
        now <= fire,
        MIN_PLAN_INSTANT <= now,
    ensures
        r@ == spec_planned_reminders(reminders@, fire as int, now as int),
        forall|k: int| 0 <= k < r@.len() ==> #[trigger] r@[k].at > now,
{
    let mut out: Vec<ReminderAt> = Vec::new();
    let n = reminders.len();
    let mut i: usize = 0;
    while i < n
        invariant
            i <= n,
            n == reminders@.len(),
            now <= fire,
            MIN_PLAN_INSTANT <= now,
            out@ == spec_planned_reminders(reminders@.take(i as int), fire as int, now as int),
            forall|k: int| 0 <= k < out@.len() ==> #[trigger] out@[k].at > now,
        decreases n - i,
    {
        let rm = reminders[i];
        let offset_seconds = rm.before_duration();
        assert(fire - (offset_seconds as i64) >= MIN_PLAN_INSTANT - 257_698_037_700);
        let rt: i64 = fire - (offset_seconds as i64);
        if rt > now {
            out.push(ReminderAt { at: rt, reminder: rm });
        }
        proof {
            assert(reminders@.take(i + 1).drop_last() =~= reminders@.take(i as int));
            assert(reminders@.take(i + 1).last() == reminders@[i as int]);
            assert(offset_seconds == rm@ * 60);
            assert(rt == fire - rm@ * 60);
        }
        i = i + 1;
    }
    proof {
        assert(reminders@.take(n as int) =~= reminders@);
    }
    out
}

/// The confirmation notice of a scheduled disbandment: the calculated
/// time (the bound, for a random range) with its local calendar views,
/// and the target specifier.
fn scheduled_notice(
    kaisanee: &KaisaneeSpecifier,
    spec: TimeSpecifier,
    time: i64,
    now: i64,
    tz: &ZoneId,
    is_random: bool,
) -> (m: Message)
    ensures
        m matches Message::Scheduled { calculated_time, kaisanee: k } && k@ == kaisanee@
            && calculated_time.time == time && calculated_time.now == now
            && calculated_time.is_random == is_random && calculated_time.spec == spec,
{
    Message::Scheduled {
        calculated_time: CalculatedDateTime {
            time,
            now,
            time_civil: zone::civil_in_zone(tz, time),
            now_civil: zone::civil_in_zone(tz, now),
            spec,
            is_random,
        },
        kaisanee: kaisanee.duplicate(),
    }
}

/// Members of `us` that stand in `live`, keeping the order of `us`.
pub open spec fn spec_filter_live(us: Seq<UserId>, live: Seq<UserId>) -> Seq<UserId>
    decreases us.len(),
{
    if us.len() == 0 {
        Seq::empty()
    } else {
        let rest = spec_filter_live(us.drop_last(), live);
        if live.contains(us.last()) {
            rest.push(us.last())
        } else {
            rest
        }
    }
}

/// Who a firing reaches, given the live membership read at fire time:
/// the author alone if still present, everyone, or the mentioned users
/// that are present.
pub open spec fn spec_targets(k: KaisaneeView, author: UserId, live: Seq<UserId>) -> Seq<UserId> {
    match k {
        KaisaneeView::Me => if live.contains(author) {
            seq![author]
        } else {
            Seq::empty()
        },
        KaisaneeView::All => live,
        KaisaneeView::Users(us) => spec_filter_live(us, live),
    }
}

fn contains_user(live: &Vec<UserId>, u: UserId) -> (r: bool)
    ensures
        r == live@.contains(u),
{
    let n = live.len();
    let mut i: usize = 0;
    while i < n
        invariant
            i <= n,
            n == live@.len(),
            forall|j: int| 0 <= j < i ==> live@[j] != u,
        decreases n - i,
    {
        if live[i] == u {
            assert(live@[i as int] == u);
            return true;
        }
        i = i + 1;
    }
    assert(!live@.contains(u));
    false
}

fn copy_ids(v: &Vec<UserId>) -> (r: Vec<UserId>)
    ensures
        r@ == v@,
{
    let mut out: Vec<UserId> = Vec::new();
    let n = v.len();
    let mut i: usize = 0;
    while i < n
        invariant
            i <= n,
            n == v@.len(),
            out@ == v@.subrange(0, i as int),
        decreases n - i,
    {
        out.push(v[i]);
        i = i + 1;
        assert(out@ =~= v@.subrange(0, i as int));
    }
    assert(out@ =~= v@);
    out
}

/// The target users of a firing, computed from the membership read at
/// fire time, not from any snapshot taken at scheduling time.
pub fn collect_target_users(
    kaisanee: &KaisaneeSpecifier,
    author: UserId,
    in_users: &Vec<UserId>,
) -> (r: Vec<UserId>)
    ensures
        r@ == spec_targets(kaisanee@, author, in_users@),
{
    match kaisanee {
        KaisaneeSpecifier::Me => {
            if contains_user(in_users, author) {
                let mut v: Vec<UserId> = Vec::new();
                v.push(author);
                assert(v@ =~= seq![author]);
                v
            } else {
                let v: Vec<UserId> = Vec::new();
                assert(v@ =~= Seq::<UserId>::empty());
                v
            }
        },
        KaisaneeSpecifier::All => copy_ids(in_users),
        KaisaneeSpecifier::Users(us) => {
            let mut out: Vec<UserId> = Vec::new();
            let n = us.len();
            let mut i: usize = 0;
            while i < n
                invariant
                    i <= n,
                    n == us@.len(),
                    out@ == spec_filter_live(us@.take(i as int), in_users@),
                decreases n - i,
            {
                let u = us[i];
                if contains_user(in_users, u) {
                    out.push(u);
                }
                proof {
                    assert(us@.take(i + 1).drop_last() =~= us@.take(i as int));
                    assert(us@.take(i + 1).last() == us@[i as int]);
                }
                i = i + 1;
            }
            proof {
                assert(us@.take(n as int) =~= us@);
            }
            out
        },
    }
}

/// What a main firing does: disconnect every target, and announce the
/// disbandment exactly when there was anyone to disconnect.
pub struct KaisanFiring {
    pub disconnect: Vec<UserId>,
    pub announce: Option<Message>,
}

/// Decide a main firing from the live membership.
pub fn kaisan_fire(kaisanee: &KaisaneeSpecifier, author: UserId, in_users: &Vec<UserId>) -> (r:
    KaisanFiring)
    ensures
        r.disconnect@ == spec_targets(kaisanee@, author, in_users@),
        r.disconnect@.len() == 0 ==> r.announce is None,
        r.disconnect@.len() > 0 ==> (r.announce matches Some(m) && m matches Message::Kaisan(ids)
            && ids@ == r.disconnect@),
{
    let targets = collect_target_users(kaisanee, author, in_users);
    if targets.len() == 0 {
        KaisanFiring { disconnect: targets, announce: None }
    } else {
        let ids = copy_ids(&targets);
        KaisanFiring { disconnect: targets, announce: Some(Message::Kaisan(ids)) }
    }
}

/// Decide a reminder firing from the live membership: silence for an
/// empty target set, the remaining-time announcement otherwise.
pub fn remind_fire(
    kaisanee: &KaisaneeSpecifier,
    author: UserId,
    in_users: &Vec<UserId>,
    reminder: Reminder,
) -> (r: Option<Message>)
    ensures
        ({
            let targets = spec_targets(kaisanee@, author, in_users@);
            &&& (targets.len() == 0 ==> r is None)
            &&& (targets.len() > 0 ==> (r matches Some(m) && m matches Message::Remind(ids, rm)
                && ids@ == targets && rm == reminder))
        }),
{
    let targets = collect_target_users(kaisanee, author, in_users);
    if targets.len() == 0 {
        None
    } else {
        Some(Message::Remind(targets, reminder))
    }
}

} // verus!
