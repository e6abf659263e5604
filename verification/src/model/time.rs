//! Bounded wall-clock units and time specifiers, plus the resolution
//! algorithm that turns a specifier, the current instant and a timezone
//! into an absolute instant (seconds since the Unix epoch).

use vstd::prelude::*;

use crate::model::zone::{self, ZoneId};

verus! {

/// Error of the `Hour` factory: the value was 24 or more.
#[derive(Debug, Clone, PartialEq, Eq)]
pub struct InvalidHourError;

/// An hour of the day, in `[0, 23]` by construction.
#[derive(Debug, Clone, Copy, PartialEq, Eq, Hash, Structural)]
pub struct Hour(u8);

impl View for Hour {
    type V = int;

    closed spec fn view(&self) -> int {
        self.0 as int
    }
}

impl Hour {
    /// An `Hour` can only hold a value in `[0, 23]`.
    #[verifier::type_invariant]
    closed spec fn in_range(&self) -> bool {
        self.0 < 24
    }

    /// The factory rejects everything outside `[0, 23]`; an out-of-range
    /// `Hour` therefore never exists.
    pub fn from_u8(x: u8) -> (r: Result<Hour, InvalidHourError>)
        ensures
            x < 24 <==> r is Ok,
            r matches Ok(h) ==> h@ == x,
    {
        if x < 24 {
            Ok(Hour(x))
        } else {
            Err(InvalidHourError)
        }
    }

    pub fn as_u32(&self) -> (r: u32)
        ensures
            r == self@,
            r < 24,
    {
        proof {
            use_type_invariant(self);
        }
        self.0 as u32
    }
}

/// Error of the `Minute` factory: the value was 60 or more.
#[derive(Debug, Clone, PartialEq, Eq)]
pub struct InvalidMinuteError;

/// A minute of the hour, in `[0, 59]` by construction.
#[derive(Debug, Clone, Copy, PartialEq, Eq, Hash, Structural)]
pub struct Minute(u8);

impl View for Minute {
    type V = int;

    closed spec fn view(&self) -> int {
        self.0 as int
    }
}

impl Minute {
    /// A `Minute` can only hold a value in `[0, 59]`.
    #[verifier::type_invariant]
    closed spec fn in_range(&self) -> bool {
        self.0 < 60
    }

    /// The factory rejects everything outside `[0, 59]`.
    pub fn from_u8(x: u8) -> (r: Result<Minute, InvalidMinuteError>)
        ensures
            x < 60 <==> r is Ok,
            r matches Ok(m) ==> m@ == x,
    {
        if x < 60 {
            Ok(Minute(x))
        } else {
            Err(InvalidMinuteError)
        }
    }

    pub fn as_u32(&self) -> (r: u32)
        ensures
            r == self@,
            r < 60,
    {
        proof {
            use_type_invariant(self);
        }
        self.0 as u32
    }
}

/// A value made of an hour part, a minute part, or both.
#[derive(Debug, PartialEq, Eq)]
pub enum HourMinuteSpecifier<H, M> {
    Hour(H),
    Minute(M),
    Both(H, M),
}

impl<H, M> HourMinuteSpecifier<H, M> {
    pub fn with_hour(h: H, m: Option<M>) -> (r: HourMinuteSpecifier<H, M>)
        ensures
            r == (match m {
                Some(m) => HourMinuteSpecifier::Both(h, m),
                None => HourMinuteSpecifier::<H, M>::Hour(h),
            }),
    {
        match m {
            Some(m) => HourMinuteSpecifier::Both(h, m),
            None => HourMinuteSpecifier::Hour(h),
        }
    }

    pub fn with_minute(m: M, h: Option<H>) -> (r: HourMinuteSpecifier<H, M>)
        ensures
            r == (match h {
                Some(h) => HourMinuteSpecifier::Both(h, m),
                None => HourMinuteSpecifier::<H, M>::Minute(m),
            }),
    {
        match h {
            Some(h) => HourMinuteSpecifier::Both(h, m),
            None => HourMinuteSpecifier::Minute(m),
        }
    }
}

/// A relative duration: raw `u8` magnitudes, no wall-clock validation.
#[derive(Debug, Clone, Copy, PartialEq, Eq, Structural)]
pub enum AfterTimeSpecifier {
    Hour(u8),
    Minute(u8),
    HourMinute(u8, u8),
    Second(u8),
}

/// Seconds denoted by a relative duration: hours count 3600, minutes 60.
pub open spec fn spec_after_seconds(d: AfterTimeSpecifier) -> int {
    match d {
        AfterTimeSpecifier::Hour(h) => h * 3600,
        AfterTimeSpecifier::Minute(m) => m * 60,
        AfterTimeSpecifier::HourMinute(h, m) => h * 3600 + m * 60,
        AfterTimeSpecifier::Second(s) => s as int,
    }
}

/// The largest number of seconds any relative duration can denote
/// (both magnitudes at 255).
pub const MAX_AFTER_SECONDS: u64 = 933300;

impl AfterTimeSpecifier {
    pub fn with_hour(h: u8, m: Option<u8>) -> (r: AfterTimeSpecifier)
        ensures
            r == (match m {
                Some(m) => AfterTimeSpecifier::HourMinute(h, m),
                None => AfterTimeSpecifier::Hour(h),
            }),
    {
        match m {
            Some(m) => AfterTimeSpecifier::HourMinute(h, m),
            None => AfterTimeSpecifier::Hour(h),
        }
    }

    pub fn with_minute(m: u8, h: Option<u8>) -> (r: AfterTimeSpecifier)
        ensures
            r == (match h {
                Some(h) => AfterTimeSpecifier::HourMinute(h, m),
                None => AfterTimeSpecifier::Minute(m),
            }),
    {
        match h {
            Some(h) => AfterTimeSpecifier::HourMinute(h, m),
            None => AfterTimeSpecifier::Minute(m),
        }
    }

    /// The duration in whole seconds.
    pub fn duration_seconds(&self) -> (r: u64)
        ensures
            r == spec_after_seconds(*self),
            r <= MAX_AFTER_SECONDS,
    {
        match *self {
            AfterTimeSpecifier::Hour(h) => (h as u64) * 3600,
            AfterTimeSpecifier::Minute(m) => (m as u64) * 60,
            AfterTimeSpecifier::HourMinute(h, m) => (h as u64) * 3600 + (m as u64) * 60,
            AfterTimeSpecifier::Second(s) => s as u64,
        }
    }
}

/// A wall-clock target. The `Minute` form means "this minute within the
/// current local hour", with no day rollover.
#[derive(Debug, Clone, Copy, PartialEq, Eq, Structural)]
pub enum AtTimeSpecifier {
    Hour { hour: Hour, is_tomorrow: bool },
    Minute(Minute),
    HourMinute { hour: Hour, minute: Minute, is_tomorrow: bool },
}

/// The mathematical shape of a wall-clock target: the bounded units
/// replaced by their numbers.
pub enum AtView {
    Hour { hour: int, is_tomorrow: bool },
    Minute(int),
    HourMinute { hour: int, minute: int, is_tomorrow: bool },
}

impl View for AtTimeSpecifier {
    type V = AtView;

    open spec fn view(&self) -> AtView {
        match self {
            AtTimeSpecifier::Hour { hour, is_tomorrow } => AtView::Hour {
                hour: hour@,
                is_tomorrow: *is_tomorrow,
            },
            AtTimeSpecifier::Minute(m) => AtView::Minute(m@),
            AtTimeSpecifier::HourMinute { hour, minute, is_tomorrow } => AtView::HourMinute {
                hour: hour@,
                minute: minute@,
                is_tomorrow: *is_tomorrow,
            },
        }
    }
}

impl AtTimeSpecifier {
    pub fn with_hour(hour: Hour, minute: Option<Minute>, is_tomorrow: bool) -> (r: AtTimeSpecifier)
        ensures
            r == (match minute {
                Some(minute) => AtTimeSpecifier::HourMinute { hour, minute, is_tomorrow },
                None => AtTimeSpecifier::Hour { hour, is_tomorrow },
            }),
    {
        match minute {
            Some(minute) => AtTimeSpecifier::HourMinute { hour, minute, is_tomorrow },
            None => AtTimeSpecifier::Hour { hour, is_tomorrow },
        }
    }

    pub fn with_minute(minute: Minute, hour: Option<Hour>) -> (r: AtTimeSpecifier)
        ensures
            r == (match hour {
                Some(hour) => AtTimeSpecifier::HourMinute { hour, minute, is_tomorrow: false },
                None => AtTimeSpecifier::Minute(minute),
            }),
    {
        match hour {
            Some(hour) => AtTimeSpecifier::HourMinute { hour, minute, is_tomorrow: false },
            None => AtTimeSpecifier::Minute(minute),
        }
    }
}

/// When a command should take effect: right now, a relative duration from
/// now, a wall-clock target, or an absolute instant given in full.
#[derive(Debug, Clone, Copy, PartialEq, Eq, Structural)]
pub enum TimeSpecifier {
    Now,
    After(AfterTimeSpecifier),
    At(AtTimeSpecifier),
    Exactly(i64),
}

/// The mathematical shape of a time specifier.
pub enum TimeSpecView {
    Now,
    After(AfterTimeSpecifier),
    At(AtView),
    Exactly(int),
}

impl View for TimeSpecifier {
    type V = TimeSpecView;

    open spec fn view(&self) -> TimeSpecView {
        match self {
            TimeSpecifier::Now => TimeSpecView::Now,
            TimeSpecifier::After(d) => TimeSpecView::After(*d),
            TimeSpecifier::At(a) => TimeSpecView::At(a@),
            TimeSpecifier::Exactly(t) => TimeSpecView::Exactly(*t as int),
        }
    }
}

/// Second of the local day that a wall-clock target denotes, given the
/// second of the local day of "now" (the `Minute` form keeps the current
/// local hour).
pub open spec fn spec_target_sod(a: AtTimeSpecifier, now_sod: int) -> int {
    match a {
        AtTimeSpecifier::Hour { hour, .. } => hour@ * 3600,
        AtTimeSpecifier::Minute(m) => (now_sod / 3600) * 3600 + m@ * 60,
        AtTimeSpecifier::HourMinute { hour, minute, .. } => hour@ * 3600 + minute@ * 60,
    }
}

/// Local calendar day a wall-clock target falls on, given the local day of
/// "now": the same day, or the next one when the target says "tomorrow".
pub open spec fn spec_target_day(a: AtTimeSpecifier, now_day: int) -> int {
    match a {
        AtTimeSpecifier::Hour { is_tomorrow, .. } => now_day + if is_tomorrow { 1int } else { 0 },
        AtTimeSpecifier::Minute(_) => now_day,
        AtTimeSpecifier::HourMinute { is_tomorrow, .. } => now_day + if is_tomorrow {
            1int
        } else {
            0
        },
    }
}

/// The resolution algorithm as a mathematical function: `Now` is now,
/// `After` adds the duration, `At` builds a local wall-clock time on
/// today's (or tomorrow's) local date and maps it back to an instant, and
/// `Exactly` ignores both now and the timezone. `None` means the local
/// time does not denote a unique instant in the zone.
pub open spec fn spec_resolve(ts: TimeSpecifier, now: int, tz: Seq<char>) -> Option<int> {
    match ts {
        TimeSpecifier::Now => Some(now),
        TimeSpecifier::After(d) => Some(now + spec_after_seconds(d)),
        TimeSpecifier::At(a) => match zone::local_civil_of(tz, now) {
            Some(c) => zone::utc_of_local(tz, spec_target_day(a, c.0), spec_target_sod(a, c.1)),
            None => None,
        },
        TimeSpecifier::Exactly(t) => Some(t as int),
    }
}

impl TimeSpecifier {
    /// Resolve this specifier against the current instant and a timezone.
    /// Mirrors `spec_resolve` exactly; the bound on `now` keeps the
    /// relative-duration sum inside `i64`.
    pub fn calculate_time(&self, now: i64, tz: &ZoneId) -> (r: Option<i64>)
        requires
            now <= i64::MAX - MAX_AFTER_SECONDS,
        ensures
            match r {
                Some(t) => spec_resolve(*self, now as int, tz@) == Some(t as int),
                None => spec_resolve(*self, now as int, tz@) is None,
            },
    {
        match self {
            TimeSpecifier::Now => Some(now),
            TimeSpecifier::After(d) => Some(now + d.duration_seconds() as i64),
            TimeSpecifier::At(a) => {
                let civil = zone::civil_in_zone(tz, now)?;
                let now_day = civil.day;
                let now_sod = civil.second_of_day;
                let (day, sod): (i64, u32) = match a {
                    AtTimeSpecifier::Hour { hour, is_tomorrow } => {
                        let d = if *is_tomorrow {
                            now_day + 1
                        } else {
                            now_day
                        };
                        (d, hour.as_u32() * 3600)
                    },
                    AtTimeSpecifier::Minute(m) => {
                        ((now_day), (now_sod / 3600) * 3600 + m.as_u32() * 60)
                    },
                    AtTimeSpecifier::HourMinute { hour, minute, is_tomorrow } => {
                        let d = if *is_tomorrow {
                            now_day + 1
                        } else {
                            now_day
                        };
                        (d, hour.as_u32() * 3600 + minute.as_u32() * 60)
                    },
                };
                zone::instant_in_zone(tz, day, sod)
            },
            TimeSpecifier::Exactly(t) => Some(*t),
        }
    }

    /// Whether a confirmation should mention the clock time (everything
    /// but a plain wall-clock target, whose time the user already typed).
    pub fn is_interested_in_time(&self) -> (r: bool)
        ensures
            r == !(*self is At),
    {
        !matches!(self, TimeSpecifier::At(_))
    }

    /// Whether a confirmation should mention the remaining duration
    /// (everything but a relative duration, which the user already typed).
    pub fn is_interested_in_duration(&self) -> (r: bool)
        ensures
            r == !(*self is After),
    {
        !matches!(self, TimeSpecifier::After(_))
    }
}

/// The instant an RFC 3339 date-time literal denotes, or `None` when the
/// text is not one. Defined by what `chrono::DateTime::parse_from_rfc3339`
/// accepts; a pure function of the text.
pub uninterp spec fn rfc3339_instant_of(s: Seq<char>) -> Option<int>;

/// Relies on `chrono::DateTime::parse_from_rfc3339` and `timestamp`: they
/// turn an RFC 3339 literal into its Unix timestamp, as a pure function
/// of the text, and reject anything else.
#[verifier::external_body]
pub fn parse_rfc3339(s: &str) -> (r: Option<i64>)
    ensures
        match r {
            Some(t) => rfc3339_instant_of(s@) == Some(t as int),
            None => rfc3339_instant_of(s@) is None,
        },
{
    chrono::DateTime::parse_from_rfc3339(s).ok().map(|t| t.timestamp())
}

/// Resolving a relative duration never looks at the timezone: the result
/// is the same in every zone.
pub proof fn lemma_resolve_after_ignores_zone(
    d: AfterTimeSpecifier,
    now: int,
    tz1: Seq<char>,
    tz2: Seq<char>,
)
    ensures
        spec_resolve(TimeSpecifier::After(d), now, tz1) == spec_resolve(
            TimeSpecifier::After(d),
            now,
            tz2,
        ),
{
}

/// A wall-clock target is built on the local calendar date of "now": on
/// that very day unless it says "tomorrow", in which case on exactly the
/// next local day; the minute-only form also keeps the current local hour.
pub proof fn lemma_resolve_at_uses_local_calendar(a: AtTimeSpecifier, now: int, tz: Seq<char>)
    requires
        zone::local_civil_of(tz, now) is Some,
        a matches AtTimeSpecifier::Minute(m) ==> 0 <= m@ < 60,
    ensures
        ({
            let c = zone::local_civil_of(tz, now)->Some_0;
            &&& spec_resolve(TimeSpecifier::At(a), now, tz) == zone::utc_of_local(
                tz,
                spec_target_day(a, c.0),
                spec_target_sod(a, c.1),
            )
            &&& (a matches AtTimeSpecifier::Hour { is_tomorrow: true, .. } ==> spec_target_day(
                a,
                c.0,
            ) == c.0 + 1)
            &&& (a matches AtTimeSpecifier::HourMinute { is_tomorrow: true, .. }
                ==> spec_target_day(a, c.0) == c.0 + 1)
            &&& (a matches AtTimeSpecifier::Hour { is_tomorrow: false, .. } ==> spec_target_day(
                a,
                c.0,
            ) == c.0)
            &&& (a matches AtTimeSpecifier::HourMinute { is_tomorrow: false, .. }
                ==> spec_target_day(a, c.0) == c.0)
            &&& (a is Minute ==> spec_target_day(a, c.0) == c.0 && spec_target_sod(a, c.1) / 3600
                == c.1 / 3600)
        }),
{
    let c = zone::local_civil_of(tz, now)->Some_0;
    if a is Minute {
        let m = a->Minute_0;
        assert(spec_target_sod(a, c.1) == (c.1 / 3600) * 3600 + m@ * 60);
        assert(((c.1 / 3600) * 3600 + m@ * 60) / 3600 == c.1 / 3600) by (nonlinear_arith)
            requires
                0 <= m@ < 60,
        ;
    }
}

} // verus!
