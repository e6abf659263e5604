//! Timezones, held by their IANA names. The timezone database itself is
//! consulted only through the trusted wrappers below; everything the
//! resolution logic reads of a zone comes back as plain values.

use vstd::prelude::*;

verus! {

/// Whether the timezone database knows a name. Defined by what
/// `chrono_tz::Tz::from_str` accepts; a pure function of the name.
pub uninterp spec fn is_tz_name(s: Seq<char>) -> bool;

/// The local calendar view of an instant in a zone: `(day, second of day,
/// month, day of month)`, where `day` counts calendar days from the
/// common era. `None` when the name is unknown to the database or the
/// instant is outside the representable calendar range.
pub uninterp spec fn local_civil_of(tz: Seq<char>, t: int) -> Option<(int, int, int, int)>;

/// The instant a local wall-clock time denotes in a zone: `day` counts
/// calendar days from the common era, `sod` is the second of the local
/// day. `None` when the name is unknown, the date is out of range, or the
/// local time is skipped or repeated at a daylight-saving transition.
pub uninterp spec fn utc_of_local(tz: Seq<char>, day: int, sod: int) -> Option<int>;

/// An IANA timezone identifier that the timezone database knows.
#[derive(Debug, Clone, PartialEq, Eq)]
pub struct ZoneId {
    name: String,
}

impl View for ZoneId {
    type V = Seq<char>;

    closed spec fn view(&self) -> Seq<char> {
        self.name@
    }
}

impl ZoneId {
    /// Validate a name against the timezone database.
    pub fn parse(s: &str) -> (r: Option<ZoneId>)
        ensures
            r is Some <==> is_tz_name(s@),
            r matches Some(z) ==> z@ == s@,
    {
        if zone_known(s) {
            Some(ZoneId { name: s.to_string() })
        } else {
            None
        }
    }

    /// The IANA name this zone was made from.
    pub fn name(&self) -> (r: &str)
        ensures
            r@ == self@,
    {
        self.name.as_str()
    }

    /// Another handle on the same zone.
    pub fn duplicate(&self) -> (r: ZoneId)
        ensures
            r@ == self@,
    {
        ZoneId { name: self.name.clone() }
    }
}

/// Relies on `chrono_tz::Tz`'s `FromStr`: it accepts exactly the IANA
/// names built into the crate's timezone table, as a pure function of the
/// string.
#[verifier::external_body]
fn zone_known(name: &str) -> (r: bool)
    ensures
        r == is_tz_name(name@),
{
    name.parse::<chrono_tz::Tz>().is_ok()
}

/// The local calendar view of an instant: day count from the common era,
/// second of the local day, month and day of month.
#[derive(Debug, Clone, Copy, PartialEq, Eq, Structural)]
pub struct CivilInstant {
    pub day: i64,
    pub second_of_day: u32,
    pub month: u32,
    pub day_of_month: u32,
}

/// Relies on `chrono::DateTime::from_timestamp`, `with_timezone` and the
/// `Datelike`/`Timelike` accessors with a `chrono_tz::Tz`: together they
/// give the local calendar date and wall-clock time of an instant, a pure
/// function of the zone name and the timestamp. `num_days_from_ce` is an
/// `i32` and `num_seconds_from_midnight` stays below 86400.
#[verifier::external_body]
pub fn civil_in_zone(tz: &ZoneId, t: i64) -> (r: Option<CivilInstant>)
    ensures
        match r {
            Some(c) => {
                &&& local_civil_of(tz@, t as int) == Some(
                    (c.day as int, c.second_of_day as int, c.month as int, c.day_of_month as int),
                )
                &&& c.second_of_day < 86400
                &&& -100_000_000 <= c.day <= 100_000_000
            },
            None => local_civil_of(tz@, t as int) is None,
        },
{
    let zone: chrono_tz::Tz = tz.name.parse().ok()?;
    let utc = chrono::DateTime::from_timestamp(t, 0)?;
    let local = utc.with_timezone(&zone);
    Some(
        CivilInstant {
            day: chrono::Datelike::num_days_from_ce(&local) as i64,
            second_of_day: chrono::Timelike::num_seconds_from_midnight(&local),
            month: chrono::Datelike::month(&local),
            day_of_month: chrono::Datelike::day(&local),
        },
    )
}

/// Relies on `chrono::NaiveDate::from_num_days_from_ce_opt`, `and_time`
/// and `NaiveDateTime::and_local_timezone` with a `chrono_tz::Tz`: they
/// map a local wall-clock time back to the unique instant it denotes,
/// `None` when there is none (out-of-range date, or a time skipped or
/// repeated at a daylight-saving transition); a pure function of the zone
/// name, the day and the second of day.
#[verifier::external_body]
pub fn instant_in_zone(tz: &ZoneId, day: i64, sod: u32) -> (r: Option<i64>)
    requires
        sod < 86400,
    ensures
        match r {
            Some(t) => utc_of_local(tz@, day as int, sod as int) == Some(t as int),
            None => utc_of_local(tz@, day as int, sod as int) is None,
        },
{
    let zone: chrono_tz::Tz = tz.name.parse().ok()?;
    let day32 = i32::try_from(day).ok()?;
    let date = chrono::NaiveDate::from_num_days_from_ce_opt(day32)?;
    let time = chrono::NaiveTime::from_num_seconds_from_midnight_opt(sod, 0)?;
    let local = date.and_time(time);
    local.and_local_timezone(zone).single().map(|dt| dt.timestamp())
}

} // verus!
