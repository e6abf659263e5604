//! The bilingual command grammar: ordered-choice recursive descent over
//! the characters of one input line, producing a structured `Command`.
//! Alternatives are tried in a fixed order and the first match wins; a
//! failed alternative never keeps consumed input.

use vstd::prelude::*;

use crate::model::kaisanee::{KaisaneeSpecifier, KaisaneeView, UserId};
use crate::model::number::{
    eat_lit, kanji_number, lemma_ws_end_bounds, lit_at, parse_number, parse_u64_digits,
    parse_u8_digits, spec_number, string_from_chars, to_chars, ws, ws_end,
};
use crate::model::reminder::Reminder;
use crate::model::time::{
    parse_rfc3339, rfc3339_instant_of, AfterTimeSpecifier, AtTimeSpecifier, AtView, Hour, Minute,
    TimeSpecView, TimeSpecifier,
};
use crate::model::zone::{self, ZoneId};
use vstd::string::StrSliceExecFns;

verus! {

/// When the disbandment fires: right now, exactly at a resolved instant,
/// or at a uniformly random instant no later than a resolved bound.
#[derive(Debug, Clone, Copy, PartialEq, Eq, Structural)]
pub enum TimeRangeSpecifier {
    Now,
    By(TimeSpecifier),
    At(TimeSpecifier),
}

/// The mathematical shape of a time range.
pub enum TimeRangeView {
    Now,
    By(TimeSpecView),
    At(TimeSpecView),
}

impl View for TimeRangeSpecifier {
    type V = TimeRangeView;

    open spec fn view(&self) -> TimeRangeView {
        match self {
            TimeRangeSpecifier::Now => TimeRangeView::Now,
            TimeRangeSpecifier::By(t) => TimeRangeView::By(t@),
            TimeRangeSpecifier::At(t) => TimeRangeView::At(t@),
        }
    }
}

/// One parsed command line.
#[derive(Debug, Clone, PartialEq, Eq)]
pub enum Command {
    Kaisan { kaisanee: KaisaneeSpecifier, time_range: TimeRangeSpecifier },
    ShowSetting,
    TimeZone(ZoneId),
    RequirePermission(bool),
    AddReminder(Reminder),
    RemoveReminder(Reminder),
    RemindRandomKaisan(bool),
    Help,
}

/// The mathematical shape of a command: a timezone by its name, a
/// reminder by its minutes.
pub enum CommandView {
    Kaisan { kaisanee: KaisaneeView, time_range: TimeRangeView },
    ShowSetting,
    TimeZone(Seq<char>),
    RequirePermission(bool),
    AddReminder(int),
    RemoveReminder(int),
    RemindRandomKaisan(bool),
    Help,
}

impl View for Command {
    type V = CommandView;

    open spec fn view(&self) -> CommandView {
        match self {
            Command::Kaisan { kaisanee, time_range } => CommandView::Kaisan {
                kaisanee: kaisanee@,
                time_range: time_range@,
            },
            Command::ShowSetting => CommandView::ShowSetting,
            Command::TimeZone(z) => CommandView::TimeZone(z@),
            Command::RequirePermission(b) => CommandView::RequirePermission(*b),
            Command::AddReminder(r) => CommandView::AddReminder(r@),
            Command::RemoveReminder(r) => CommandView::RemoveReminder(r@),
            Command::RemindRandomKaisan(b) => CommandView::RemindRandomKaisan(*b),
            Command::Help => CommandView::Help,
        }
    }
}

/// What the grammar guarantees of every command it produces: a mention
/// list is never empty, and a timezone name is one the database knows.
pub open spec fn command_inv(c: Command) -> bool {
    match c {
        Command::Kaisan { kaisanee, .. } => kaisanee@ matches KaisaneeView::Users(l) ==> l.len()
            > 0,
        Command::TimeZone(z) => zone::is_tz_name(z@),
        _ => true,
    }
}

/// A grammar failure: the token kinds of the outermost alternation, and
/// the line that did not parse.
#[derive(Debug, Clone, PartialEq, Eq)]
pub struct ParseCommandError {
    pub expected: Vec<String>,
    pub got: Option<String>,
}

impl ParseCommandError {
    /// A one-line account of the failure.
    pub fn message(&self) -> String {
        let mut out = String::new();
        out.append("expected one of:");
        let mut i: usize = 0;
        while i < self.expected.len()
            decreases self.expected.len() - i,
        {
            out.append(" ");
            out.append(self.expected[i].as_str());
            i = i + 1;
        }
        match &self.got {
            Some(rest) => {
                out.append(", but got ");
                out.append(rest.as_str());
            },
            None => {},
        }
        out
    }
}

/// Strip `affix` from the front of `content`, or failing that from its
/// end; the original command line is the affix and the rest, in one of
/// the two orders.
pub fn strip_affix<'a>(content: &'a str, affix: &str) -> (r: Option<&'a str>)
    ensures
        r matches Some(rest) ==> content@ == affix@ + rest@ || content@ == rest@ + affix@,
{
    let cs = to_chars(content);
    let n = content.unicode_len();
    let m = affix.unicode_len();
    if m > n {
        return None;
    }
    if let Some(_p) = eat_lit(&cs, 0, affix) {
        let rest = content.substring_char(m, n);
        proof {
            assert(content@ =~= affix@ + rest@);
        }
        return Some(rest);
    }
    if let Some(_p) = eat_lit(&cs, n - m, affix) {
        let rest = content.substring_char(0, n - m);
        proof {
            assert(content@ =~= rest@ + affix@);
        }
        return Some(rest);
    }
    None
}

/// Where a "me" word ends, if one stands at `pos`; the alternatives are
/// tried in this order.
pub open spec fn spec_me_end(s: Seq<char>, pos: int) -> Option<int> {
    if lit_at(s, pos, "me"@) {
        Some(pos + "me"@.len())
    } else if lit_at(s, pos, "Me"@) {
        Some(pos + "Me"@.len())
    } else if lit_at(s, pos, "私"@) {
        Some(pos + "私"@.len())
    } else if lit_at(s, pos, "わたし"@) {
        Some(pos + "わたし"@.len())
    } else if lit_at(s, pos, "俺"@) {
        Some(pos + "俺"@.len())
    } else if lit_at(s, pos, "おれ"@) {
        Some(pos + "おれ"@.len())
    } else if lit_at(s, pos, "オレ"@) {
        Some(pos + "オレ"@.len())
    } else if lit_at(s, pos, "僕"@) {
        Some(pos + "僕"@.len())
    } else if lit_at(s, pos, "ぼく"@) {
        Some(pos + "ぼく"@.len())
    } else if lit_at(s, pos, "ボク"@) {
        Some(pos + "ボク"@.len())
    } else {
        None
    }
}

fn me_words(s: &Vec<char>, pos: usize) -> (r: Option<usize>)
    requires
        pos <= s@.len(),
    ensures
        match r {
            Some(p) => pos <= p <= s@.len() && spec_me_end(s@, pos as int) == Some(p as int),
            None => spec_me_end(s@, pos as int) is None,
        },
{
    if let Some(p) = eat_lit(s, pos, "me") {
        return Some(p);
    }
    if let Some(p) = eat_lit(s, pos, "Me") {
        return Some(p);
    }
    if let Some(p) = eat_lit(s, pos, "私") {
        return Some(p);
    }
    if let Some(p) = eat_lit(s, pos, "わたし") {
        return Some(p);
    }
    if let Some(p) = eat_lit(s, pos, "俺") {
        return Some(p);
    }
    if let Some(p) = eat_lit(s, pos, "おれ") {
        return Some(p);
    }
    if let Some(p) = eat_lit(s, pos, "オレ") {
        return Some(p);
    }
    if let Some(p) = eat_lit(s, pos, "僕") {
        return Some(p);
    }
    if let Some(p) = eat_lit(s, pos, "ぼく") {
        return Some(p);
    }
    if let Some(p) = eat_lit(s, pos, "ボク") {
        return Some(p);
    }
    None
}

/// Where an "all" word ends, if one stands at `pos`.
pub open spec fn spec_all_end(s: Seq<char>, pos: int) -> Option<int> {
    if lit_at(s, pos, "all"@) {
        Some(pos + "all"@.len())
    } else if lit_at(s, pos, "All"@) {
        Some(pos + "All"@.len())
    } else if lit_at(s, pos, "全員"@) {
        Some(pos + "全員"@.len())
    } else if lit_at(s, pos, "皆"@) {
        Some(pos + "皆"@.len())
    } else if lit_at(s, pos, "みんな"@) {
        Some(pos + "みんな"@.len())
    } else {
        None
    }
}

fn all_words(s: &Vec<char>, pos: usize) -> (r: Option<usize>)
    requires
        pos <= s@.len(),
    ensures
        match r {
            Some(p) => pos <= p <= s@.len() && spec_all_end(s@, pos as int) == Some(p as int),
            None => spec_all_end(s@, pos as int) is None,
        },
{
    if let Some(p) = eat_lit(s, pos, "all") {
        return Some(p);
    }
    if let Some(p) = eat_lit(s, pos, "All") {
        return Some(p);
    }
    if let Some(p) = eat_lit(s, pos, "全員") {
        return Some(p);
    }
    if let Some(p) = eat_lit(s, pos, "皆") {
        return Some(p);
    }
    if let Some(p) = eat_lit(s, pos, "みんな") {
        return Some(p);
    }
    None
}

/// A user mention token's value and end, if one stands at `pos`: the
/// opening mark, a non-empty digit run whose value fits an unsigned
/// sixty-four-bit number, and the closing mark.
pub open spec fn spec_user_token(s: Seq<char>, pos: int) -> Option<(int, int)> {
    if lit_at(s, pos, "<@!"@) {
        let d0 = pos + "<@!"@.len();
        let e = crate::model::number::digit_run_end(s, d0, s.len() - d0);
        if e > d0 && crate::model::number::digits_val(s.subrange(d0, e)) <= u64::MAX && lit_at(
            s,
            e,
            ">"@,
        ) {
            Some((crate::model::number::digits_val(s.subrange(d0, e)), e + ">"@.len()))
        } else {
            None
        }
    } else {
        None
    }
}

/// A user mention token: `<@!` followed by the decimal id and `>`. The
/// id returned is exactly the number the digits denote.
fn user_rule(s: &Vec<char>, pos: usize) -> (r: Option<(UserId, usize)>)
    requires
        pos <= s@.len(),
    ensures
        match r {
            Some((u, p)) => pos < p <= s@.len() && spec_user_token(s@, pos as int) == Some(
                (u as int, p as int),
            ),
            None => spec_user_token(s@, pos as int) is None,
        },
{
    let p1 = eat_lit(s, pos, "<@!")?;
    let (v, p2) = parse_u64_digits(s, p1)?;
    let p3 = eat_lit(s, p2, ">")?;
    Some((v, p3))
}

/// The mention run after its first token: more tokens separated by
/// spaces, stopping (and leaving the spaces unconsumed) before anything
/// that is no token.
pub open spec fn spec_users_rest(s: Seq<char>, pos: int, acc: Seq<UserId>) -> (Seq<UserId>, int)
    decreases s.len() - pos,
    when 0 <= pos <= s.len()
    via spec_users_rest_decreases
{
    let w = ws_end(s, pos);
    match spec_user_token(s, w) {
        Some((u, e)) => spec_users_rest(s, e, acc.push(u as UserId)),
        None => (acc, pos),
    }
}

#[via_fn]
proof fn spec_users_rest_decreases(s: Seq<char>, pos: int, acc: Seq<UserId>) {
    lemma_ws_end_bounds(s, pos);
}

/// A non-empty, space-separated run of user mentions with its end.
pub open spec fn spec_users_model(s: Seq<char>, pos: int) -> Option<(Seq<UserId>, int)> {
    match spec_user_token(s, pos) {
        None => None,
        Some((u, e)) => Some(spec_users_rest(s, e, seq![u as UserId])),
    }
}

/// A non-empty, space-separated run of user mentions.
fn users_rule(s: &Vec<char>, pos: usize) -> (r: Option<(Vec<UserId>, usize)>)
    requires
        pos <= s@.len(),
    ensures
        match r {
            Some((l, p)) => pos <= p <= s@.len() && l@.len() > 0 && spec_users_model(
                s@,
                pos as int,
            ) == Some((l@, p as int)),
            None => spec_users_model(s@, pos as int) is None,
        },
{
    let (first, start) = match user_rule(s, pos) {
        Some(x) => x,
        None => {
            return None;
        },
    };
    let mut list: Vec<UserId> = Vec::new();
    list.push(first);
    assert(list@ =~= seq![first]);
    let mut p: usize = start;
    loop
        invariant
            pos <= p <= s@.len(),
            list@.len() > 0,
            spec_users_model(s@, pos as int) == Some(spec_users_rest(s@, p as int, list@)),
        decreases s@.len() - p,
    {
        let p2 = ws(s, p);
        match user_rule(s, p2) {
            Some((u, p3)) => {
                list.push(u);
                p = p3;
            },
            None => {
                return Some((list, p));
            },
        }
    }
}

/// The kaisanee specifier: a "me" word, an "all" word, or mentions,
/// tried in that order.
pub open spec fn spec_kaisanee_model(s: Seq<char>, pos: int) -> Option<(KaisaneeView, int)> {
    if spec_me_end(s, pos) is Some {
        Some((KaisaneeView::Me, spec_me_end(s, pos)->Some_0))
    } else if spec_all_end(s, pos) is Some {
        Some((KaisaneeView::All, spec_all_end(s, pos)->Some_0))
    } else {
        match spec_users_model(s, pos) {
            Some((l, p)) => Some((KaisaneeView::Users(l), p)),
            None => None,
        }
    }
}

/// The kaisanee specifier: a "me" word, an "all" word, or mentions.
fn kaisanee_rule(s: &Vec<char>, pos: usize) -> (r: Option<(KaisaneeSpecifier, usize)>)
    requires
        pos <= s@.len(),
    ensures
        match r {
            Some((k, p)) => pos <= p <= s@.len() && spec_kaisanee_model(s@, pos as int) == Some(
                (k@, p as int),
            ) && (k@ matches KaisaneeView::Users(l) ==> l.len() > 0),
            None => spec_kaisanee_model(s@, pos as int) is None,
        },
{
    if let Some(p) = me_words(s, pos) {
        return Some((KaisaneeSpecifier::Me, p));
    }
    if let Some(p) = all_words(s, pos) {
        return Some((KaisaneeSpecifier::All, p));
    }
    match users_rule(s, pos) {
        Some((l, p)) => Some((KaisaneeSpecifier::Users(l), p)),
        None => None,
    }
}

/// Where a second-unit suffix ends, if one stands at `pos`; both the
/// English words and the kanji are offered, longest English first.
pub open spec fn spec_second_suffix_end(s: Seq<char>, pos: int) -> Option<int> {
    if lit_at(s, pos, "seconds"@) {
        Some(pos + "seconds"@.len())
    } else if lit_at(s, pos, "second"@) {
        Some(pos + "second"@.len())
    } else if lit_at(s, pos, "sec"@) {
        Some(pos + "sec"@.len())
    } else if lit_at(s, pos, "s"@) {
        Some(pos + "s"@.len())
    } else if lit_at(s, pos, "秒"@) {
        Some(pos + "秒"@.len())
    } else {
        None
    }
}

fn second_suffix(s: &Vec<char>, pos: usize) -> (r: Option<usize>)
    requires
        pos <= s@.len(),
    ensures
        match r {
            Some(p) => pos <= p <= s@.len() && spec_second_suffix_end(s@, pos as int) == Some(
                p as int,
            ),
            None => spec_second_suffix_end(s@, pos as int) is None,
        },
{
    if let Some(p) = eat_lit(s, pos, "seconds") {
        return Some(p);
    }
    if let Some(p) = eat_lit(s, pos, "second") {
        return Some(p);
    }
    if let Some(p) = eat_lit(s, pos, "sec") {
        return Some(p);
    }
    if let Some(p) = eat_lit(s, pos, "s") {
        return Some(p);
    }
    if let Some(p) = eat_lit(s, pos, "秒") {
        return Some(p);
    }
    None
}

/// Where a minute-unit suffix ends, if one stands at `pos`.
pub open spec fn spec_minute_suffix_end(s: Seq<char>, pos: int) -> Option<int> {
    if lit_at(s, pos, "minutes"@) {
        Some(pos + "minutes"@.len())
    } else if lit_at(s, pos, "minute"@) {
        Some(pos + "minute"@.len())
    } else if lit_at(s, pos, "min"@) {
        Some(pos + "min"@.len())
    } else if lit_at(s, pos, "m"@) {
        Some(pos + "m"@.len())
    } else if lit_at(s, pos, "分"@) {
        Some(pos + "分"@.len())
    } else {
        None
    }
}

fn minute_suffix(s: &Vec<char>, pos: usize) -> (r: Option<usize>)
    requires
        pos <= s@.len(),
    ensures
        match r {
            Some(p) => pos <= p <= s@.len() && spec_minute_suffix_end(s@, pos as int) == Some(
                p as int,
            ),
            None => spec_minute_suffix_end(s@, pos as int) is None,
        },
{
    if let Some(p) = eat_lit(s, pos, "minutes") {
        return Some(p);
    }
    if let Some(p) = eat_lit(s, pos, "minute") {
        return Some(p);
    }
    if let Some(p) = eat_lit(s, pos, "min") {
        return Some(p);
    }
    if let Some(p) = eat_lit(s, pos, "m") {
        return Some(p);
    }
    if let Some(p) = eat_lit(s, pos, "分") {
        return Some(p);
    }
    None
}

/// Where an hour-unit suffix ends, if one stands at `pos`.
pub open spec fn spec_hour_suffix_end(s: Seq<char>, pos: int) -> Option<int> {
    if lit_at(s, pos, "hours"@) {
        Some(pos + "hours"@.len())
    } else if lit_at(s, pos, "hour"@) {
        Some(pos + "hour"@.len())
    } else if lit_at(s, pos, "hr"@) {
        Some(pos + "hr"@.len())
    } else if lit_at(s, pos, "h"@) {
        Some(pos + "h"@.len())
    } else if lit_at(s, pos, "時間"@) {
        Some(pos + "時間"@.len())
    } else {
        None
    }
}

fn hour_suffix(s: &Vec<char>, pos: usize) -> (r: Option<usize>)
    requires
        pos <= s@.len(),
    ensures
        match r {
            Some(p) => pos <= p <= s@.len() && spec_hour_suffix_end(s@, pos as int) == Some(
                p as int,
            ),
            None => spec_hour_suffix_end(s@, pos as int) is None,
        },
{
    if let Some(p) = eat_lit(s, pos, "hours") {
        return Some(p);
    }
    if let Some(p) = eat_lit(s, pos, "hour") {
        return Some(p);
    }
    if let Some(p) = eat_lit(s, pos, "hr") {
        return Some(p);
    }
    if let Some(p) = eat_lit(s, pos, "h") {
        return Some(p);
    }
    if let Some(p) = eat_lit(s, pos, "時間") {
        return Some(p);
    }
    None
}

/// The boolean literal standing at `pos` with its end, if any; three
/// affirmative and three negative forms.
pub open spec fn spec_boolean(s: Seq<char>, pos: int) -> Option<(bool, int)> {
    if lit_at(s, pos, "true"@) {
        Some((true, pos + "true"@.len()))
    } else if lit_at(s, pos, "false"@) {
        Some((false, pos + "false"@.len()))
    } else if lit_at(s, pos, "yes"@) {
        Some((true, pos + "yes"@.len()))
    } else if lit_at(s, pos, "no"@) {
        Some((false, pos + "no"@.len()))
    } else if lit_at(s, pos, "はい"@) {
        Some((true, pos + "はい"@.len()))
    } else if lit_at(s, pos, "いいえ"@) {
        Some((false, pos + "いいえ"@.len()))
    } else {
        None
    }
}

fn boolean_rule(s: &Vec<char>, pos: usize) -> (r: Option<(bool, usize)>)
    requires
        pos <= s@.len(),
    ensures
        match r {
            Some((b, p)) => pos <= p <= s@.len() && spec_boolean(s@, pos as int) == Some(
                (b, p as int),
            ),
            None => spec_boolean(s@, pos as int) is None,
        },
{
    if let Some(p) = eat_lit(s, pos, "true") {
        return Some((true, p));
    }
    if let Some(p) = eat_lit(s, pos, "false") {
        return Some((false, p));
    }
    if let Some(p) = eat_lit(s, pos, "yes") {
        return Some((true, p));
    }
    if let Some(p) = eat_lit(s, pos, "no") {
        return Some((false, p));
    }
    if let Some(p) = eat_lit(s, pos, "はい") {
        return Some((true, p));
    }
    if let Some(p) = eat_lit(s, pos, "いいえ") {
        return Some((false, p));
    }
    None
}

/// The raw clock-unit token: a run of one or two digits, or a kanji
/// numeral.
pub open spec fn spec_unit_token(s: Seq<char>, pos: int) -> Option<(int, int)> {
    let e = crate::model::number::digit_run_end(s, pos, 2);
    if e > pos {
        Some((crate::model::number::digits_val(s.subrange(pos, e)), e))
    } else {
        crate::model::number::spec_kanji_number(s, pos)
    }
}

/// A unit token accepted as a minute: its value must be below sixty.
pub open spec fn spec_minute_value(s: Seq<char>, pos: int) -> Option<(int, int)> {
    match spec_unit_token(s, pos) {
        Some((v, e)) => if v < 60 {
            Some((v, e))
        } else {
            None
        },
        None => None,
    }
}

/// A unit token accepted as an hour: its value must be below
/// twenty-four.
pub open spec fn spec_hour_value(s: Seq<char>, pos: int) -> Option<(int, int)> {
    match spec_unit_token(s, pos) {
        Some((v, e)) => if v < 24 {
            Some((v, e))
        } else {
            None
        },
        None => None,
    }
}

/// A minute value: a unit token below sixty.
fn minute_rule(s: &Vec<char>, pos: usize) -> (r: Option<(Minute, usize)>)
    requires
        pos <= s@.len(),
    ensures
        match r {
            Some((m, p)) => pos < p <= s@.len() && 0 <= m@ < 60 && spec_minute_value(
                s@,
                pos as int,
            ) == Some((m@, p as int)),
            None => spec_minute_value(s@, pos as int) is None,
        },
{
    proof {
        crate::model::number::lemma_digit_run_end_bounds(s@, pos as int, 2);
    }
    let (v, p) = match parse_u8_digits(s, pos, 2) {
        Some(x) => x,
        None => kanji_number(s, pos)?,
    };
    match Minute::from_u8(v) {
        Ok(m) => Some((m, p)),
        Err(_) => None,
    }
}

/// An hour value: a unit token below twenty-four.
fn hour_rule(s: &Vec<char>, pos: usize) -> (r: Option<(Hour, usize)>)
    requires
        pos <= s@.len(),
    ensures
        match r {
            Some((h, p)) => pos < p <= s@.len() && 0 <= h@ < 24 && spec_hour_value(
                s@,
                pos as int,
            ) == Some((h@, p as int)),
            None => spec_hour_value(s@, pos as int) is None,
        },
{
    proof {
        crate::model::number::lemma_digit_run_end_bounds(s@, pos as int, 2);
    }
    let (v, p) = match parse_u8_digits(s, pos, 2) {
        Some(x) => x,
        None => kanji_number(s, pos)?,
    };
    match Hour::from_u8(v) {
        Ok(h) => Some((h, p)),
        Err(_) => None,
    }
}

/// The minute part of an hour expression: the half glyph means thirty,
/// else a minute value with its unit; trailing spaces are consumed.
pub open spec fn spec_half_minute(s: Seq<char>, pos: int) -> Option<(int, int)> {
    if lit_at(s, pos, "半"@) {
        Some((30int, ws_end(s, pos + "半"@.len())))
    } else {
        match spec_minute_value(s, pos) {
            Some((v, e)) => {
                let w = ws_end(s, e);
                if lit_at(s, w, "分"@) {
                    Some((v, ws_end(s, w + "分"@.len())))
                } else {
                    None
                }
            },
            None => None,
        }
    }
}

/// A minute part of an hour expression: the half glyph for thirty, or a
/// minute value with its unit.
fn spec_minute_rule(s: &Vec<char>, pos: usize) -> (r: Option<(Minute, usize)>)
    requires
        pos <= s@.len(),
    ensures
        match r {
            Some((m, p)) => pos <= p <= s@.len() && 0 <= m@ < 60 && spec_half_minute(
                s@,
                pos as int,
            ) == Some((m@, p as int)),
            None => spec_half_minute(s@, pos as int) is None,
        },
{
    if let Some(p1) = eat_lit(s, pos, "半") {
        let p2 = ws(s, p1);
        return match Minute::from_u8(30) {
            Ok(m) => Some((m, p2)),
            Err(_) => None,
        };
    }
    let (m, p1) = minute_rule(s, pos)?;
    let p2 = ws(s, p1);
    let p3 = eat_lit(s, p2, "分")?;
    let p4 = ws(s, p3);
    Some((m, p4))
}

/// The "tomorrow at ..." absolute form: its keyword, an hour, then a
/// colon-minute or an hour glyph with an optional minute part.
pub open spec fn spec_tomorrow_model(s: Seq<char>, pos: int) -> Option<(AtView, int)> {
    if !lit_at(s, pos, "明日の"@) {
        None
    } else {
        let p2 = ws_end(s, pos + "明日の"@.len());
        match spec_hour_value(s, p2) {
            None => None,
            Some((h, p3)) => {
                if lit_at(s, p3, ":"@) && spec_minute_value(s, p3 + ":"@.len()) is Some {
                    let (m, e) = spec_minute_value(s, p3 + ":"@.len())->Some_0;
                    Some(
                        (
                            AtView::HourMinute { hour: h, minute: m, is_tomorrow: true },
                            ws_end(s, e),
                        ),
                    )
                } else {
                    let p4 = ws_end(s, p3);
                    if lit_at(s, p4, "時"@) {
                        let p6 = ws_end(s, p4 + "時"@.len());
                        match spec_half_minute(s, p6) {
                            Some((m, p7)) => Some(
                                (AtView::HourMinute { hour: h, minute: m, is_tomorrow: true }, p7),
                            ),
                            None => Some((AtView::Hour { hour: h, is_tomorrow: true }, p6)),
                        }
                    } else {
                        None
                    }
                }
            },
        }
    }
}

/// The "tomorrow at ..." absolute form.
fn spec_at_tomorrow(s: &Vec<char>, pos: usize) -> (r: Option<(TimeSpecifier, usize)>)
    requires
        pos <= s@.len(),
    ensures
        match r {
            Some((t, p)) => pos <= p <= s@.len() && (t matches TimeSpecifier::At(a) && Some(
                (a@, p as int),
            ) == spec_tomorrow_model(s@, pos as int)),
            None => spec_tomorrow_model(s@, pos as int) is None,
        },
{
    let p1 = eat_lit(s, pos, "明日の")?;
    let p2 = ws(s, p1);
    let (h, p3) = hour_rule(s, p2)?;
    if let Some(p4) = eat_lit(s, p3, ":") {
        if let Some((m, p5)) = minute_rule(s, p4) {
            let p6 = ws(s, p5);
            return Some(
                (
                    TimeSpecifier::At(
                        AtTimeSpecifier::HourMinute { hour: h, minute: m, is_tomorrow: true },
                    ),
                    p6,
                ),
            );
        }
    }
    let p4 = ws(s, p3);
    let p5 = eat_lit(s, p4, "時")?;
    let p6 = ws(s, p5);
    match spec_minute_rule(s, p6) {
        Some((m, p7)) => Some(
            (TimeSpecifier::At(AtTimeSpecifier::with_hour(h, Some(m), true)), p7),
        ),
        None => Some((TimeSpecifier::At(AtTimeSpecifier::with_hour(h, None, true)), p6)),
    }
}

/// Whether the character can appear in an RFC 3339 literal.
pub open spec fn is_rfc_char(c: char) -> bool {
    c == 'T' || c == 'Z' || c == '+' || c == '-' || c == '.' || c == ':'
        || crate::model::number::is_digit_char(c)
}

/// Where the greedy run of RFC 3339 characters starting at `pos` ends.
pub open spec fn rfc_run_end(s: Seq<char>, pos: int) -> int
    decreases s.len() - pos,
    when 0 <= pos <= s.len()
{
    if pos < s.len() && is_rfc_char(s[pos]) {
        rfc_run_end(s, pos + 1)
    } else {
        pos
    }
}

fn rfc_char_at(s: &Vec<char>, pos: usize) -> (r: bool)
    requires
        pos <= s@.len(),
    ensures
        r == (pos < s@.len() && is_rfc_char(s@[pos as int])),
{
    if pos >= s.len() {
        return false;
    }
    let c = s[pos];
    c == 'T' || c == 'Z' || c == '+' || c == '-' || c == '.' || c == ':' || ((c as u32) >= 48 && (
    c as u32) <= 57)
}

/// The explicit absolute form: the keyword, then a non-empty run of
/// RFC 3339 characters that the calendar library accepts as a date-time.
pub open spec fn spec_rfc_model(s: Seq<char>, pos: int) -> Option<(int, int)> {
    if !lit_at(s, pos, "rfc3339"@) {
        None
    } else {
        let p2 = ws_end(s, pos + "rfc3339"@.len());
        let e = rfc_run_end(s, p2);
        if e == p2 {
            None
        } else {
            match rfc3339_instant_of(s.subrange(p2, e)) {
                Some(t) => Some((t, ws_end(s, e))),
                None => None,
            }
        }
    }
}

/// The explicit absolute form: an RFC 3339 literal after its keyword.
fn rfc3339_rule(s: &Vec<char>, pos: usize) -> (r: Option<(TimeSpecifier, usize)>)
    requires
        pos <= s@.len(),
    ensures
        match r {
            Some((t, p)) => pos <= p <= s@.len() && (t matches TimeSpecifier::Exactly(i)
                && spec_rfc_model(s@, pos as int) == Some((i as int, p as int))),
            None => spec_rfc_model(s@, pos as int) is None,
        },
{
    let p1 = eat_lit(s, pos, "rfc3339")?;
    let p2 = ws(s, p1);
    let n = s.len();
    let mut p: usize = p2;
    while rfc_char_at(s, p)
        invariant
            n == s@.len(),
            p2 <= p <= s@.len(),
            rfc_run_end(s@, p2 as int) == rfc_run_end(s@, p as int),
        decreases s@.len() - p,
    {
        assert(p < n);
        p = p + 1;
    }
    if p == p2 {
        return None;
    }
    let token = string_from_chars(s, p2, p);
    let t = parse_rfc3339(token.as_str())?;
    let p3 = ws(s, p);
    Some((TimeSpecifier::Exactly(t), p3))
}

/// The bare half glyph: minute thirty of the current hour.
pub open spec fn spec_half_model(s: Seq<char>, pos: int) -> Option<(AtView, int)> {
    if lit_at(s, pos, "半"@) {
        Some((AtView::Minute(30int), ws_end(s, pos + "半"@.len())))
    } else {
        None
    }
}

fn spec_at_half(s: &Vec<char>, pos: usize) -> (r: Option<(TimeSpecifier, usize)>)
    requires
        pos <= s@.len(),
    ensures
        match r {
            Some((t, p)) => pos <= p <= s@.len() && (t matches TimeSpecifier::At(a) && Some(
                (a@, p as int),
            ) == spec_half_model(s@, pos as int)),
            None => spec_half_model(s@, pos as int) is None,
        },
{
    let p1 = eat_lit(s, pos, "半")?;
    let p2 = ws(s, p1);
    match Minute::from_u8(30) {
        Ok(m) => Some((TimeSpecifier::At(AtTimeSpecifier::Minute(m)), p2)),
        Err(_) => None,
    }
}

/// What may follow a leading number `x` in an absolute form: a colon
/// and minute (with an optional "tomorrow"), a bare minute unit, or an
/// hour glyph with an optional minute part; `x` is checked against the
/// unit's bound in each.
pub open spec fn spec_at_tail_model(s: Seq<char>, pos: int, x: int) -> Option<(AtView, int)> {
    if lit_at(s, pos, ":"@) && spec_minute_value(s, pos + ":"@.len()) is Some && x < 24 {
        let (m, e1) = spec_minute_value(s, pos + ":"@.len())->Some_0;
        let e2 = ws_end(s, e1);
        if lit_at(s, e2, "tomorrow"@) {
            Some(
                (
                    AtView::HourMinute { hour: x, minute: m, is_tomorrow: true },
                    ws_end(s, e2 + "tomorrow"@.len()),
                ),
            )
        } else {
            Some((AtView::HourMinute { hour: x, minute: m, is_tomorrow: false }, e2))
        }
    } else {
        let w = ws_end(s, pos);
        if lit_at(s, w, "分"@) {
            if x < 60 {
                Some((AtView::Minute(x), ws_end(s, w + "分"@.len())))
            } else {
                None
            }
        } else if lit_at(s, w, "時"@) {
            if x < 24 {
                let p2 = ws_end(s, w + "時"@.len());
                match spec_half_minute(s, p2) {
                    Some((m, p3)) => Some(
                        (AtView::HourMinute { hour: x, minute: m, is_tomorrow: false }, p3),
                    ),
                    None => Some((AtView::Hour { hour: x, is_tomorrow: false }, p2)),
                }
            } else {
                None
            }
        } else {
            None
        }
    }
}

fn spec_at_tail(s: &Vec<char>, pos: usize, x: u8) -> (r: Option<(TimeSpecifier, usize)>)
    requires
        pos <= s@.len(),
    ensures
        match r {
            Some((t, p)) => pos <= p <= s@.len() && (t matches TimeSpecifier::At(a) && Some(
                (a@, p as int),
            ) == spec_at_tail_model(s@, pos as int, x as int)),
            None => spec_at_tail_model(s@, pos as int, x as int) is None,
        },
{
    if let Some(p1) = eat_lit(s, pos, ":") {
        if let Some((m, p2)) = minute_rule(s, p1) {
            if let Ok(h) = Hour::from_u8(x) {
                let p3 = ws(s, p2);
                let (tom, p4) = match eat_lit(s, p3, "tomorrow") {
                    Some(q) => (true, ws(s, q)),
                    None => (false, p3),
                };
                return Some(
                    (
                        TimeSpecifier::At(
                            AtTimeSpecifier::HourMinute { hour: h, minute: m, is_tomorrow: tom },
                        ),
                        p4,
                    ),
                );
            }
        }
    }
    let pw = ws(s, pos);
    if let Some(p1) = eat_lit(s, pw, "分") {
        let p2 = ws(s, p1);
        if let Ok(m) = Minute::from_u8(x) {
            return Some((TimeSpecifier::At(AtTimeSpecifier::with_minute(m, None)), p2));
        }
        return None;
    }
    if let Some(p1) = eat_lit(s, pw, "時") {
        let p2 = ws(s, p1);
        if let Ok(h) = Hour::from_u8(x) {
            return match spec_minute_rule(s, p2) {
                Some((m, p3)) => Some(
                    (TimeSpecifier::At(AtTimeSpecifier::with_hour(h, Some(m), false)), p3),
                ),
                None => Some((TimeSpecifier::At(AtTimeSpecifier::with_hour(h, None, false)), p2)),
            };
        }
        return None;
    }
    None
}

/// An absolute time: number-led, tomorrow-led, RFC 3339, or the half
/// glyph, tried in that order.
pub open spec fn spec_at_model(s: Seq<char>, pos: int) -> Option<(TimeSpecView, int)> {
    let via_number: Option<(TimeSpecView, int)> = match spec_number(s, pos) {
        Some((x, p1)) => match spec_at_tail_model(s, p1, x) {
            Some((a, p)) => Some((TimeSpecView::At(a), p)),
            None => None,
        },
        None => None,
    };
    if via_number is Some {
        via_number
    } else if spec_tomorrow_model(s, pos) is Some {
        let (a, p) = spec_tomorrow_model(s, pos)->Some_0;
        Some((TimeSpecView::At(a), p))
    } else if spec_rfc_model(s, pos) is Some {
        let (t, p) = spec_rfc_model(s, pos)->Some_0;
        Some((TimeSpecView::Exactly(t), p))
    } else {
        match spec_half_model(s, pos) {
            Some((a, p)) => Some((TimeSpecView::At(a), p)),
            None => None,
        }
    }
}

fn spec_at_rule(s: &Vec<char>, pos: usize) -> (r: Option<(TimeSpecifier, usize)>)
    requires
        pos <= s@.len(),
    ensures
        match r {
            Some((t, p)) => pos <= p <= s@.len() && spec_at_model(s@, pos as int) == Some(
                (t@, p as int),
            ),
            None => spec_at_model(s@, pos as int) is None,
        },
{
    if let Some((x, p1)) = parse_number(s, pos) {
        if let Some(r) = spec_at_tail(s, p1, x) {
            return Some(r);
        }
    }
    if let Some(r) = spec_at_tomorrow(s, pos) {
        return Some(r);
    }
    if let Some(r) = rfc3339_rule(s, pos) {
        return Some(r);
    }
    spec_at_half(s, pos)
}

/// An hour duration's optional embedded minute component: a number with
/// a minute unit, or nothing (the group backtracks as one).
pub open spec fn spec_hour_after_tail(s: Seq<char>, p4: int, x: int) -> Option<
    (AfterTimeSpecifier, int),
> {
    match spec_number(s, p4) {
        Some((m2, q1)) => {
            let q2 = ws_end(s, q1);
            match spec_minute_suffix_end(s, q2) {
                Some(q3) => Some(
                    (AfterTimeSpecifier::HourMinute(x as u8, m2 as u8), ws_end(s, q3)),
                ),
                None => Some((AfterTimeSpecifier::Hour(x as u8), p4)),
            }
        },
        None => Some((AfterTimeSpecifier::Hour(x as u8), p4)),
    }
}

/// A relative duration: a number and a unit, tried minute, second, hour;
/// the hour unit may take an embedded minute component.
pub open spec fn spec_after_model(s: Seq<char>, pos: int) -> Option<(AfterTimeSpecifier, int)> {
    match spec_number(s, pos) {
        None => None,
        Some((x, p1)) => {
            let p2 = ws_end(s, p1);
            if spec_minute_suffix_end(s, p2) is Some {
                Some(
                    (
                        AfterTimeSpecifier::Minute(x as u8),
                        ws_end(s, spec_minute_suffix_end(s, p2)->Some_0),
                    ),
                )
            } else if spec_second_suffix_end(s, p2) is Some {
                Some(
                    (
                        AfterTimeSpecifier::Second(x as u8),
                        ws_end(s, spec_second_suffix_end(s, p2)->Some_0),
                    ),
                )
            } else if spec_hour_suffix_end(s, p2) is Some {
                spec_hour_after_tail(s, ws_end(s, spec_hour_suffix_end(s, p2)->Some_0), x)
            } else {
                None
            }
        },
    }
}

/// A relative duration: a number and a unit, where an hour unit may take
/// an embedded minute component.
fn spec_after_rule(s: &Vec<char>, pos: usize) -> (r: Option<(TimeSpecifier, usize)>)
    requires
        pos <= s@.len(),
    ensures
        match r {
            Some((t, p)) => pos <= p <= s@.len() && (t matches TimeSpecifier::After(d)
                && spec_after_model(s@, pos as int) == Some((d, p as int))),
            None => spec_after_model(s@, pos as int) is None,
        },
{
    let (x, p1) = parse_number(s, pos)?;
    let p2 = ws(s, p1);
    if let Some(p3) = minute_suffix(s, p2) {
        let p4 = ws(s, p3);
        return Some((TimeSpecifier::After(AfterTimeSpecifier::with_minute(x, None)), p4));
    }
    if let Some(p3) = second_suffix(s, p2) {
        let p4 = ws(s, p3);
        return Some((TimeSpecifier::After(AfterTimeSpecifier::Second(x)), p4));
    }
    if let Some(p3) = hour_suffix(s, p2) {
        let p4 = ws(s, p3);
        let (m, p5): (Option<u8>, usize) = match parse_number(s, p4) {
            Some((m2, q1)) => {
                let q2 = ws(s, q1);
                match minute_suffix(s, q2) {
                    Some(q3) => {
                        let q4 = ws(s, q3);
                        (Some(m2), q4)
                    },
                    None => (None, p4),
                }
            },
            None => (None, p4),
        };
        return Some((TimeSpecifier::After(AfterTimeSpecifier::with_hour(x, m)), p5));
    }
    None
}

/// How the marker after a duration shapes the range: the within-markers
/// make a `By` range, the bare after-glyph an `At` one; the combined
/// form is tried before its prefix.
pub open spec fn spec_after_suffix(s: Seq<char>, pos: int, d: AfterTimeSpecifier) -> Option<
    (TimeRangeSpecifier, int),
> {
    if lit_at(s, pos, "後まで"@) {
        Some(
            (TimeRangeSpecifier::By(TimeSpecifier::After(d)), pos + "後まで"@.len()),
        )
    } else if lit_at(s, pos, "後"@) {
        Some((TimeRangeSpecifier::At(TimeSpecifier::After(d)), pos + "後"@.len()))
    } else if lit_at(s, pos, "以内"@) {
        Some((TimeRangeSpecifier::By(TimeSpecifier::After(d)), pos + "以内"@.len()))
    } else {
        None
    }
}

/// The range marker after a duration: within-suffixes make a `By` range,
/// the bare after-glyph an `At` one.
fn after_suffix_rule(s: &Vec<char>, pos: usize, spec: AfterTimeSpecifier) -> (r: Option<
    (TimeRangeSpecifier, usize),
>)
    requires
        pos <= s@.len(),
    ensures
        match r {
            Some((t, p)) => pos <= p <= s@.len() && spec_after_suffix(s@, pos as int, spec)
                == Some((t, p as int)),
            None => spec_after_suffix(s@, pos as int, spec) is None,
        },
{
    if let Some(p) = eat_lit(s, pos, "後まで") {
        return Some((TimeRangeSpecifier::By(TimeSpecifier::After(spec)), p));
    }
    if let Some(p) = eat_lit(s, pos, "後") {
        return Some((TimeRangeSpecifier::At(TimeSpecifier::After(spec)), p));
    }
    if let Some(p) = eat_lit(s, pos, "以内") {
        return Some((TimeRangeSpecifier::By(TimeSpecifier::After(spec)), p));
    }
    None
}

pub open spec fn spec_after_range(s: Seq<char>, pos: int, d: AfterTimeSpecifier) -> Option<
    (TimeRangeView, int),
> {
    match spec_after_suffix(s, pos, d) {
        Some((t, p)) => Some((t@, p)),
        None => None,
    }
}

/// An hour duration with its optional minute component inside a range:
/// the range marker must follow whatever the group consumed.
pub open spec fn spec_hour_range(s: Seq<char>, p4: int, x: int) -> Option<(TimeRangeView, int)> {
    match spec_number(s, p4) {
        Some((m2, q1)) => {
            let q2 = ws_end(s, q1);
            match spec_minute_suffix_end(s, q2) {
                Some(q3) => spec_after_range(
                    s,
                    ws_end(s, q3),
                    AfterTimeSpecifier::HourMinute(x as u8, m2 as u8),
                ),
                None => spec_after_range(s, p4, AfterTimeSpecifier::Hour(x as u8)),
            }
        },
        None => spec_after_range(s, p4, AfterTimeSpecifier::Hour(x as u8)),
    }
}

/// The number-led time-range alternatives: a duration with a range
/// marker (second, minute, hour in that order), else an absolute tail
/// whose trailing deadline glyph turns `At` into `By`.
pub open spec fn spec_time_range_number(s: Seq<char>, pos: int) -> Option<(TimeRangeView, int)> {
    match spec_number(s, pos) {
        None => None,
        Some((x, p1)) => {
            let p2 = ws_end(s, p1);
            let via_second: Option<(TimeRangeView, int)> = match spec_second_suffix_end(s, p2) {
                Some(p3) => spec_after_range(s, ws_end(s, p3), AfterTimeSpecifier::Second(x as u8)),
                None => None,
            };
            if via_second is Some {
                via_second
            } else {
                let via_minute: Option<(TimeRangeView, int)> = match spec_minute_suffix_end(
                    s,
                    p2,
                ) {
                    Some(p3) => spec_after_range(
                        s,
                        ws_end(s, p3),
                        AfterTimeSpecifier::Minute(x as u8),
                    ),
                    None => None,
                };
                if via_minute is Some {
                    via_minute
                } else {
                    let via_hour: Option<(TimeRangeView, int)> = match spec_hour_suffix_end(
                        s,
                        p2,
                    ) {
                        Some(p3) => spec_hour_range(s, ws_end(s, p3), x),
                        None => None,
                    };
                    if via_hour is Some {
                        via_hour
                    } else {
                        match spec_at_tail_model(s, p1, x) {
                            Some((a, p3)) => if lit_at(s, p3, "まで"@) {
                                Some(
                                    (
                                        TimeRangeView::By(TimeSpecView::At(a)),
                                        p3 + "まで"@.len(),
                                    ),
                                )
                            } else {
                                Some((TimeRangeView::At(TimeSpecView::At(a)), p3))
                            },
                            None => None,
                        }
                    }
                }
            }
        },
    }
}

/// The whole time-range grammar, alternatives in their order: number-led
/// forms, the other absolute forms with an optional deadline glyph, the
/// immediate words, then the four English keyword forms.
pub open spec fn spec_time_range_model(s: Seq<char>, pos: int) -> Option<(TimeRangeView, int)> {
    let via_number = spec_time_range_number(s, pos);
    if via_number is Some {
        via_number
    } else {
        let absolute: Option<(TimeSpecView, int)> = if spec_tomorrow_model(s, pos) is Some {
            let (a, p) = spec_tomorrow_model(s, pos)->Some_0;
            Some((TimeSpecView::At(a), p))
        } else if spec_rfc_model(s, pos) is Some {
            let (t, p) = spec_rfc_model(s, pos)->Some_0;
            Some((TimeSpecView::Exactly(t), p))
        } else {
            match spec_half_model(s, pos) {
                Some((a, p)) => Some((TimeSpecView::At(a), p)),
                None => None,
            }
        };
        match absolute {
            Some((tv, p1)) => if lit_at(s, p1, "まで"@) {
                Some((TimeRangeView::By(tv), p1 + "まで"@.len()))
            } else {
                Some((TimeRangeView::At(tv), p1))
            },
            None => if lit_at(s, pos, "now"@) {
                Some((TimeRangeView::At(TimeSpecView::Now), pos + "now"@.len()))
            } else if lit_at(s, pos, "今すぐ"@) {
                Some((TimeRangeView::At(TimeSpecView::Now), pos + "今すぐ"@.len()))
            } else if lit_at(s, pos, "at"@) && spec_at_model(s, ws_end(s, pos + "at"@.len()))
                is Some {
                let (t, p) = spec_at_model(s, ws_end(s, pos + "at"@.len()))->Some_0;
                Some((TimeRangeView::At(t), p))
            } else if lit_at(s, pos, "by"@) && spec_at_model(s, ws_end(s, pos + "by"@.len()))
                is Some {
                let (t, p) = spec_at_model(s, ws_end(s, pos + "by"@.len()))->Some_0;
                Some((TimeRangeView::By(t), p))
            } else if lit_at(s, pos, "after"@) && spec_after_model(
                s,
                ws_end(s, pos + "after"@.len()),
            ) is Some {
                let (d, p) = spec_after_model(s, ws_end(s, pos + "after"@.len()))->Some_0;
                Some((TimeRangeView::At(TimeSpecView::After(d)), p))
            } else if lit_at(s, pos, "within"@) && spec_after_model(
                s,
                ws_end(s, pos + "within"@.len()),
            ) is Some {
                let (d, p) = spec_after_model(s, ws_end(s, pos + "within"@.len()))->Some_0;
                Some((TimeRangeView::By(TimeSpecView::After(d)), p))
            } else {
                None
            },
        }
    }
}

/// The full time-range grammar; mirrors `spec_time_range_model`.
fn time_range_rule(s: &Vec<char>, pos: usize) -> (r: Option<(TimeRangeSpecifier, usize)>)
    requires
        pos <= s@.len(),
    ensures
        match r {
            Some((t, p)) => pos <= p <= s@.len() && spec_time_range_model(s@, pos as int) == Some(
                (t@, p as int),
            ),
            None => spec_time_range_model(s@, pos as int) is None,
        },
{
    if let Some((x, p1)) = parse_number(s, pos) {
        let p2 = ws(s, p1);
        if let Some(p3) = second_suffix(s, p2) {
            let p4 = ws(s, p3);
            if let Some(r) = after_suffix_rule(s, p4, AfterTimeSpecifier::Second(x)) {
                return Some(r);
            }
        }
        if let Some(p3) = minute_suffix(s, p2) {
            let p4 = ws(s, p3);
            if let Some(r) = after_suffix_rule(s, p4, AfterTimeSpecifier::Minute(x)) {
                return Some(r);
            }
        }
        if let Some(p3) = hour_suffix(s, p2) {
            let p4 = ws(s, p3);
            let (m, p5): (Option<u8>, usize) = match parse_number(s, p4) {
                Some((m2, q1)) => {
                    let q2 = ws(s, q1);
                    match minute_suffix(s, q2) {
                        Some(q3) => {
                            let q4 = ws(s, q3);
                            (Some(m2), q4)
                        },
                        None => (None, p4),
                    }
                },
                None => (None, p4),
            };
            if let Some(r) = after_suffix_rule(s, p5, AfterTimeSpecifier::with_hour(x, m)) {
                return Some(r);
            }
        }
        if let Some((spec, p3)) = spec_at_tail(s, p1, x) {
            return match eat_lit(s, p3, "まで") {
                Some(p4) => Some((TimeRangeSpecifier::By(spec), p4)),
                None => Some((TimeRangeSpecifier::At(spec), p3)),
            };
        }
    }
    let absolute: Option<(TimeSpecifier, usize)> = match spec_at_tomorrow(s, pos) {
        Some(r) => Some(r),
        None => match rfc3339_rule(s, pos) {
            Some(r) => Some(r),
            None => spec_at_half(s, pos),
        },
    };
    if let Some((spec, p1)) = absolute {
        return match eat_lit(s, p1, "まで") {
            Some(p2) => Some((TimeRangeSpecifier::By(spec), p2)),
            None => Some((TimeRangeSpecifier::At(spec), p1)),
        };
    }
    if let Some(p1) = eat_lit(s, pos, "now") {
        return Some((TimeRangeSpecifier::At(TimeSpecifier::Now), p1));
    }
    if let Some(p1) = eat_lit(s, pos, "今すぐ") {
        return Some((TimeRangeSpecifier::At(TimeSpecifier::Now), p1));
    }
    if let Some(p1) = eat_lit(s, pos, "at") {
        let p2 = ws(s, p1);
        if let Some((spec, p3)) = spec_at_rule(s, p2) {
            return Some((TimeRangeSpecifier::At(spec), p3));
        }
    }
    if let Some(p1) = eat_lit(s, pos, "by") {
        let p2 = ws(s, p1);
        if let Some((spec, p3)) = spec_at_rule(s, p2) {
            return Some((TimeRangeSpecifier::By(spec), p3));
        }
    }
    if let Some(p1) = eat_lit(s, pos, "after") {
        let p2 = ws(s, p1);
        if let Some((spec, p3)) = spec_after_rule(s, p2) {
            return Some((TimeRangeSpecifier::At(spec), p3));
        }
    }
    if let Some(p1) = eat_lit(s, pos, "within") {
        let p2 = ws(s, p1);
        if let Some((spec, p3)) = spec_after_rule(s, p2) {
            return Some((TimeRangeSpecifier::By(spec), p3));
        }
    }
    None
}

/// A kaisanee specifier with its trailing spaces and optional particle.
pub open spec fn spec_kaisanee_particle(s: Seq<char>, pos: int) -> Option<(KaisaneeView, int)> {
    match spec_kaisanee_model(s, pos) {
        Some((k, p1)) => {
            let p2 = ws_end(s, p1);
            if lit_at(s, p2, "を"@) {
                Some((k, ws_end(s, p2 + "を"@.len())))
            } else {
                Some((k, p2))
            }
        },
        None => None,
    }
}

/// A kaisanee specifier with its trailing particle.
fn spec_kaisanee_rule(s: &Vec<char>, pos: usize) -> (r: Option<(KaisaneeSpecifier, usize)>)
    requires
        pos <= s@.len(),
    ensures
        match r {
            Some((k, p)) => pos <= p <= s@.len() && spec_kaisanee_particle(s@, pos as int) == Some(
                (k@, p as int),
            ) && (k@ matches KaisaneeView::Users(l) ==> l.len() > 0),
            None => spec_kaisanee_particle(s@, pos as int) is None,
        },
{
    let (k, p1) = kaisanee_rule(s, pos)?;
    let p2 = ws(s, p1);
    match eat_lit(s, p2, "を") {
        Some(p3) => {
            let p4 = ws(s, p3);
            Some((k, p4))
        },
        None => Some((k, p2)),
    }
}

/// Whether the character can appear in a timezone name token: ASCII
/// letters and digits, plus, minus and slash.
pub open spec fn is_tz_char(c: char) -> bool {
    (97 <= c as u32 <= 122) || (65 <= c as u32 <= 90) || crate::model::number::is_digit_char(c) || c
        == '+' || c == '-' || c == '/'
}

/// Where the greedy run of timezone-name characters at `pos` ends.
pub open spec fn tz_run_end(s: Seq<char>, pos: int) -> int
    decreases s.len() - pos,
    when 0 <= pos <= s.len()
{
    if pos < s.len() && is_tz_char(s[pos]) {
        tz_run_end(s, pos + 1)
    } else {
        pos
    }
}

fn tz_char_at(s: &Vec<char>, pos: usize) -> (r: bool)
    requires
        pos <= s@.len(),
    ensures
        r == (pos < s@.len() && is_tz_char(s@[pos as int])),
{
    if pos >= s.len() {
        return false;
    }
    let c = s[pos];
    ((c as u32) >= 97 && (c as u32) <= 122) || ((c as u32) >= 65 && (c as u32) <= 90) || ((
    c as u32) >= 48 && (c as u32) <= 57) || c == '+' || c == '-' || c == '/'
}

/// The timezone name token: a non-empty run of name characters that the
/// timezone database knows.
pub open spec fn spec_timezone_token(s: Seq<char>, pos: int) -> Option<(Seq<char>, int)> {
    let e = tz_run_end(s, pos);
    if e > pos && zone::is_tz_name(s.subrange(pos, e)) {
        Some((s.subrange(pos, e), e))
    } else {
        None
    }
}

/// The Kaisan line: an optional kaisanee, the time range, optional
/// particles, an optional trailing kaisanee and an optional closing
/// word; naming the kaisanee on both sides is an error.
pub open spec fn spec_kaisan_line(s: Seq<char>, pos: int) -> Option<(CommandView, int)> {
    let lead = spec_kaisanee_particle(s, pos);
    let p1: int = if lead is Some {
        lead->Some_0.1
    } else {
        pos
    };
    match spec_time_range_model(s, p1) {
        None => None,
        Some((tr, p2)) => {
            let p3 = ws_end(s, p2);
            let p4: int = if lit_at(s, p3, "に"@) {
                ws_end(s, p3 + "に"@.len())
            } else {
                p3
            };
            let trail = spec_kaisanee_particle(s, p4);
            let p5: int = if trail is Some {
                trail->Some_0.1
            } else {
                p4
            };
            let p6: int = if lit_at(s, p5, "解散"@) {
                p5 + "解散"@.len()
            } else {
                p5
            };
            if lead is Some && trail is Some {
                None
            } else {
                let kaisanee: KaisaneeView = if lead is Some {
                    lead->Some_0.0
                } else if trail is Some {
                    trail->Some_0.0
                } else {
                    KaisaneeView::All
                };
                Some((CommandView::Kaisan { kaisanee, time_range: tr }, p6))
            }
        },
    }
}

/// The whole command grammar: each settings form in order, then the
/// Kaisan line.
pub open spec fn spec_command_model(s: Seq<char>, pos: int) -> Option<(CommandView, int)> {
    if lit_at(s, pos, "help"@) {
        Some((CommandView::Help, pos + "help"@.len()))
    } else if lit_at(s, pos, "require-permission"@) && spec_boolean(
        s,
        ws_end(s, pos + "require-permission"@.len()),
    ) is Some {
        let (b, p) = spec_boolean(s, ws_end(s, pos + "require-permission"@.len()))->Some_0;
        Some((CommandView::RequirePermission(b), p))
    } else if lit_at(s, pos, "timezone"@) && spec_timezone_token(
        s,
        ws_end(s, pos + "timezone"@.len()),
    ) is Some {
        let (name, p) = spec_timezone_token(s, ws_end(s, pos + "timezone"@.len()))->Some_0;
        Some((CommandView::TimeZone(name), p))
    } else if lit_at(s, pos, "show-setting"@) {
        Some((CommandView::ShowSetting, pos + "show-setting"@.len()))
    } else {
        spec_kaisan_line(s, pos)
    }
}

/// The whole command grammar, one alternative per command form, the
/// Kaisan line last; mirrors `spec_command_model`.
fn command_rule(s: &Vec<char>, pos: usize) -> (r: Option<(Command, usize)>)
    requires
        pos <= s@.len(),
    ensures
        match r {
            Some((c, p)) => pos <= p <= s@.len() && spec_command_model(s@, pos as int) == Some(
                (c@, p as int),
            ) && command_inv(c),
            None => spec_command_model(s@, pos as int) is None,
        },
{
    if let Some(p1) = eat_lit(s, pos, "help") {
        return Some((Command::Help, p1));
    }
    if let Some(p1) = eat_lit(s, pos, "require-permission") {
        let p2 = ws(s, p1);
        if let Some((b, p3)) = boolean_rule(s, p2) {
            return Some((Command::RequirePermission(b), p3));
        }
    }
    if let Some(p1) = eat_lit(s, pos, "timezone") {
        let p2 = ws(s, p1);
        let n = s.len();
        let mut p: usize = p2;
        while tz_char_at(s, p)
            invariant
                n == s@.len(),
                p2 <= p <= s@.len(),
                tz_run_end(s@, p2 as int) == tz_run_end(s@, p as int),
            decreases s@.len() - p,
        {
            assert(p < n);
            p = p + 1;
        }
        if p > p2 {
            let token = string_from_chars(s, p2, p);
            if let Some(z) = ZoneId::parse(token.as_str()) {
                return Some((Command::TimeZone(z), p));
            }
        }
    }
    if let Some(p1) = eat_lit(s, pos, "show-setting") {
        return Some((Command::ShowSetting, p1));
    }
    let (k1, p1): (Option<KaisaneeSpecifier>, usize) = match spec_kaisanee_rule(s, pos) {
        Some((k, p)) => (Some(k), p),
        None => (None, pos),
    };
    let (time_range, p2) = time_range_rule(s, p1)?;
    let p3 = ws(s, p2);
    let p4 = match eat_lit(s, p3, "に") {
        Some(q) => ws(s, q),
        None => p3,
    };
    let (k2, p5): (Option<KaisaneeSpecifier>, usize) = match spec_kaisanee_rule(s, p4) {
        Some((k, p)) => (Some(k), p),
        None => (None, p4),
    };
    let p6 = match eat_lit(s, p5, "解散") {
        Some(q) => q,
        None => p5,
    };
    let kaisanee = match (k1, k2) {
        (Some(k), None) => k,
        (None, Some(k)) => k,
        (None, None) => KaisaneeSpecifier::default(),
        (Some(_), Some(_)) => {
            return None;
        },
    };
    Some((Command::Kaisan { kaisanee, time_range }, p6))
}

/// Whether the model accepts the whole of `s` from its start, yielding
/// some value and consuming every character.
pub open spec fn accepts_command(s: Seq<char>) -> bool {
    spec_command_model(s, 0) matches Some((_c, p)) && p == s.len()
}

/// Parse one whole command line; the grammar must consume all of it.
/// Succeeds exactly on the lines `spec_command_model` accepts whole,
/// with exactly the value the model gives.
pub fn command(input: &str) -> (r: Result<Command, ParseCommandError>)
    ensures
        match r {
            Ok(c) => spec_command_model(input@, 0) == Some((c@, input@.len() as int))
                && command_inv(c),
            Err(_) => !accepts_command(input@),
        },
{
    let cs = to_chars(input);
    match command_rule(&cs, 0) {
        Some((c, p)) => {
            if p == cs.len() {
                return Ok(c);
            }
            Err(parse_failure(input))
        },
        None => Err(parse_failure(input)),
    }
}

/// Parse a whole line as a time range, as the grammar's own tests do.
/// Succeeds exactly on the lines `spec_time_range_model` accepts whole.
pub fn time_range(input: &str) -> (r: Result<TimeRangeSpecifier, ParseCommandError>)
    ensures
        match r {
            Ok(t) => spec_time_range_model(input@, 0) == Some((t@, input@.len() as int)),
            Err(_) => !(spec_time_range_model(input@, 0) matches Some((_t, p)) && p
                == input@.len()),
        },
{
    let cs = to_chars(input);
    match time_range_rule(&cs, 0) {
        Some((t, p)) => {
            if p == cs.len() {
                return Ok(t);
            }
            Err(parse_failure(input))
        },
        None => Err(parse_failure(input)),
    }
}

/// Parse a whole line as a kaisanee specifier. Succeeds exactly on the
/// lines `spec_kaisanee_model` accepts whole.
pub fn kaisanee(input: &str) -> (r: Result<KaisaneeSpecifier, ParseCommandError>)
    ensures
        match r {
            Ok(k) => spec_kaisanee_model(input@, 0) == Some((k@, input@.len() as int)) && (
            k@ matches KaisaneeView::Users(l) ==> l.len() > 0),
            Err(_) => !(spec_kaisanee_model(input@, 0) matches Some((_k, p)) && p
                == input@.len()),
        },
{
    let cs = to_chars(input);
    match kaisanee_rule(&cs, 0) {
        Some((k, p)) => {
            if p == cs.len() {
                return Ok(k);
            }
            Err(parse_failure(input))
        },
        None => Err(parse_failure(input)),
    }
}

/// The failure value handed back to the user: the token kinds of the
/// outermost alternation, and the line that did not parse.
fn parse_failure(input: &str) -> (r: ParseCommandError) {
    let mut expected: Vec<String> = Vec::new();
    expected.push("help".to_string());
    expected.push("require-permission".to_string());
    expected.push("timezone".to_string());
    expected.push("show-setting".to_string());
    expected.push("kaisanee".to_string());
    expected.push("time range".to_string());
    let got: Option<String> = if input.unicode_len() == 0 {
        None
    } else {
        Some(input.to_string())
    };
    ParseCommandError { expected, got }
}

impl Command {
    /// Parse one command line.
    pub fn parse(input: &str) -> (r: Result<Command, ParseCommandError>)
        ensures
            match r {
                Ok(c) => spec_command_model(input@, 0) == Some((c@, input@.len() as int))
                    && command_inv(c),
                Err(_) => !accepts_command(input@),
            },
    {
        command(input)
    }
}

} // verus!
