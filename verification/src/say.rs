//! Rendering values into the bot's chat messages. The decimal and
//! joining helpers carry exact contracts; the phrasing around them is
//! presentation and carries none.

use vstd::prelude::*;
use vstd::string::StringExecFns;

use crate::model::kaisanee::{KaisaneeSpecifier, UserId};
use crate::model::number::string_from_chars;
use crate::model::reminder::Reminder;
use crate::model::zone::ZoneId;

verus! {

/// Something that can speak of itself in a chat message.
pub trait Say {
    fn say(&self) -> String;
}

pub open spec fn spec_digit_char(d: int) -> char {
    if d == 0 {
        '0'
    } else if d == 1 {
        '1'
    } else if d == 2 {
        '2'
    } else if d == 3 {
        '3'
    } else if d == 4 {
        '4'
    } else if d == 5 {
        '5'
    } else if d == 6 {
        '6'
    } else if d == 7 {
        '7'
    } else if d == 8 {
        '8'
    } else {
        '9'
    }
}

/// The digits of a positive number, most significant first; empty for
/// zero and below.
pub open spec fn dec_seq(n: int) -> Seq<char>
    decreases n,
{
    if n <= 0 {
        Seq::empty()
    } else {
        dec_seq(n / 10).push(spec_digit_char(n % 10))
    }
}

/// A number in decimal, as text.
pub open spec fn spec_dec_u64(n: int) -> Seq<char> {
    if n == 0 {
        seq!['0']
    } else {
        dec_seq(n)
    }
}

/// Render a number in decimal.
pub fn dec_u64(n: u64) -> (r: String)
    ensures
        r@ == spec_dec_u64(n as int),
{
    if n == 0 {
        let r = "0".to_string();
        proof {
            reveal_strlit("0");
            assert(r@ =~= seq!['0']);
        }
        return r;
    }
    let mut digits: Vec<char> = Vec::new();
    let mut cur: u64 = n;
    while cur > 0
        invariant
            dec_seq(n as int) == dec_seq(cur as int) + digits@,
        decreases cur,
    {
        let ghost before = digits@;
        let d: u64 = cur % 10;
        let c: char = match d {
            0 => '0',
            1 => '1',
            2 => '2',
            3 => '3',
            4 => '4',
            5 => '5',
            6 => '6',
            7 => '7',
            8 => '8',
            _ => '9',
        };
        digits.insert(0, c);
        proof {
            assert(c == spec_digit_char(cur as int % 10));
            assert(digits@ =~= seq![c] + before);
            assert(dec_seq(cur as int) == dec_seq(cur as int / 10).push(c));
            assert(dec_seq(cur as int / 10).push(c) + before =~= dec_seq(cur as int / 10) + (
            seq![c] + before));
            assert(cur as int / 10 == (cur / 10) as int);
        }
        cur = cur / 10;
    }
    proof {
        assert(dec_seq(0int) + digits@ =~= digits@);
    }
    let n = digits.len();
    let r = string_from_chars(&digits, 0, n);
    proof {
        assert(digits@.subrange(0, n as int) =~= digits@);
    }
    r
}

/// The views of a run of strings.
pub open spec fn strings_view(v: Seq<String>) -> Seq<Seq<char>> {
    v.map_values(|s: String| s@)
}

/// Items joined by a separator: nothing for none, the item alone for
/// one, and separators between neighbours otherwise.
pub open spec fn spec_joined(items: Seq<Seq<char>>, sep: Seq<char>) -> Seq<char>
    decreases items.len(),
{
    if items.len() == 0 {
        Seq::empty()
    } else if items.len() == 1 {
        items[0]
    } else {
        spec_joined(items.drop_last(), sep) + sep + items.last()
    }
}

/// A run of items to speak joined by a separator, with an optional
/// alternative text for the case of no items at all.
pub struct SayJoined {
    pub items: Vec<String>,
    pub separator: String,
    pub alternative: Option<String>,
}

impl SayJoined {
    pub fn of(items: Vec<String>, separator: &str) -> (r: SayJoined)
        ensures
            r.items == items,
            r.separator@ == separator@,
            r.alternative is None,
    {
        SayJoined { items, separator: separator.to_string(), alternative: None }
    }

    /// The same run, with a text to show when it is empty.
    pub fn with_alternative(self, alternative: &str) -> (r: SayJoined)
        ensures
            r.items == self.items,
            r.separator == self.separator,
            r.alternative matches Some(a) && a@ == alternative@,
    {
        SayJoined {
            items: self.items,
            separator: self.separator,
            alternative: Some(alternative.to_string()),
        }
    }

    /// The joined text: the items with separators between them, or the
    /// alternative (or nothing) when there are no items.
    pub fn render(&self) -> (r: String)
        ensures
            self.items@.len() == 0 ==> (match self.alternative {
                Some(a) => r@ == a@,
                None => r@ == Seq::<char>::empty(),
            }),
            self.items@.len() > 0 ==> r@ == spec_joined(strings_view(self.items@), self.separator@),
    {
        if self.items.len() == 0 {
            return match &self.alternative {
                Some(a) => a.clone(),
                None => String::new(),
            };
        }
        let mut out = String::new();
        let n = self.items.len();
        let mut i: usize = 0;
        while i < n
            invariant
                0 < n == self.items@.len(),
                i <= n,
                i == 0 ==> out@ == Seq::<char>::empty(),
                i > 0 ==> out@ == spec_joined(
                    strings_view(self.items@.take(i as int)),
                    self.separator@,
                ),
        decreases n - i,
        {
            if i > 0 {
                out.append(self.separator.as_str());
            }
            out.append(self.items[i].as_str());
            proof {
                let taken = strings_view(self.items@.take(i + 1));
                assert(taken.len() == i + 1);
                assert(taken.last() == self.items@[i as int]@);
                if i > 0 {
                    assert(taken.drop_last() =~= strings_view(self.items@.take(i as int)));
                } else {
                    assert(taken[0] == self.items@[0]@);
                }
            }
            i = i + 1;
        }
        proof {
            assert(self.items@.take(n as int) =~= self.items@);
        }
        out
    }
}

/// The mention token of a user id, as the chat platform links it.
pub open spec fn spec_mention(id: int) -> Seq<char> {
    seq!['<', '@'] + spec_dec_u64(id) + seq!['>']
}

/// Render one user mention.
pub fn mention(id: UserId) -> (r: String)
    ensures
        r@ == spec_mention(id as int),
{
    let mut out = "<@".to_string();
    out.append(dec_u64(id).as_str());
    out.append(">");
    proof {
        reveal_strlit("<@");
        reveal_strlit(">");
        assert("<@"@ =~= seq!['<', '@']);
        assert(">"@ =~= seq!['>']);
    }
    out
}

/// Render mentions for each user in turn, separated by spaces.
pub fn say_mentions(ids: &Vec<UserId>) -> (r: String)
    ensures
        ids@.len() > 0 ==> r@ == spec_joined(
            ids@.map_values(|id: UserId| spec_mention(id as int)),
            seq![' '],
        ),
        ids@.len() == 0 ==> r@ == Seq::<char>::empty(),
{
    let ghost mentions = ids@.map_values(|id: UserId| spec_mention(id as int));
    let mut out = String::new();
    let n = ids.len();
    let mut i: usize = 0;
    while i < n
        invariant
            n == ids@.len(),
            i <= n,
            mentions == ids@.map_values(|id: UserId| spec_mention(id as int)),
            i == 0 ==> out@ == Seq::<char>::empty(),
            i > 0 ==> out@ == spec_joined(mentions.take(i as int), seq![' ']),
        decreases n - i,
    {
        if i > 0 {
            let sp = " ".to_string();
            proof {
                reveal_strlit(" ");
                assert(sp@ =~= seq![' ']);
            }
            out.append(sp.as_str());
        }
        out.append(mention(ids[i]).as_str());
        proof {
            let taken = mentions.take(i + 1);
            assert(taken.len() == i + 1);
            assert(taken.last() == spec_mention(ids@[i as int] as int));
            if i > 0 {
                assert(taken.drop_last() =~= mentions.take(i as int));
            } else {
                assert(taken[0] == spec_mention(ids@[0] as int));
            }
        }
        i = i + 1;
    }
    proof {
        if n > 0 {
            assert(mentions.take(n as int) =~= mentions);
        }
    }
    out
}

/// The remaining-time phrase of a duration, to the minute: whole hours
/// when there are any, then leftover minutes unless they are zero and an
/// hour part was said.
pub fn say_duration(seconds: u64) -> String {
    let hours = seconds / 3600;
    let minutes = (seconds / 60) % 60;
    let mut out = String::new();
    if hours != 0 {
        out.append(dec_u64(hours).as_str());
        out.append("時間");
    }
    if minutes != 0 || hours == 0 {
        out.append(dec_u64(minutes).as_str());
        out.append("分");
    }
    out
}

impl Say for KaisaneeSpecifier {
    fn say(&self) -> String {
        match self {
            KaisaneeSpecifier::Me => "あなた".to_string(),
            KaisaneeSpecifier::All => "全員".to_string(),
            KaisaneeSpecifier::Users(ids) => say_mentions(ids),
        }
    }
}

impl Say for Reminder {
    fn say(&self) -> String {
        let mut out = say_duration(self.before_duration());
        out.append("前");
        out
    }
}

impl Say for ZoneId {
    fn say(&self) -> String {
        self.name().to_string()
    }
}

impl Say for bool {
    fn say(&self) -> String {
        if *self {
            "はい".to_string()
        } else {
            "いいえ".to_string()
        }
    }
}

} // verus!
