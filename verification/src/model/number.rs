//! The numeral sub-grammar: ASCII digit runs and kanji numerals, plus the
//! character-level scanning primitives the command grammar is built on.
//! Each parsing function consumes from a fixed position in a character
//! vector and returns the parsed value with the next position.

use vstd::prelude::*;
use vstd::string::StrSliceExecFns;

verus! {

/// The characters of a string, for index-based scanning.
pub fn to_chars(s: &str) -> (r: Vec<char>)
    ensures
        r@ == s@,
{
    let n = s.unicode_len();
    let mut v: Vec<char> = Vec::new();
    let mut i: usize = 0;
    while i < n
        invariant
            i <= n,
            n == s@.len(),
            v@ == s@.subrange(0, i as int),
        decreases n - i,
    {
        v.push(s.get_char(i));
        i = i + 1;
        assert(v@ =~= s@.subrange(0, i as int));
    }
    assert(v@ =~= s@);
    v
}

/// Whether the characters of `lit` stand at `pos` in `s`.
pub open spec fn lit_at(s: Seq<char>, pos: int, lit: Seq<char>) -> bool {
    pos + lit.len() <= s.len() && s.subrange(pos, pos + lit.len()) == lit
}

/// Match a literal at `pos`: `Some` exactly when the characters of `lit`
/// stand there, returning the position just past them.
pub fn eat_lit(s: &Vec<char>, pos: usize, lit: &str) -> (r: Option<usize>)
    requires
        pos <= s@.len(),
    ensures
        r matches Some(p) ==> p == pos + lit@.len() && p <= s@.len() && lit_at(
            s@,
            pos as int,
            lit@,
        ),
        r is None ==> !lit_at(s@, pos as int, lit@),
{
    let m = lit.unicode_len();
    let n = s.len();
    if m > n - pos {
        return None;
    }
    let mut i: usize = 0;
    while i < m
        invariant
            i <= m,
            m == lit@.len(),
            n == s@.len(),
            pos + m <= n,
            forall|k: int| 0 <= k < i ==> s@[pos + k] == lit@[k],
        decreases m - i,
    {
        if s[pos + i] != lit.get_char(i) {
            proof {
                assert(s@.subrange(pos as int, pos + m)[i as int] != lit@[i as int]);
            }
            return None;
        }
        i = i + 1;
    }
    proof {
        assert(s@.subrange(pos as int, pos + m) =~= lit@);
    }
    Some(pos + m)
}

/// The first position at or after `pos` that holds no space.
pub open spec fn ws_end(s: Seq<char>, pos: int) -> int
    decreases s.len() - pos,
    when 0 <= pos <= s.len()
{
    if pos < s.len() && s[pos] == ' ' {
        ws_end(s, pos + 1)
    } else {
        pos
    }
}

pub proof fn lemma_ws_end_bounds(s: Seq<char>, pos: int)
    requires
        0 <= pos <= s.len(),
    ensures
        pos <= ws_end(s, pos) <= s.len(),
    decreases s.len() - pos,
{
    if pos < s.len() && s[pos] == ' ' {
        lemma_ws_end_bounds(s, pos + 1);
    }
}

/// Skip spaces, returning the first position that holds none.
pub fn ws(s: &Vec<char>, pos: usize) -> (r: usize)
    requires
        pos <= s@.len(),
    ensures
        pos <= r <= s@.len(),
        r == ws_end(s@, pos as int),
        r < s@.len() ==> s@[r as int] != ' ',
{
    let n = s.len();
    let mut p: usize = pos;
    while p < n && s[p] == ' '
        invariant
            n == s@.len(),
            pos <= p <= n,
            ws_end(s@, pos as int) == ws_end(s@, p as int),
        decreases n - p,
    {
        p = p + 1;
    }
    p
}

/// Relies on std's `FromIterator` for `String`: collecting characters
/// yields the string of exactly those characters.
#[verifier::external_body]
pub fn string_from_chars(s: &Vec<char>, from: usize, to: usize) -> (r: String)
    requires
        from <= to <= s@.len(),
    ensures
        r@ == s@.subrange(from as int, to as int),
{
    s[from..to].iter().collect()
}

pub open spec fn is_digit_char(c: char) -> bool {
    48 <= c as u32 <= 57
}

pub open spec fn digit_char_val(c: char) -> int {
    c as u32 - 48
}

/// Whether a digit stands at `pos`.
fn digit_at(s: &Vec<char>, pos: usize) -> (r: bool)
    requires
        pos <= s@.len(),
    ensures
        r == (pos < s@.len() && is_digit_char(s@[pos as int])),
{
    if pos < s.len() {
        let c = s[pos];
        (c as u32) >= 48 && (c as u32) <= 57
    } else {
        false
    }
}

/// The number denoted by a run of ASCII digits, most significant first.
pub open spec fn digits_val(s: Seq<char>) -> int
    decreases s.len(),
{
    if s.len() == 0 {
        0
    } else {
        digits_val(s.drop_last()) * 10 + digit_char_val(s.last())
    }
}

/// Where a greedy run of at most `maxd` digits starting at `pos` ends.
pub open spec fn digit_run_end(s: Seq<char>, pos: int, maxd: int) -> int
    decreases maxd,
{
    if 0 <= pos < s.len() && is_digit_char(s[pos]) && maxd > 0 {
        digit_run_end(s, pos + 1, maxd - 1)
    } else {
        pos
    }
}

pub proof fn lemma_digit_run_end_bounds(s: Seq<char>, pos: int, maxd: int)
    requires
        0 <= pos <= s.len(),
        0 <= maxd,
    ensures
        pos <= digit_run_end(s, pos, maxd) <= s.len(),
        digit_run_end(s, pos, maxd) - pos <= maxd,
        forall|i: int| pos <= i < digit_run_end(s, pos, maxd) ==> is_digit_char(#[trigger] s[i]),
    decreases maxd,
{
    if 0 <= pos < s.len() && is_digit_char(s[pos]) && maxd > 0 {
        lemma_digit_run_end_bounds(s, pos + 1, maxd - 1);
    }
}

spec fn pow10(n: int) -> int
    decreases n,
{
    if n <= 0 {
        1
    } else {
        10 * pow10(n - 1)
    }
}

/// Parse a greedy run of 1 to `maxd` ASCII digits as a `u8`, rejecting
/// values above 255 as the grammar does.
pub fn parse_u8_digits(s: &Vec<char>, pos: usize, maxd: usize) -> (r: Option<(u8, usize)>)
    requires
        pos <= s@.len(),
        1 <= maxd <= 3,
    ensures
        ({
            let e = digit_run_end(s@, pos as int, maxd as int);
            match r {
                Some((v, p)) => {
                    &&& pos < p <= s@.len()
                    &&& p == e
                    &&& digits_val(s@.subrange(pos as int, e)) <= 255
                    &&& v == digits_val(s@.subrange(pos as int, e))
                },
                None => e == pos || digits_val(s@.subrange(pos as int, e)) > 255,
            }
        }),
{
    proof {
        lemma_digit_run_end_bounds(s@, pos as int, maxd as int);
    }
    let ghost e = digit_run_end(s@, pos as int, maxd as int);
    let n = s.len();
    let mut p: usize = pos;
    let mut acc: u32 = 0;
    while p - pos < maxd && digit_at(s, p)
        invariant
            n == s@.len(),
            pos <= p <= s@.len(),
            p - pos <= maxd,
            maxd <= 3,
            e == digit_run_end(s@, pos as int, maxd as int),
            digit_run_end(s@, p as int, maxd - (p - pos)) == e,
            acc == digits_val(s@.subrange(pos as int, p as int)),
            acc < pow10(p - pos),
        decreases s@.len() - p,
    {
        let c = s[p];
        assert(is_digit_char(s@[p as int]));
        assert(p < n);
        proof {
            assert(s@.subrange(pos as int, p + 1).drop_last() =~= s@.subrange(
                pos as int,
                p as int,
            ));
            reveal_with_fuel(pow10, 5);
        }
        acc = acc * 10 + (c as u32 - 48);
        p = p + 1;
    }
    proof {
        reveal_with_fuel(pow10, 5);
    }
    assert(digit_run_end(s@, p as int, maxd - (p - pos)) == p);
    if p == pos {
        None
    } else if acc > 255 {
        None
    } else {
        Some((acc as u8, p))
    }
}

/// Parse a greedy run of ASCII digits as a `u64`, rejecting runs whose
/// value does not fit.
pub fn parse_u64_digits(s: &Vec<char>, pos: usize) -> (r: Option<(u64, usize)>)
    requires
        pos <= s@.len(),
    ensures
        ({
            let e = digit_run_end(s@, pos as int, s@.len() - pos);
            match r {
                Some((v, p)) => {
                    &&& pos < p <= s@.len()
                    &&& p == e
                    &&& v == digits_val(s@.subrange(pos as int, e))
                },
                None => e == pos || digits_val(s@.subrange(pos as int, e)) > u64::MAX,
            }
        }),
{
    proof {
        lemma_digit_run_end_bounds(s@, pos as int, s@.len() - pos);
    }
    let ghost e = digit_run_end(s@, pos as int, s@.len() - pos as int);
    let n = s.len();
    let mut p: usize = pos;
    let mut acc: u64 = 0;
    while digit_at(s, p)
        invariant
            n == s@.len(),
            pos <= p <= s@.len(),
            e == digit_run_end(s@, pos as int, s@.len() - pos),
            digit_run_end(s@, p as int, s@.len() - p) == e,
            forall|k: int| pos <= k < e ==> is_digit_char(#[trigger] s@[k]),
            acc == digits_val(s@.subrange(pos as int, p as int)),
            acc >= 0,
        decreases s@.len() - p,
    {
        let c = s[p];
        assert(is_digit_char(s@[p as int]));
        assert(p < n);
        let d: u64 = (c as u32 - 48) as u64;
        proof {
            assert(s@.subrange(pos as int, p + 1).drop_last() =~= s@.subrange(
                pos as int,
                p as int,
            ));
            assert(digit_run_end(s@, p as int, s@.len() - p) == digit_run_end(
                s@,
                p + 1,
                s@.len() - p - 1,
            ));
            lemma_digit_run_end_bounds(s@, p + 1, s@.len() - p - 1);
        }
        if acc > (u64::MAX - d) / 10 {
            proof {
                assert(acc * 10 + d > u64::MAX) by (nonlinear_arith)
                    requires
                        acc > (u64::MAX - d) / 10,
                        0 <= d <= 9,
                ;
                assert(digits_val(s@.subrange(pos as int, p + 1)) == acc * 10 + d);
                lemma_digits_val_grows(s@, pos as int, p + 1, e);
            }
            return None;
        }
        acc = acc * 10 + d;
        p = p + 1;
    }
    assert(digit_run_end(s@, p as int, s@.len() - p) == p);
    if p == pos {
        None
    } else {
        Some((acc, p))
    }
}

/// Along a run of digits the denoted value never shrinks as the run
/// grows.
proof fn lemma_digits_val_grows(s: Seq<char>, pos: int, i: int, j: int)
    requires
        0 <= pos <= i <= j <= s.len(),
        forall|k: int| pos <= k < j ==> is_digit_char(#[trigger] s[k]),
        digits_val(s.subrange(pos, i)) >= 0,
    ensures
        digits_val(s.subrange(pos, j)) >= digits_val(s.subrange(pos, i)),
    decreases j - i,
{
    if i < j {
        assert(s.subrange(pos, i + 1).drop_last() =~= s.subrange(pos, i));
        assert(is_digit_char(s[i]));
        assert(digits_val(s.subrange(pos, i + 1)) == digits_val(s.subrange(pos, i)) * 10
            + digit_char_val(s[i]));
        assert(digits_val(s.subrange(pos, i + 1)) >= digits_val(s.subrange(pos, i)))
            by (nonlinear_arith)
            requires
                digits_val(s.subrange(pos, i)) >= 0,
                digit_char_val(s[i]) >= 0,
                digits_val(s.subrange(pos, i + 1)) == digits_val(s.subrange(pos, i)) * 10
                    + digit_char_val(s[i]),
        ;
        lemma_digits_val_grows(s, pos, i + 1, j);
    }
}

/// The value of a single kanji digit glyph, if the character is one.
pub open spec fn kanji_digit_val(c: char) -> Option<int> {
    if c == '一' {
        Some(1int)
    } else if c == '二' {
        Some(2int)
    } else if c == '三' {
        Some(3int)
    } else if c == '四' {
        Some(4int)
    } else if c == '五' {
        Some(5int)
    } else if c == '六' {
        Some(6int)
    } else if c == '七' {
        Some(7int)
    } else if c == '八' {
        Some(8int)
    } else if c == '九' {
        Some(9int)
    } else {
        None
    }
}

/// A multiplier tail after a leading value `x`: a tens glyph with an
/// optional digit, or a hundreds glyph with an optional further kanji
/// number below one hundred. Values above 255 are rejected.
pub open spec fn spec_kanji_tail(s: Seq<char>, pos: int, x: int) -> Option<(int, int)>
    decreases s.len() - pos, 1int,
    when 0 <= pos <= s.len()
{
    if pos < s.len() && s[pos] == '十' {
        if pos + 1 < s.len() && kanji_digit_val(s[pos + 1]) is Some {
            Some((x * 10 + kanji_digit_val(s[pos + 1])->Some_0, pos + 2))
        } else {
            Some((x * 10, pos + 1))
        }
    } else if pos < s.len() && s[pos] == '百' {
        match spec_kanji_number(s, pos + 1) {
            Some((d, e)) => if d < 100 && x * 100 + d <= 255 {
                Some((x * 100 + d, e))
            } else {
                None
            },
            None => if x * 100 <= 255 {
                Some((x * 100, pos + 1))
            } else {
                None
            },
        }
    } else {
        None
    }
}

/// The kanji numeral grammar: a bare multiplier tail (a leading one is
/// implied), or a digit glyph with an optional multiplier tail.
pub open spec fn spec_kanji_number(s: Seq<char>, pos: int) -> Option<(int, int)>
    decreases s.len() - pos, 2int,
    when 0 <= pos <= s.len()
{
    if spec_kanji_tail(s, pos, 1) is Some {
        spec_kanji_tail(s, pos, 1)
    } else if pos < s.len() && kanji_digit_val(s[pos]) is Some {
        let x = kanji_digit_val(s[pos])->Some_0;
        if spec_kanji_tail(s, pos + 1, x) is Some {
            spec_kanji_tail(s, pos + 1, x)
        } else {
            Some((x, pos + 1))
        }
    } else {
        None
    }
}

/// Parse a single kanji digit glyph.
fn kanji_digit(s: &Vec<char>, pos: usize) -> (r: Option<(u8, usize)>)
    requires
        pos <= s@.len(),
    ensures
        match r {
            Some((v, p)) => pos < s@.len() && kanji_digit_val(s@[pos as int]) == Some(v as int)
                && p == pos + 1 && 1 <= v <= 9,
            None => pos == s@.len() || kanji_digit_val(s@[pos as int]) is None,
        },
{
    if pos >= s.len() {
        return None;
    }
    let c = s[pos];
    let v: u8 = match c {
        '一' => 1,
        '二' => 2,
        '三' => 3,
        '四' => 4,
        '五' => 5,
        '六' => 6,
        '七' => 7,
        '八' => 8,
        '九' => 9,
        _ => {
            return None;
        },
    };
    Some((v, pos + 1))
}

/// Parse a multiplier tail; mirrors `spec_kanji_tail`.
fn kanji_tail(s: &Vec<char>, pos: usize, x: u8) -> (r: Option<(u8, usize)>)
    requires
        pos <= s@.len(),
        1 <= x <= 9,
    ensures
        match r {
            Some((v, p)) => spec_kanji_tail(s@, pos as int, x as int) == Some((v as int, p as int))
                && pos < p <= s@.len(),
            None => spec_kanji_tail(s@, pos as int, x as int) is None,
        },
    decreases s@.len() - pos, 1int,
{
    if pos >= s.len() {
        return None;
    }
    let c = s[pos];
    if c == '十' {
        match kanji_digit(s, pos + 1) {
            Some((d, p)) => Some((x * 10 + d, p)),
            None => Some((x * 10, pos + 1)),
        }
    } else if c == '百' {
        match kanji_number(s, pos + 1) {
            Some((d, e)) => {
                if d < 100 && (x as u32) * 100 + (d as u32) <= 255 {
                    Some((x * 100 + d, e))
                } else {
                    None
                }
            },
            None => {
                if (x as u32) * 100 <= 255 {
                    Some((x * 100, pos + 1))
                } else {
                    None
                }
            },
        }
    } else {
        None
    }
}

/// Parse a kanji numeral; mirrors `spec_kanji_number`.
pub fn kanji_number(s: &Vec<char>, pos: usize) -> (r: Option<(u8, usize)>)
    requires
        pos <= s@.len(),
    ensures
        match r {
            Some((v, p)) => spec_kanji_number(s@, pos as int) == Some((v as int, p as int)) && pos
                < p <= s@.len(),
            None => spec_kanji_number(s@, pos as int) is None,
        },
    decreases s@.len() - pos, 2int,
{
    match kanji_tail(s, pos, 1) {
        Some(r) => Some(r),
        None => match kanji_digit(s, pos) {
            Some((x, p1)) => match kanji_tail(s, p1, x) {
                Some(r) => Some(r),
                None => Some((x, p1)),
            },
            None => None,
        },
    }
}

/// A number as the grammar accepts it: a run of one to three ASCII
/// digits, or a kanji numeral; either way a value in `[0, 255]`.
pub open spec fn spec_number(s: Seq<char>, pos: int) -> Option<(int, int)> {
    let e = digit_run_end(s, pos, 3);
    if e > pos && digits_val(s.subrange(pos, e)) <= 255 {
        Some((digits_val(s.subrange(pos, e)), e))
    } else if e > pos {
        None
    } else {
        spec_kanji_number(s, pos)
    }
}

/// Parse a number; mirrors `spec_number`.
pub fn parse_number(s: &Vec<char>, pos: usize) -> (r: Option<(u8, usize)>)
    requires
        pos <= s@.len(),
    ensures
        match r {
            Some((v, p)) => spec_number(s@, pos as int) == Some((v as int, p as int)) && pos < p
                <= s@.len() && v <= 255,
            None => spec_number(s@, pos as int) is None,
        },
{
    proof {
        lemma_digit_run_end_bounds(s@, pos as int, 3);
    }
    match parse_u8_digits(s, pos, 3) {
        Some((v, p)) => Some((v, p)),
        None => {
            if digit_at(s, pos) {
                None
            } else {
                kanji_number(s, pos)
            }
        },
    }
}

} // verus!
