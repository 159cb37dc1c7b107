//! Text handling by Unicode scalar value: blank tests, truncation, trimming
//! and decimal numbers.

use vstd::prelude::*;
use vstd::string::*;
use vstd::std_specs::iter::IteratorSpec;

verus! {

broadcast use vstd::string::group_string_axioms;

/// Whether a character is white space as Unicode defines it.
pub open spec fn white_space(c: char) -> bool {
    let n = c as u32;
    ||| 0x09 <= n <= 0x0D
    ||| n == 0x20
    ||| n == 0x85
    ||| n == 0xA0
    ||| n == 0x1680
    ||| 0x2000 <= n <= 0x200A
    ||| n == 0x2028
    ||| n == 0x2029
    ||| n == 0x202F
    ||| n == 0x205F
    ||| n == 0x3000
}

/// Whether a text holds nothing but white space.
pub open spec fn blank(text: Seq<char>) -> bool {
    forall|i: int| 0 <= i < text.len() ==> white_space(#[trigger] text[i])
}

/// Whether a character is white space as Unicode defines it.
pub fn is_white_space(c: char) -> (res: bool)
    ensures
        res == white_space(c),
{
    let n: u32 = c as u32;
    (0x09 <= n && n <= 0x0D) || n == 0x20 || n == 0x85 || n == 0xA0 || n == 0x1680 || (0x2000 <= n
        && n <= 0x200A) || n == 0x2028 || n == 0x2029 || n == 0x202F || n == 0x205F || n == 0x3000
}

/// Whether a text holds nothing but white space: what is left of it after
/// trimming is empty.
pub fn is_blank(text: &str) -> (res: bool)
    ensures
        res == blank(text@),
{
    let mut chars = text.chars();
    let ghost mut seen: int = 0;
    loop
        invariant
            0 <= seen <= text@.len(),
            chars.remaining() == text@.skip(seen),
            forall|i: int| 0 <= i < seen ==> white_space(#[trigger] text@[i]),
        decreases text@.len() - seen,
    {
        match chars.next() {
            Some(c) => {
                assert(c == text@[seen]);
                if !is_white_space(c) {
                    return false;
                }
                proof {
                    assert(text@.skip(seen).drop_first() =~= text@.skip(seen + 1));
                    seen = seen + 1;
                }
            },
            None => {
                return true;
            },
        }
    }
}

/// The first `limit` characters of a text, or all of it where it has no more.
pub open spec fn truncated(text: Seq<char>, limit: nat) -> Seq<char> {
    if text.len() > limit {
        text.take(limit as int)
    } else {
        text
    }
}

/// Cuts a text down to its first `limit` characters, counted by Unicode
/// scalar value, so that no character is split.
pub fn truncate_chars(text: &str, limit: usize) -> (res: String)
    ensures
        res@ == truncated(text@, limit as nat),
        res@.len() == if text@.len() > limit {
            limit as nat
        } else {
            text@.len()
        },
{
    if text.unicode_len() > limit {
        text.substring_char(0, limit).to_owned()
    } else {
        text.to_owned()
    }
}

/// How many characters of a text are left when the slashes at its end are
/// taken off.
pub open spec fn slashless_len(text: Seq<char>) -> nat
    decreases text.len(),
{
    if text.len() > 0 && text.last() == '/' {
        slashless_len(text.drop_last())
    } else {
        text.len()
    }
}

/// A text without the slashes at its end.
pub open spec fn without_trailing_slashes(text: Seq<char>) -> Seq<char> {
    text.take(slashless_len(text) as int)
}

proof fn lemma_slashless_extend(text: Seq<char>, c: char)
    ensures
        slashless_len(text.push(c)) == if c == '/' {
            slashless_len(text)
        } else {
            text.len() + 1
        },
{
    assert(text.push(c).drop_last() =~= text);
    assert(text.push(c).last() == c);
}

/// Takes the slashes off the end of a text.
pub fn trim_trailing_slashes(text: &str) -> (res: String)
    ensures
        res@ == without_trailing_slashes(text@),
{
    let mut chars = text.chars();
    let mut keep: usize = 0;
    let mut seen: usize = 0;
    let total = text.unicode_len();
    loop
        invariant
            seen <= text@.len() == total,
            chars.remaining() == text@.skip(seen as int),
            keep == slashless_len(text@.take(seen as int)),
            keep <= seen,
        decreases text@.len() - seen,
    {
        match chars.next() {
            Some(c) => {
                proof {
                    assert(c == text@[seen as int]);
                    assert(text@.skip(seen as int).drop_first() =~= text@.skip(seen + 1));
                    assert(text@.take(seen + 1) =~= text@.take(seen as int).push(c));
                    lemma_slashless_extend(text@.take(seen as int), c);
                }
                seen += 1;
                if c != '/' {
                    keep = seen;
                }
            },
            None => {
                assert(text@.take(seen as int) =~= text@);
                return text.substring_char(0, keep).to_owned();
            },
        }
    }
}

/// The decimal digits of a number, the most significant first.
pub open spec fn decimal(n: nat) -> Seq<char>
    decreases n,
{
    if n < 10 {
        seq![digit(n)]
    } else {
        decimal(n / 10).push(digit(n % 10))
    }
}

/// The character of one decimal digit.
pub open spec fn digit(d: nat) -> char {
    if d == 0 {
        '0'
    } else if d == 1 {
        '1'
    } else if d == 2 {
        '2'
    } else if d == 3 {
        '3'
    } else if d == 4 {
        '4'
    } else if d == 5 {
        '5'
    } else if d == 6 {
        '6'
    } else if d == 7 {
        '7'
    } else if d == 8 {
        '8'
    } else {
        '9'
    }
}

fn digit_text(d: usize) -> (res: &'static str)
    requires
        d < 10,
    ensures
        res@ == seq![digit(d as nat)],
{
    proof {
        reveal_strlit("0");
        reveal_strlit("1");
        reveal_strlit("2");
        reveal_strlit("3");
        reveal_strlit("4");
        reveal_strlit("5");
        reveal_strlit("6");
        reveal_strlit("7");
        reveal_strlit("8");
        reveal_strlit("9");
    }
    let res = if d == 0 {
        "0"
    } else if d == 1 {
        "1"
    } else if d == 2 {
        "2"
    } else if d == 3 {
        "3"
    } else if d == 4 {
        "4"
    } else if d == 5 {
        "5"
    } else if d == 6 {
        "6"
    } else if d == 7 {
        "7"
    } else if d == 8 {
        "8"
    } else {
        "9"
    };
    assert(res@ =~= seq![digit(d as nat)]);
    res
}

/// Writes a number in decimal.
pub fn decimal_text(n: usize) -> (res: String)
    ensures
        res@ == decimal(n as nat),
    decreases n,
{
    if n < 10 {
        digit_text(n).to_owned()
    } else {
        let mut res = decimal_text(n / 10);
        res.append(digit_text(n % 10));
        res
    }
}

} // verus!
