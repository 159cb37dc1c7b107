//! The checks that the settings form makes on what the user types.

use vstd::prelude::*;
use vstd::string::*;
use vstd::std_specs::iter::IteratorSpec;
use vstd::utf8::*;

verus! {

broadcast use vstd::string::group_string_axioms;

/// Whether a text begins with another.
pub open spec fn begins_with(text: Seq<char>, prefix: Seq<char>) -> bool {
    prefix.len() <= text.len() && text.take(prefix.len() as int) == prefix
}

/// Whether a text begins with another.
pub fn starts_with(text: &str, prefix: &str) -> (res: bool)
    ensures
        res == begins_with(text@, prefix@),
{
    let mut chars = text.chars();
    let mut wanted = prefix.chars();
    let ghost mut seen: int = 0;
    loop
        invariant
            0 <= seen <= text@.len(),
            seen <= prefix@.len(),
            chars.remaining() == text@.skip(seen),
            wanted.remaining() == prefix@.skip(seen),
            text@.take(seen) == prefix@.take(seen),
        decreases prefix@.len() - seen,
    {
        match wanted.next() {
            None => {
                assert(prefix@.take(seen) =~= prefix@);
                return true;
            },
            Some(w) => {
                assert(w == prefix@[seen]);
                match chars.next() {
                    None => {
                        return false;
                    },
                    Some(c) => {
                        assert(c == text@[seen]);
                        if c != w {
                            assert(prefix@.len() <= text@.len() ==> text@.take(
                                prefix@.len() as int,
                            )[seen] == c);
                            return false;
                        }
                        proof {
                            assert(text@.skip(seen).drop_first() =~= text@.skip(seen + 1));
                            assert(prefix@.skip(seen).drop_first() =~= prefix@.skip(seen + 1));
                            assert(text@.take(seen + 1) =~= text@.take(seen).push(c));
                            assert(prefix@.take(seen + 1) =~= prefix@.take(seen).push(w));
                            seen = seen + 1;
                        }
                    },
                }
            },
        }
    }
}

/// Whether a character is a hexadecimal digit of ASCII.
pub open spec fn hex_digit(c: char) -> bool {
    ('0' <= c <= '9') || ('a' <= c <= 'f') || ('A' <= c <= 'F')
}

/// Whether a character is a hexadecimal digit of ASCII.
pub fn is_hex_digit(c: char) -> (res: bool)
    ensures
        res == hex_digit(c),
{
    ('0' <= c && c <= '9') || ('a' <= c && c <= 'f') || ('A' <= c && c <= 'F')
}

/// Whether every character of a text is a hexadecimal digit.
pub open spec fn all_hex(text: Seq<char>) -> bool {
    forall|i: int| 0 <= i < text.len() ==> hex_digit(#[trigger] text[i])
}

/// Whether every character of a text is a hexadecimal digit.
pub fn is_all_hex(text: &str) -> (res: bool)
    ensures
        res == all_hex(text@),
{
    let mut chars = text.chars();
    let ghost mut seen: int = 0;
    loop
        invariant
            0 <= seen <= text@.len(),
            chars.remaining() == text@.skip(seen),
            forall|i: int| 0 <= i < seen ==> hex_digit(#[trigger] text@[i]),
        decreases text@.len() - seen,
    {
        match chars.next() {
            Some(c) => {
                assert(c == text@[seen]);
                if !is_hex_digit(c) {
                    return false;
                }
                proof {
                    assert(text@.skip(seen).drop_first() =~= text@.skip(seen + 1));
                    seen = seen + 1;
                }
            },
            None => {
                return true;
            },
        }
    }
}

/// Whether a text holds a character.
pub fn has_char(text: &str, wanted: char) -> (res: bool)
    ensures
        res == text@.contains(wanted),
{
    let mut chars = text.chars();
    let ghost mut seen: int = 0;
    loop
        invariant
            0 <= seen <= text@.len(),
            chars.remaining() == text@.skip(seen),
            forall|i: int| 0 <= i < seen ==> text@[i] != wanted,
        decreases text@.len() - seen,
    {
        match chars.next() {
            Some(c) => {
                assert(c == text@[seen]);
                if c == wanted {
                    return true;
                }
                proof {
                    assert(text@.skip(seen).drop_first() =~= text@.skip(seen + 1));
                    seen = seen + 1;
                }
            },
            None => {
                return false;
            },
        }
    }
}

/// Whether an instance's address is acceptable: it begins with `https://`
/// and goes on after it.
pub open spec fn valid_url(url: Seq<char>) -> bool {
    begins_with(url, "https://"@) && encode_utf8(url).len() > 8
}

/// Whether an instance's address is acceptable.
pub fn validate_url(url: &str) -> (res: bool)
    ensures
        res == valid_url(url@),
{
    starts_with(url, "https://") && url.as_bytes().len() > 8
}

/// Whether a handle is acceptable: it is not empty and holds a dot.
pub open spec fn valid_handle(handle: Seq<char>) -> bool {
    handle.len() > 0 && handle.contains('.')
}

/// Whether a handle is acceptable.
pub fn validate_handle(handle: &str) -> (res: bool)
    ensures
        res == valid_handle(handle@),
{
    !handle.is_empty() && has_char(handle, '.')
}

/// Whether a signing key is acceptable: sixty-four hexadecimal digits.
pub open spec fn valid_private_key(key: Seq<char>) -> bool {
    encode_utf8(key).len() == 64 && all_hex(key)
}

/// Whether a signing key is acceptable.
pub fn validate_private_key(key: &str) -> (res: bool)
    ensures
        res == valid_private_key(key@),
{
    key.as_bytes().len() == 64 && is_all_hex(key)
}

/// Whether a relay's address is acceptable: it begins with `wss://` and goes
/// on after it.
pub open spec fn valid_relay_url(url: Seq<char>) -> bool {
    begins_with(url, "wss://"@) && encode_utf8(url).len() > 6
}

/// Whether a relay's address is acceptable.
pub fn validate_relay_url(url: &str) -> (res: bool)
    ensures
        res == valid_relay_url(url@),
{
    starts_with(url, "wss://") && url.as_bytes().len() > 6
}

} // verus!
