//! What counts as a well-formed target URL, and the check for it.
//!
//! A target is accepted when it consists of visible ASCII characters only and
//! has the shape `scheme://host...`: a scheme that starts with a letter and
//! goes on with letters, digits, `+`, `-` or `.`, then `://`, then a host that
//! starts with a letter, a digit or `[`.

use crate::domain::Url;
use vstd::prelude::*;

verus! {

/// An ASCII letter.
pub open spec fn is_letter(c: char) -> bool {
    ('a' <= c && c <= 'z') || ('A' <= c && c <= 'Z')
}

/// An ASCII digit.
pub open spec fn is_digit(c: char) -> bool {
    '0' <= c && c <= '9'
}

/// A character that may stand in a scheme.
pub open spec fn is_scheme_char(c: char) -> bool {
    is_letter(c) || is_digit(c) || c == '+' || c == '-' || c == '.'
}

/// A character that may open a host: a letter or digit of a name or an
/// address, or the bracket of an address literal.
pub open spec fn is_host_start(c: char) -> bool {
    is_letter(c) || is_digit(c) || c == '['
}

/// A printable ASCII character other than the space.
pub open spec fn is_visible(c: char) -> bool {
    '!' <= c && c <= '~'
}

/// A scheme: a letter, then scheme characters.
pub open spec fn is_scheme(text: Seq<char>) -> bool {
    &&& text.len() > 0
    &&& is_letter(text[0])
    &&& forall|i: int| 0 <= i < text.len() ==> is_scheme_char(#[trigger] text[i])
}

/// `text` reads as a scheme of `colon` characters, then `://`, then the
/// first character of a host.
pub open spec fn splits_at(text: Seq<char>, colon: int) -> bool {
    &&& 0 < colon
    &&& colon + 3 < text.len()
    &&& is_scheme(text.take(colon))
    &&& text[colon] == ':'
    &&& text[colon + 1] == '/'
    &&& text[colon + 2] == '/'
    &&& is_host_start(text[colon + 3])
}

/// The well-formed targets.
pub open spec fn is_well_formed_url(text: Seq<char>) -> bool {
    &&& forall|i: int| 0 <= i < text.len() ==> is_visible(#[trigger] text[i])
    &&& exists|colon: int| splits_at(text, colon)
}

fn letter(byte: u8) -> (yes: bool)
    ensures
        yes == is_letter(byte as char),
{
    (0x61 <= byte && byte <= 0x7a) || (0x41 <= byte && byte <= 0x5a)
}

fn digit(byte: u8) -> (yes: bool)
    ensures
        yes == is_digit(byte as char),
{
    0x30 <= byte && byte <= 0x39
}

fn scheme_char(byte: u8) -> (yes: bool)
    ensures
        yes == is_scheme_char(byte as char),
{
    letter(byte) || digit(byte) || byte == 0x2b || byte == 0x2d || byte == 0x2e
}

fn host_start(byte: u8) -> (yes: bool)
    ensures
        yes == is_host_start(byte as char),
{
    letter(byte) || digit(byte) || byte == 0x5b
}

fn visible(byte: u8) -> (yes: bool)
    ensures
        yes == is_visible(byte as char),
{
    0x21 <= byte && byte <= 0x7e
}

impl Url {
    /// Whether this target is well-formed.
    pub fn is_well_formed(&self) -> (ok: bool)
        ensures
            ok == is_well_formed_url(self@),
    {
        let text = self.0.as_str();
        if !text.is_ascii() {
            return false;
        }
        let bytes = text.as_bytes();
        let len: usize = bytes.len();
        let mut seen: usize = 0;
        while seen < len
            invariant
                seen <= len,
                len == bytes@.len(),
                len == self@.len(),
                forall|i: int| 0 <= i < len ==> bytes@[i] as char == #[trigger] self@[i],
                forall|i: int| 0 <= i < seen ==> is_visible(#[trigger] self@[i]),
            decreases len - seen,
        {
            if !visible(bytes[seen]) {
                assert(!is_visible(self@[seen as int]));
                return false;
            }
            seen += 1;
        }

        if len == 0 || !letter(bytes[0]) {
            return false;
        }
        let mut colon: usize = 1;
        while colon < len && scheme_char(bytes[colon])
            invariant
                1 <= colon <= len,
                len == bytes@.len(),
                len == self@.len(),
                forall|i: int| 0 <= i < len ==> bytes@[i] as char == #[trigger] self@[i],
                forall|i: int| 0 < i < colon ==> is_scheme_char(#[trigger] self@[i]),
            decreases len - colon,
        {
            colon += 1;
        }
        // A scheme ends where the first character that cannot stand in one
        // begins, so no other place can hold the colon.
        assert forall|other: int| other != colon implies !splits_at(self@, other) by {
            if splits_at(self@, other) && other > colon {
                assert(self@.take(other)[colon as int] == self@[colon as int]);
            }
        }
        if len - colon <= 3 {
            return false;
        }
        let ok = bytes[colon] == 0x3a && bytes[colon + 1] == 0x2f && bytes[colon + 2] == 0x2f
            && host_start(bytes[colon + 3]);
        assert(ok ==> splits_at(self@, colon as int));
        ok
    }
}

} // verus!
