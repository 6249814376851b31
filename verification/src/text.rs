//! The text operations of the standard library that the probe and the stores
//! build on, each with the contract that the rest of the crate relies on.

use vstd::prelude::*;
use vstd::string::*;
use vstd::utf8::*;

verus! {

/// Whether `c` has Unicode's White_Space property, which is what
/// `char::is_whitespace` tests: the ASCII controls from tab to carriage
/// return, the space, and the line, paragraph and width spaces beyond ASCII.
pub open spec fn is_white_space(c: char) -> bool {
    let code = c as u32;
    ||| 0x0009 <= code <= 0x000D
    ||| code == 0x0020
    ||| code == 0x0085
    ||| code == 0x00A0
    ||| code == 0x1680
    ||| 0x2000 <= code <= 0x200A
    ||| code == 0x2028
    ||| code == 0x2029
    ||| code == 0x202F
    ||| code == 0x205F
    ||| code == 0x3000
}

/// `text` without the white space that it begins with.
pub open spec fn trimmed_start(text: Seq<char>) -> Seq<char>
    decreases text.len(),
{
    if text.len() > 0 && is_white_space(text[0]) {
        trimmed_start(text.subrange(1, text.len() as int))
    } else {
        text
    }
}

/// `text` without the white space that it ends with.
pub open spec fn trimmed_end(text: Seq<char>) -> Seq<char>
    decreases text.len(),
{
    if text.len() > 0 && is_white_space(text.last()) {
        trimmed_end(text.drop_last())
    } else {
        text
    }
}

/// `text` without its leading and trailing white space: what stands from
/// its first to its last character that is not white space.
pub open spec fn trimmed(text: Seq<char>) -> Seq<char> {
    trimmed_end(trimmed_start(text))
}

/// The text that `str::to_lowercase` returns for `text`: its lowercase
/// equivalent by the Unicode rules, which may differ in length.
pub uninterp spec fn lowercased(text: Seq<char>) -> Seq<char>;

/// `text` with every occurrence of the character `from` replaced by the text
/// `to`.
pub open spec fn replaced(text: Seq<char>, from: char, to: Seq<char>) -> Seq<char>
    decreases text.len(),
{
    if text.len() == 0 {
        text
    } else if text.last() == from {
        replaced(text.drop_last(), from, to) + to
    } else {
        replaced(text.drop_last(), from, to).push(text.last())
    }
}

/// The text of an optional string.
pub open spec fn text_of(text: Option<String>) -> Option<Seq<char>> {
    match text {
        Some(text) => Some(text@),
        None => None,
    }
}

/// The lowercase form of an ASCII capital letter's byte; any other byte is
/// left as it is.
pub open spec fn ascii_lowered(byte: u8) -> u8 {
    if 65 <= byte <= 90 {
        (byte + 32) as u8
    } else {
        byte
    }
}

/// Whether two texts, given as their UTF-8 bytes, are equal once the ASCII
/// capital letters of both are lowered.
pub open spec fn same_ignoring_ascii_case(a: Seq<u8>, b: Seq<u8>) -> bool {
    a.map_values(|byte: u8| ascii_lowered(byte)) == b.map_values(|byte: u8| ascii_lowered(byte))
}

/// `str::trim`. Trusted: the result is the text without its leading and
/// trailing characters of Unicode's White_Space property.
#[verifier::external_body]
pub(crate) fn trim(text: &str) -> (out: &str)
    ensures
        out@ == trimmed(text@),
{
    text.trim()
}

/// `str::to_lowercase`. Trusted: the result is the text named `lowercased`.
#[verifier::external_body]
pub(crate) fn to_lowercase(text: &str) -> (out: String)
    ensures
        out@ == lowercased(text@),
{
    text.to_lowercase()
}

/// `str::replace` with a character as the pattern. Trusted: every occurrence
/// of `from` is replaced by `to` and nothing else changes.
#[verifier::external_body]
pub(crate) fn replace(text: &str, from: char, to: &str) -> (out: String)
    ensures
        out@ == replaced(text@, from, to@),
{
    text.replace(from, to)
}

/// `str::eq_ignore_ascii_case`. Trusted: the two texts are compared byte by
/// byte with the ASCII capital letters lowered.
#[verifier::external_body]
pub(crate) fn eq_ignore_ascii_case(a: &str, b: &str) -> (same: bool)
    ensures
        same == same_ignoring_ascii_case(a.spec_bytes(), b.spec_bytes()),
{
    a.eq_ignore_ascii_case(b)
}

/// `core::str::from_utf8`. Trusted: it succeeds exactly on valid UTF-8, and
/// the text it returns is made of the very bytes it was given.
#[verifier::external_body]
pub(crate) fn utf8_text(bytes: &[u8]) -> (text: Option<&str>)
    ensures
        text is Some <==> valid_utf8(bytes@),
        text matches Some(t) ==> t.spec_bytes() == bytes@,
{
    match core::str::from_utf8(bytes) {
        Ok(text) => Some(text),
        Err(_) => None,
    }
}

} // verus!
