//! Calls into outside crates and into standard-library functions that vstd
//! does not specify. Each item here is trusted: its contract is believed, not
//! proved.
use vstd::prelude::*;

use base64::Engine as _;

use crate::doubao::JsonReplyFields;
use crate::text::opt_view;

verus! {

/// The character of a 6-bit value in the standard base64 alphabet
/// (RFC 4648: `A`–`Z`, `a`–`z`, `0`–`9`, `+`, `/`).
pub open spec fn base64_char(v: int) -> char {
    if v < 26 {
        ((65 + v) as u32) as char
    } else if v < 52 {
        ((97 + v - 26) as u32) as char
    } else if v < 62 {
        ((48 + v - 52) as u32) as char
    } else if v == 62 {
        '+'
    } else {
        '/'
    }
}

/// The standard base64 encoding of `bytes` with `=` padding (RFC 4648,
/// section 4): each group of three bytes becomes four characters of six bits
/// each; a final group of one or two bytes is padded to four characters.
pub open spec fn base64_standard(bytes: Seq<u8>) -> Seq<char>
    decreases bytes.len(),
{
    if bytes.len() == 0 {
        Seq::empty()
    } else if bytes.len() == 1 {
        let b0 = bytes[0] as int;
        seq![base64_char(b0 / 4), base64_char((b0 % 4) * 16), '=', '=']
    } else if bytes.len() == 2 {
        let b0 = bytes[0] as int;
        let b1 = bytes[1] as int;
        seq![
            base64_char(b0 / 4),
            base64_char((b0 % 4) * 16 + b1 / 16),
            base64_char((b1 % 16) * 4),
            '=',
        ]
    } else {
        let b0 = bytes[0] as int;
        let b1 = bytes[1] as int;
        let b2 = bytes[2] as int;
        seq![
            base64_char(b0 / 4),
            base64_char((b0 % 4) * 16 + b1 / 16),
            base64_char((b1 % 16) * 4 + b2 / 64),
            base64_char(b2 % 64),
        ] + base64_standard(bytes.skip(3))
    }
}

/// Calls `base64::engine::general_purpose::STANDARD.encode`, which the
/// crate documents as the RFC 4648 standard alphabet with padding. The
/// contract claims exactly that encoding.
#[verifier::external_body]
pub(crate) fn base64_encode(bytes: &[u8]) -> (r: String)
    ensures
        r@ == base64_standard(bytes@),
{
    base64::engine::general_purpose::STANDARD.encode(bytes)
}

/// The string fields "action" and "text" of the JSON value that
/// `serde_json::from_str::<serde_json::Value>` reads from `json`: `None`
/// when the text is not valid JSON; otherwise, for each field, its text when
/// the field exists and holds a string.
pub uninterp spec fn json_reply_fields(json: Seq<char>) -> Option<(Option<Seq<char>>, Option<Seq<char>>)>;

/// Calls `serde_json::from_str::<serde_json::Value>` and reads the "action"
/// and "text" fields with `Value::as_str`. The contract claims that the
/// outcome is a function of the text alone; JSON syntax is not written out.
#[verifier::external_body]
pub(crate) fn parse_json_reply(json: &str) -> (r: Option<JsonReplyFields>)
    ensures
        match r {
            None => json_reply_fields(json@) is None,
            Some(f) => json_reply_fields(json@) == Some((opt_view(f.action), opt_view(f.text))),
        },
{
    let value: serde_json::Value = serde_json::from_str(json).ok()?;
    Some(
        JsonReplyFields {
            action: value["action"].as_str().map(|s| s.to_string()),
            text: value["text"].as_str().map(|s| s.to_string()),
        },
    )
}

/// The lowercase form of `s` as `str::to_lowercase` computes it from the
/// Unicode `Lowercase` mappings.
pub uninterp spec fn lowercase(s: Seq<char>) -> Seq<char>;

/// ASCII lowercase of `c`: `A`–`Z` become `a`–`z`, other characters stay.
pub open spec fn ascii_lowercase_char(c: char) -> char {
    if 'A' <= c && c <= 'Z' {
        ((c as u32) + 32) as char
    } else {
        c
    }
}

/// Whether every character of `s` is ASCII.
pub open spec fn all_ascii(s: Seq<char>) -> bool {
    forall|i: int| 0 <= i < s.len() ==> (#[trigger] s[i] as u32) < 128
}

/// Calls `str::to_lowercase`. The contract claims that the result is a
/// function of the text alone and, for ASCII text, that `A`–`Z` become
/// `a`–`z` and every other character stays; the Unicode case tables for
/// other characters are not written out.
#[verifier::external_body]
pub(crate) fn to_lowercase(s: &str) -> (r: String)
    ensures
        r@ == lowercase(s@),
        all_ascii(s@) ==> r@ == s@.map_values(|c: char| ascii_lowercase_char(c)),
{
    s.to_lowercase()
}

/// Whether `c` has the Unicode `Alphabetic` property, as `char::is_alphabetic`
/// decides it from the tables of the standard library.
pub uninterp spec fn char_is_alphabetic_spec(c: char) -> bool;

/// Calls `char::is_alphabetic`. The contract claims that the answer is a
/// function of the character and that among ASCII characters exactly the
/// letters `A`–`Z` and `a`–`z` are alphabetic; the Unicode `Alphabetic`
/// table for other characters is not written out.
#[verifier::external_body]
pub(crate) fn char_is_alphabetic(c: char) -> (r: bool)
    ensures
        r == char_is_alphabetic_spec(c),
        (c as u32) < 128 ==> (r <==> (('A' <= c && c <= 'Z') || ('a' <= c && c <= 'z'))),
{
    c.is_alphabetic()
}

/// Appends one character to a string (`String::push`).
#[verifier::external_body]
pub(crate) fn push_char(s: &mut String, c: char)
    ensures
        final(s)@ == old(s)@.push(c),
{
    s.push(c);
}

} // verus!
