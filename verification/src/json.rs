//! JSON text of a list of strings, as a channel's model list is stored.

use vstd::prelude::*;
use crate::auth::hex_digit;

verus! {

/// An error reported by `serde_json`.
#[verifier::external_type_specification]
#[verifier::external_body]
pub struct ExJsonError(serde_json::Error);

/// The JSON escape of one character: quote, backslash and control
/// characters are escaped, everything else stands for itself.
pub open spec fn json_escape_char(c: char) -> Seq<char> {
    if c == '"' {
        seq!['\\', '"']
    } else if c == '\\' {
        seq!['\\', '\\']
    } else if c == '\x08' {
        seq!['\\', 'b']
    } else if c == '\x0c' {
        seq!['\\', 'f']
    } else if c == '\n' {
        seq!['\\', 'n']
    } else if c == '\r' {
        seq!['\\', 'r']
    } else if c == '\t' {
        seq!['\\', 't']
    } else if (c as u32) < 0x20 {
        seq!['\\', 'u', '0', '0', hex_digit((c as u8) / 16), hex_digit((c as u8) % 16)]
    } else {
        seq![c]
    }
}

/// The JSON escape of every character of `s`.
pub open spec fn json_escape(s: Seq<char>) -> Seq<char>
    decreases s.len(),
{
    if s.len() == 0 {
        Seq::empty()
    } else {
        json_escape_char(s[0]) + json_escape(s.drop_first())
    }
}

/// A JSON string literal.
pub open spec fn json_quote(s: Seq<char>) -> Seq<char> {
    seq!['"'] + json_escape(s) + seq!['"']
}

/// The string literals of `items`, separated by commas.
pub open spec fn json_items(items: Seq<Seq<char>>) -> Seq<char>
    decreases items.len(),
{
    if items.len() == 0 {
        Seq::empty()
    } else if items.len() == 1 {
        json_quote(items[0])
    } else {
        json_items(items.drop_last()) + seq![','] + json_quote(items.last())
    }
}

/// Compact JSON text of an array of strings.
pub open spec fn json_string_array(items: Seq<Seq<char>>) -> Seq<char> {
    seq!['['] + json_items(items) + seq![']']
}

/// `serde_json::to_string` on a list of strings: the compact JSON array of
/// the strings, each escaped as `json_escape_char` says. It succeeds: the
/// serializer fails only when a value's `Serialize` impl fails (that of
/// `str` never does) or the writer fails, and here the writer is a `Vec<u8>`.
#[verifier::external_body]
pub(crate) fn json_of_strings(items: &[String]) -> (r: Result<String, serde_json::Error>)
    ensures
        r is Ok,
        r matches Ok(s) ==> s@ == json_string_array(items@.map_values(|x: String| x@)),
{
    serde_json::to_string(items)
}

} // verus!
