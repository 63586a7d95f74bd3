//! JSON text of plain values, through `serde_json`: the friend list is kept
//! as a JSON array of public keys, and text fields are written as JSON
//! string literals.
use vstd::prelude::*;

verus! {

/// The error type of `serde_json`; the library only tells it apart from
/// success.
#[verifier::external_type_specification]
#[verifier::external_body]
pub struct ExJsonError(serde_json::Error);

/// What `serde_json::to_string` writes for a list of strings: `[`, the
/// string literals separated by `,`, and `]`, with no white space.
pub open spec fn json_of_strings(list: Seq<Seq<char>>) -> Seq<char> {
    seq!['['] + json_items(list) + seq![']']
}

/// The string literals of a list, separated by `,`.
pub open spec fn json_items(list: Seq<Seq<char>>) -> Seq<char>
    decreases list.len(),
{
    if list.len() == 0 {
        Seq::empty()
    } else if list.len() == 1 {
        json_of_str(list[0])
    } else {
        json_of_str(list[0]) + seq![','] + json_items(list.drop_first())
    }
}

/// What `serde_json::from_str::<Vec<String>>` reads from a text: the list, or
/// `None` where it returns an error.
pub uninterp spec fn json_strings_read(text: Seq<char>) -> Option<Seq<Seq<char>>>;

/// A lowercase hexadecimal digit.
pub open spec fn hex_digit(d: int) -> char {
    seq!['0', '1', '2', '3', '4', '5', '6', '7', '8', '9', 'a', 'b', 'c', 'd', 'e', 'f'][d]
}

/// How `serde_json` writes one character inside a string literal: `"` and
/// `\` behind a backslash, backspace, tab, line feed, form feed and carriage
/// return as `\b`, `\t`, `\n`, `\f` and `\r`, the other control characters
/// below U+0020 as `\u00` and two lowercase hexadecimal digits, and every
/// other character as itself.
pub open spec fn json_escape_char(c: char) -> Seq<char> {
    let u = c as u32;
    if c == '"' {
        seq!['\\', '"']
    } else if c == '\\' {
        seq!['\\', '\\']
    } else if u == 0x08 {
        seq!['\\', 'b']
    } else if u == 0x09 {
        seq!['\\', 't']
    } else if u == 0x0A {
        seq!['\\', 'n']
    } else if u == 0x0C {
        seq!['\\', 'f']
    } else if u == 0x0D {
        seq!['\\', 'r']
    } else if u < 0x20 {
        seq!['\\', 'u', '0', '0', hex_digit(u as int / 16), hex_digit(u as int % 16)]
    } else {
        seq![c]
    }
}

/// The characters of a text, each written as in a JSON string literal.
pub open spec fn json_escaped(text: Seq<char>) -> Seq<char>
    decreases text.len(),
{
    if text.len() == 0 {
        Seq::empty()
    } else {
        json_escape_char(text[0]) + json_escaped(text.drop_first())
    }
}

/// What `serde_json::to_string` writes for one string: the JSON string
/// literal, the escaped characters between double quotes.
pub open spec fn json_of_str(text: Seq<char>) -> Seq<char> {
    seq!['"'] + json_escaped(text) + seq!['"']
}

/// Calls `serde_json::to_string` on a list of strings.
///
/// Trusted: the result is the JSON text of the list, as the compact
/// formatter writes it (`ser.rs`: `format_escaped_str_contents` and the
/// `ESCAPE` table), and
/// `serde_json::from_str::<Vec<String>>` reads the same list back from it
/// (quotes, backslashes and control characters are escaped, and unescaped
/// when read). Serializing strings cannot fail, so the call does not panic.
#[verifier::external_body]
pub(crate) fn strings_to_json(list: &Vec<String>) -> (text: String)
    ensures
        text@ == json_of_strings(list.deep_view()),
        json_strings_read(text@) == Some(list.deep_view()),
{
    serde_json::to_string(list).unwrap()
}

/// Calls `serde_json::from_str::<Vec<String>>`.
///
/// Trusted: it succeeds exactly where the named reading is defined and then
/// returns that list.
#[verifier::external_body]
pub(crate) fn strings_from_json(text: &str) -> (res: Result<Vec<String>, serde_json::Error>)
    ensures
        res is Ok <==> json_strings_read(text@) is Some,
        res matches Ok(list) ==> json_strings_read(text@) == Some(list.deep_view()),
{
    serde_json::from_str::<Vec<String>>(text)
}

/// Calls `serde_json::to_string` on one string.
///
/// Trusted: the result is the JSON string literal of the text, escaped as
/// `ser.rs` (`format_escaped_str_contents`, the `ESCAPE` table and
/// `write_char_escape`) does. Serializing a string cannot fail, so the call
/// does not panic.
#[verifier::external_body]
pub(crate) fn str_to_json(text: &str) -> (literal: String)
    ensures
        literal@ == json_of_str(text@),
{
    serde_json::to_string(text).unwrap()
}

} // verus!
