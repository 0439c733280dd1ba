//! The JSON the registry reads (documents and their string members) and the
//! JSON string literals it writes, through `serde_json`.
use serde_json::Value;
use vstd::prelude::*;
use vstd::string::to_string_from_display_ensures;

use crate::text::lower_hex_digits;

verus! {

#[verifier::external_type_specification]
#[verifier::external_body]
pub struct ExJsonValue(serde_json::Value);

#[verifier::external_type_specification]
#[verifier::external_body]
pub struct ExJsonError(serde_json::Error);

/// The string members of a JSON value: each text `p` for which
/// `Value::pointer(p)` finds a `Value::String(s)` maps to `s`. Keys are read
/// as `Value::pointer` reads them (`/`-separated tokens with `~1` and `~0`
/// unescaped), which accepts some texts that RFC 6901 rejects.
pub uninterp spec fn json_string_leaves(v: serde_json::Value) -> Map<Seq<char>, Seq<char>>;

/// What `serde_json` makes of the bytes `b` as a JSON document: `None` when
/// they are not one, else the string members of the value they denote.
pub uninterp spec fn json_of_bytes(b: Seq<u8>) -> Option<Map<Seq<char>, Seq<char>>>;

/// What `serde_json` makes of the text `t` as a JSON document: `Ok` with the
/// string members of the value it denotes, or `Err` with the text that the
/// parse error displays (its message and position) when it is not one.
pub uninterp spec fn json_of_text(t: Seq<char>) -> Result<Map<Seq<char>, Seq<char>>, Seq<char>>;

/// `serde_json::from_slice::<Value>`: parses `bytes` as a JSON document. It
/// succeeds exactly when [`json_of_bytes`] is `Some`, and the value's string
/// members are the ones named there.
#[verifier::external_body]
pub(crate) fn json_from_slice(bytes: &[u8]) -> (r: Result<serde_json::Value, serde_json::Error>)
    ensures
        r is Ok <==> json_of_bytes(bytes@) is Some,
        r matches Ok(v) ==> json_of_bytes(bytes@) == Some(json_string_leaves(v)),
{
    serde_json::from_slice::<Value>(bytes)
}

/// `serde_json::from_str::<Value>`: parses `text` as a JSON document. It
/// succeeds exactly when [`json_of_text`] is `Ok`, and the value's string
/// members are the ones named there; on failure, what the error displays
/// (`to_string`) is the text named there. The error is built from the input
/// alone (message, line and column), so its text is a function of `text`.
#[verifier::external_body]
pub(crate) fn json_from_str(text: &str) -> (r: Result<serde_json::Value, serde_json::Error>)
    ensures
        r is Ok <==> json_of_text(text@) is Ok,
        r matches Ok(v) ==> json_of_text(text@)->Ok_0 == json_string_leaves(v),
        r matches Err(e) ==> forall|s: String|
            #[trigger] to_string_from_display_ensures(&e, s) ==> json_of_text(text@)->Err_0 == s@,
{
    serde_json::from_str::<Value>(text)
}

/// `serde_json::Value::pointer` followed by the string case of what it finds
/// (the `Value::String` arm, as `Value::as_str` has it): the string at
/// `pointer`, or `None` when nothing is there or it is not a string.
#[verifier::external_body]
pub(crate) fn json_pointer_str<'a>(v: &'a serde_json::Value, pointer: &str) -> (r: Option<&'a str>)
    ensures
        r matches Some(s) ==> json_string_leaves(*v).contains_key(pointer@)
            && json_string_leaves(*v)[pointer@] == s@,
        r is None ==> !json_string_leaves(*v).contains_key(pointer@),
{
    match v.pointer(pointer) {
        Some(Value::String(s)) => Some(s.as_str()),
        _ => None,
    }
}

/// How `serde_json` writes one character inside a string literal.
pub open spec fn json_escape_char(c: char) -> Seq<char> {
    if c == '"' {
        seq!['\\', '"']
    } else if c == '\\' {
        seq!['\\', '\\']
    } else if c == '\u{8}' {
        seq!['\\', 'b']
    } else if c == '\t' {
        seq!['\\', 't']
    } else if c == '\n' {
        seq!['\\', 'n']
    } else if c == '\u{c}' {
        seq!['\\', 'f']
    } else if c == '\r' {
        seq!['\\', 'r']
    } else if (c as int) < 0x20 {
        seq![
            '\\',
            'u',
            '0',
            '0',
            lower_hex_digits()[(c as int) / 16],
            lower_hex_digits()[(c as int) % 16],
        ]
    } else {
        seq![c]
    }
}

/// The escaped contents of a JSON string literal for `s`.
pub open spec fn json_escape(s: Seq<char>) -> Seq<char>
    decreases s.len(),
{
    if s.len() == 0 {
        seq![]
    } else {
        json_escape(s.drop_last()) + json_escape_char(s.last())
    }
}

/// The JSON string literal for `s`: the escaped text between double quotes.
pub open spec fn json_quoted(s: Seq<char>) -> Seq<char> {
    seq!['"'] + json_escape(s) + seq!['"']
}

/// `serde_json::to_string` on a `str`: the JSON string literal, escaped as
/// `format_escaped_str` does (quote, backslash and the control characters,
/// the latter as `\b \t \n \f \r` or `\u00xx`). It returns `Ok`: the source
/// serializes a `str` into a `Vec<u8>`, a writer that never fails.
#[verifier::external_body]
pub(crate) fn json_string_literal(s: &str) -> (r: Result<String, serde_json::Error>)
    ensures
        r is Ok,
        r matches Ok(t) ==> t@ == json_quoted(s@),
{
    serde_json::to_string(s)
}

} // verus!
