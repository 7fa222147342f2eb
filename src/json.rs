//! The JSON this client writes and reads, through `serde_json`.
use vstd::prelude::*;

verus! {

pub open spec fn str_opt(o: Option<&str>) -> Option<Seq<char>> {
    match o {
        Some(s) => Some(s@),
        None => None,
    }
}

pub open spec fn string_opt(o: Option<String>) -> Option<Seq<char>> {
    match o {
        Some(s) => Some(s@),
        None => None,
    }
}

pub open spec fn hex_digit(d: int) -> char {
    seq!['0', '1', '2', '3', '4', '5', '6', '7', '8', '9', 'a', 'b', 'c', 'd', 'e', 'f'][d]
}

/// How JSON writes one character inside a string literal: `"` and `\` are
/// escaped, the five control characters with a short form use it, the other
/// characters below U+0020 become `\u00xx`, and the rest stand as they are.
pub open spec fn escape_char(c: char) -> Seq<char> {
    if c == '"' {
        seq!['\\', '"']
    } else if c == '\\' {
        seq!['\\', '\\']
    } else if c == '\x08' {
        seq!['\\', 'b']
    } else if c == '\t' {
        seq!['\\', 't']
    } else if c == '\n' {
        seq!['\\', 'n']
    } else if c == '\x0c' {
        seq!['\\', 'f']
    } else if c == '\r' {
        seq!['\\', 'r']
    } else if (c as int) < 0x20 {
        seq!['\\', 'u', '0', '0', hex_digit((c as int) / 16), hex_digit((c as int) % 16)]
    } else {
        seq![c]
    }
}

pub open spec fn escaped(s: Seq<char>) -> Seq<char>
    decreases s.len(),
{
    if s.len() == 0 {
        seq![]
    } else {
        escaped(s.drop_last()) + escape_char(s.last())
    }
}

/// The JSON string literal for `s`: quotes around its escaped characters.
pub open spec fn json_string(s: Seq<char>) -> Seq<char> {
    seq!['"'] + escaped(s) + seq!['"']
}

/// The boolean at JSON pointer `pointer` of the document `text`; `None`
/// where `text` is not JSON or no boolean stands there.
pub uninterp spec fn json_bool_at(text: Seq<char>, pointer: Seq<char>) -> Option<bool>;

/// The string at JSON pointer `pointer` of the document `text`; `None`
/// where `text` is not JSON or no string stands there.
pub uninterp spec fn json_str_at(text: Seq<char>, pointer: Seq<char>) -> Option<Seq<char>>;

/// Whether `text` is JSON with a value at JSON pointer `pointer`.
pub uninterp spec fn json_has(text: Seq<char>, pointer: Seq<char>) -> bool;

/// Relies on serde_json's serializer (`Display` of `Value::String`, compact
/// form): it writes `s` as a JSON string literal.
#[verifier::external_body]
pub(crate) fn quote(s: &str) -> (r: String)
    ensures
        r@ == json_string(s@),
{
    serde_json::Value::String(s.to_string()).to_string()
}

/// Relies on serde_json::from_str, `Value::pointer` and `Value::as_bool`:
/// parses `text` and reads the boolean at `pointer`.
#[verifier::external_body]
pub(crate) fn bool_at(text: &str, pointer: &str) -> (r: Option<bool>)
    ensures
        r == json_bool_at(text@, pointer@),
{
    match serde_json::from_str::<serde_json::Value>(text) {
        Ok(v) => v.pointer(pointer).and_then(serde_json::Value::as_bool),
        Err(_) => None,
    }
}

/// Relies on serde_json::from_str, `Value::pointer` and `Value::as_str`:
/// parses `text` and reads the string at `pointer`.
#[verifier::external_body]
pub(crate) fn str_at(text: &str, pointer: &str) -> (r: Option<String>)
    ensures
        string_opt(r) == json_str_at(text@, pointer@),
{
    match serde_json::from_str::<serde_json::Value>(text) {
        Ok(v) => v.pointer(pointer).and_then(serde_json::Value::as_str).map(String::from),
        Err(_) => None,
    }
}

/// Relies on serde_json::from_str and `Value::pointer`: parses `text` and
/// tells whether a value stands at `pointer`.
#[verifier::external_body]
pub(crate) fn has(text: &str, pointer: &str) -> (r: bool)
    ensures
        r == json_has(text@, pointer@),
{
    match serde_json::from_str::<serde_json::Value>(text) {
        Ok(v) => v.pointer(pointer).is_some(),
        Err(_) => false,
    }
}

/// Relies on serde_json::from_str, `Value::pointer`, and serde's
/// `Deserialize` for `Vec<T>` over `&Value`: reads the JSON array at
/// `pointer` into rows of the caller's type, `None` where that fails.
#[verifier::external_body]
pub(crate) fn rows_at<T: serde::de::DeserializeOwned>(text: &str, pointer: &str) -> (r: Option<
    Vec<T>,
>)
    ensures
        !json_has(text@, pointer@) ==> r is None,
{
    match serde_json::from_str::<serde_json::Value>(text) {
        Ok(v) => match v.pointer(pointer) {
            Some(rows) => <Vec<T> as serde::Deserialize>::deserialize(rows).ok(),
            None => None,
        },
        Err(_) => None,
    }
}

} // verus!
