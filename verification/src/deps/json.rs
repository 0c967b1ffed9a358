use vstd::prelude::*;

verus! {

/// Whether `serde_json::from_str` reads a text as a JSON value.
pub uninterp spec fn json_parses(document: Seq<char>) -> bool;

/// The unsigned number that a JSON document holds where a JSON Pointer
/// points, as `Value::pointer` and `Value::as_u64` give it.
pub uninterp spec fn json_number(document: Seq<char>, pointer: Seq<char>) -> Option<u64>;

/// The signed number that a JSON document holds where a JSON Pointer points,
/// as `Value::pointer` and `Value::as_i64` give it.
pub uninterp spec fn json_integer(document: Seq<char>, pointer: Seq<char>) -> Option<i64>;

/// The string that a JSON document holds where a JSON Pointer points, as
/// `Value::pointer` and `Value::as_str` give it.
pub uninterp spec fn json_text(document: Seq<char>, pointer: Seq<char>) -> Option<Seq<char>>;

/// The length of the array that a JSON document holds where a JSON Pointer
/// points, as `Value::pointer` and `Value::as_array` give it.
pub uninterp spec fn json_len(document: Seq<char>, pointer: Seq<char>) -> Option<usize>;

/// The JSON string literal for a text, quotes and escapes included, as
/// `serde_json::to_string` writes it.
pub uninterp spec fn json_quoted(text: Seq<char>) -> Seq<char>;

/// `serde_json::from_str::<Value>`, asked only whether it succeeds.
#[verifier::external_body]
pub(crate) fn json_is_document(document: &str) -> (ok: bool)
    ensures
        ok == json_parses(document@),
{
    serde_json::from_str::<serde_json::Value>(document).is_ok()
}

/// `serde_json::from_str`, then `Value::pointer` and `Value::as_u64`. A text
/// that does not parse holds no number.
#[verifier::external_body]
pub(crate) fn json_get_u64(document: &str, pointer: &str) -> (number: Option<u64>)
    ensures
        number == json_number(document@, pointer@),
        !json_parses(document@) ==> number is None,
{
    let value: serde_json::Value = serde_json::from_str(document).ok()?;
    value.pointer(pointer)?.as_u64()
}

/// `serde_json::from_str`, then `Value::pointer` and `Value::as_i64`. A text
/// that does not parse holds no number.
#[verifier::external_body]
pub(crate) fn json_get_i64(document: &str, pointer: &str) -> (number: Option<i64>)
    ensures
        number == json_integer(document@, pointer@),
        !json_parses(document@) ==> number is None,
{
    let value: serde_json::Value = serde_json::from_str(document).ok()?;
    value.pointer(pointer)?.as_i64()
}

/// `serde_json::from_str`, then `Value::pointer` and `Value::as_str`. A text
/// that does not parse holds no string.
#[verifier::external_body]
pub(crate) fn json_get_str(document: &str, pointer: &str) -> (text: Option<String>)
    ensures
        match text {
            Some(t) => json_text(document@, pointer@) == Some(t@),
            None => json_text(document@, pointer@) is None,
        },
        !json_parses(document@) ==> text is None,
{
    let value: serde_json::Value = serde_json::from_str(document).ok()?;
    value.pointer(pointer)?.as_str().map(|s| s.to_string())
}

/// `serde_json::from_str`, then `Value::pointer`, `Value::as_array` and the
/// array's length. A text that does not parse holds no array.
#[verifier::external_body]
pub(crate) fn json_get_len(document: &str, pointer: &str) -> (len: Option<usize>)
    ensures
        len == json_len(document@, pointer@),
        !json_parses(document@) ==> len is None,
{
    let value: serde_json::Value = serde_json::from_str(document).ok()?;
    value.pointer(pointer)?.as_array().map(|a| a.len())
}

/// `serde_json::to_string` on a string: the JSON literal for it. Writing a
/// string cannot fail; were it to, the literal would be empty.
#[verifier::external_body]
pub(crate) fn json_quote(text: &str) -> (literal: String)
    ensures
        literal@ == json_quoted(text@),
{
    serde_json::to_string(text).unwrap_or_default()
}

} // verus!
