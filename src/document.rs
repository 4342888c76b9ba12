use vstd::prelude::*;

verus! {

// Reading fields of JSON documents through serde_json and std. Each result is
// named: it depends on the document text and the key alone.

/// The text that the bytes `b` spell, if they are valid UTF-8.
pub uninterp spec fn utf8_text(b: Seq<u8>) -> Option<Seq<char>>;

/// The boolean stored under `key` at the top level of the JSON document `doc`,
/// if `doc` parses and that value is a boolean.
pub uninterp spec fn json_bool_at(doc: Seq<char>, key: Seq<char>) -> Option<bool>;

/// The `u32` stored under `key` at the top level of the JSON document `doc`, if
/// `doc` parses and that value is an integer in range.
pub uninterp spec fn json_u32_at(doc: Seq<char>, key: Seq<char>) -> Option<u32>;

/// The pair of `u32` stored under `key` at the top level of the JSON document
/// `doc`, if `doc` parses and that value is an array of two integers in range.
pub uninterp spec fn json_u32_pair_at(doc: Seq<char>, key: Seq<char>) -> Option<(u32, u32)>;

/// Whether `doc` is a JSON document.
pub uninterp spec fn json_parses(doc: Seq<char>) -> bool;

/// Relies on `String::from_utf8`: succeeds exactly on valid UTF-8, and the empty
/// byte string is the empty text.
#[verifier::external_body]
pub(crate) fn text_from_utf8(b: Vec<u8>) -> (r: Option<String>)
    ensures
        match r {
            Some(s) => utf8_text(b@) == Some(s@),
            None => utf8_text(b@) is None,
        },
        b@.len() == 0 ==> r is Some && r->Some_0@.len() == 0,
{
    String::from_utf8(b).ok()
}

/// Relies on `serde_json::from_str::<serde_json::Value>`: whether the text is a
/// JSON document; an empty text is not one.
#[verifier::external_body]
pub(crate) fn document_parses(doc: &str) -> (r: bool)
    ensures
        r == json_parses(doc@),
        doc@.len() == 0 ==> !r,
{
    serde_json::from_str::<serde_json::Value>(doc).is_ok()
}

/// Relies on `serde_json::from_str::<serde_json::Value>` and `Value::get` /
/// `Value::as_bool`: the boolean under `key`; a text that is no JSON document,
/// the empty text among them, holds none.
#[verifier::external_body]
pub(crate) fn document_bool(doc: &str, key: &str) -> (r: Option<bool>)
    ensures
        r == json_bool_at(doc@, key@),
        !json_parses(doc@) ==> r is None,
        doc@.len() == 0 ==> r is None,
{
    serde_json::from_str::<serde_json::Value>(doc).ok().and_then(|v| v.get(key).and_then(|f| f.as_bool()))
}

/// Relies on `serde_json::from_str::<serde_json::Value>`, `Value::get` and
/// `serde_json::from_value::<u32>`: the integer under `key`; a text that is no
/// JSON document holds none.
#[verifier::external_body]
pub(crate) fn document_u32(doc: &str, key: &str) -> (r: Option<u32>)
    ensures
        r == json_u32_at(doc@, key@),
        !json_parses(doc@) ==> r is None,
        doc@.len() == 0 ==> r is None,
{
    serde_json::from_str::<serde_json::Value>(doc).ok().and_then(
        |v| v.get(key).and_then(|f| serde_json::from_value::<u32>(f.clone()).ok()),
    )
}

/// Relies on `serde_json::from_str::<serde_json::Value>`, `Value::get` and
/// `serde_json::from_value::<(u32, u32)>`: the two-integer array under `key`; a
/// text that is no JSON document holds none.
#[verifier::external_body]
pub(crate) fn document_u32_pair(doc: &str, key: &str) -> (r: Option<(u32, u32)>)
    ensures
        r == json_u32_pair_at(doc@, key@),
        !json_parses(doc@) ==> r is None,
        doc@.len() == 0 ==> r is None,
{
    serde_json::from_str::<serde_json::Value>(doc).ok().and_then(
        |v| v.get(key).and_then(|f| serde_json::from_value::<(u32, u32)>(f.clone()).ok()),
    )
}

} // verus!
