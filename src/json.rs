//! JSON documents, read and rendered by serde_json.

use vstd::prelude::*;

verus! {

/// Whether serde_json accepts `s` as one JSON document.
pub uninterp spec fn json_parses(s: Seq<char>) -> bool;

/// The text of the string member `key` of the JSON object `doc`; `None`
/// where `doc` is no JSON object, or has no such member, or the member is
/// not a string.
pub uninterp spec fn json_str_member(doc: Seq<char>, key: Seq<char>) -> Option<Seq<char>>;

/// The compact JSON text (no white space between tokens) of the document
/// that `s` holds, as serde_json renders it (object members in the order of
/// serde_json's map).
pub uninterp spec fn json_compact(s: Seq<char>) -> Seq<char>;

/// Relies on `serde_json::from_str`, `Value::get` and `Value::as_str`: the
/// string member `key` of the document `doc`; the outcome depends on the
/// text alone, and a member is found only in a document that parses.
#[verifier::external_body]
pub(crate) fn json_member_str(doc: &str, key: &str) -> (r: Option<String>)
    ensures
        r is Some == json_str_member(doc@, key@) is Some,
        r matches Some(s) ==> s@ == json_str_member(doc@, key@).unwrap(),
        r is Some ==> json_parses(doc@),
{
    let v: serde_json::Value = serde_json::from_str(doc).ok()?;
    v.get(key).and_then(|m| m.as_str()).map(|s| s.to_owned())
}

/// Relies on `serde_json::from_str` and serde_json's `Display` for `Value`:
/// the compact text of the document `s`, `None` where serde_json refuses
/// it; both depend on the text alone.
#[verifier::external_body]
pub(crate) fn compact_json_text(s: &str) -> (r: Option<String>)
    ensures
        r is Some == json_parses(s@),
        r matches Some(t) ==> t@ == json_compact(s@),
{
    let v: serde_json::Value = serde_json::from_str(s).ok()?;
    Some(v.to_string())
}

} // verus!
