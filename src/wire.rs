//! The calls into std and serde_json that decoding a body relies on.
use vstd::prelude::*;
use vstd::string::StringSliceAdditionalSpecFns;

verus! {

/// The members of the JSON object that `text` holds, in the order in which
/// serde_json's map hands them out: each key with the member's text when its
/// value is a JSON string, and `None` for any other value. `None` as a whole
/// when `text` is not exactly one JSON object.
pub uninterp spec fn json_object_members(text: Seq<char>) -> Option<Seq<(Seq<char>, Option<Seq<char>>)>>;

/// A member list as plain sequences of characters.
pub open spec fn members_view(m: Seq<(String, Option<String>)>) -> Seq<(Seq<char>, Option<Seq<char>>)> {
    m.map_values(|e: (String, Option<String>)| (e.0@, match e.1 {
        Some(t) => Some(t@),
        None => None,
    }))
}

#[verifier::external_type_specification]
#[verifier::external_body]
pub struct ExJsonError(serde_json::Error);

/// Relies on std::str::from_utf8: it succeeds exactly on valid UTF-8, and the
/// text it hands back is made of the same bytes.
#[verifier::external_body]
pub(crate) fn utf8_text(bytes: &[u8]) -> (r: Option<&str>)
    ensures
        r is Some <==> vstd::utf8::valid_utf8(bytes@),
        r matches Some(t) ==> t.spec_bytes() == bytes@,
{
    match std::str::from_utf8(bytes) {
        Ok(t) => Some(t),
        Err(_) => None,
    }
}

/// Relies on serde_json::from_str into a serde_json::Map: it succeeds exactly
/// when the text is one JSON object (a repeated key keeps its last value).
#[verifier::external_body]
pub(crate) fn json_members(text: &str) -> (r: Result<Vec<(String, Option<String>)>, serde_json::Error>)
    ensures
        r is Ok <==> json_object_members(text@) is Some,
        r matches Ok(m) ==> members_view(m@) == json_object_members(text@)->0,
{
    match serde_json::from_str::<serde_json::Map<String, serde_json::Value>>(text) {
        Ok(map) => Ok(map.into_iter().map(|(k, v)| match v {
            serde_json::Value::String(t) => (k, Some(t)),
            _ => (k, None),
        }).collect()),
        Err(e) => Err(e),
    }
}

} // verus!
