//! Reading JSON documents that AWS hands back as text: one member as text,
//! or the whole document laid out for reading.
use vstd::prelude::*;

verus! {

/// The member `field` of the JSON object `text`, when `text` parses as JSON
/// (by `serde_json::from_str`) into an object with that member and the
/// member is a string.
pub uninterp spec fn json_string_member(text: Seq<char>, field: Seq<char>) -> Option<Seq<char>>;

/// Calls `serde_json::from_str` to parse `text` into a `serde_json::Value`,
/// `Value::get` to read its member `field` and `Value::as_str` to read that
/// member as a string: nothing when the text is no JSON, the value no object,
/// the member absent or no string. The contract names the result; it claims
/// nothing more of JSON.
#[verifier::external_body]
pub(crate) fn member_text(text: &str, field: &str) -> (r: Option<String>)
    ensures
        match r {
            Some(t) => json_string_member(text@, field@) == Some(t@),
            None => json_string_member(text@, field@) is None,
        },
{
    serde_json::from_str::<serde_json::Value>(text).ok().and_then(|v| v.get(field).and_then(|m| m.as_str()).map(|m| m.to_string()))
}

/// The JSON document `text` laid out by `serde_json::to_string_pretty` when
/// it parses as JSON, else the message of serde_json's error.
pub uninterp spec fn json_pretty(text: Seq<char>) -> Result<Seq<char>, Seq<char>>;

/// Calls `serde_json::from_str` to parse `text` into a `serde_json::Value` and
/// `serde_json::to_string_pretty` to lay it out again; an error (the text is
/// no JSON) comes back as its message. The contract names the result; it
/// claims nothing more of JSON.
#[verifier::external_body]
pub(crate) fn pretty_text(text: &str) -> (r: Result<String, String>)
    ensures
        match r {
            Ok(t) => json_pretty(text@) == Ok::<Seq<char>, Seq<char>>(t@),
            Err(e) => json_pretty(text@) == Err::<Seq<char>, Seq<char>>(e@),
        },
{
    match serde_json::from_str::<serde_json::Value>(text) {
        Ok(v) => serde_json::to_string_pretty(&v).map_err(|e| e.to_string()),
        Err(e) => Err(e.to_string()),
    }
}

} // verus!
