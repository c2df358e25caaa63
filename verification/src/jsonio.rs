//! JSON text handled through serde_json: extracting the session identifier
//! from the notary's session-creation response, and re-rendering response
//! bodies in a normalized pretty form.
use vstd::prelude::*;

verus! {

/// The named string field of a JSON object rendered by the given text, or
/// None when the text does not parse or the field is absent or not a
/// string; the result depends on the two arguments alone.
pub uninterp spec fn json_string_field_of(s: Seq<char>, field: Seq<char>) -> Option<Seq<char>>;

/// Relies on serde_json::from_str::<Value>, Value::get and Value::as_str:
/// looks one string field up in a JSON object.
#[verifier::external_body]
fn json_string_field(s: &str, field: &str) -> (r: Option<String>)
    ensures
        match r {
            Some(v) => json_string_field_of(s@, field@) == Some(v@),
            None => json_string_field_of(s@, field@) is None,
        },
{
    match serde_json::from_str::<serde_json::Value>(s) {
        Ok(v) => match v.get(field) {
            Some(f) => f.as_str().map(|x| x.to_owned()),
            None => None,
        },
        Err(_) => None,
    }
}

/// The session identifier in a session-creation response body.
pub open spec fn spec_session_id_of(s: Seq<char>) -> Option<Seq<char>> {
    json_string_field_of(s, "session_id"@)
}

/// Extracts the session identifier from the notary's response body.
pub fn extract_session_id(s: &str) -> (r: Option<String>)
    ensures
        match r {
            Some(id) => spec_session_id_of(s@) == Some(id@),
            None => spec_session_id_of(s@) is None,
        },
{
    json_string_field(s, "session_id")
}

/// The normalized pretty rendering of a JSON text, or None when the text
/// does not parse; the result depends on the text alone.
pub uninterp spec fn pretty_json_of(s: Seq<char>) -> Option<Seq<char>>;

/// Relies on serde_json::from_str::<Value> and serde_json::to_string_pretty:
/// re-renders JSON text in pretty form.
#[verifier::external_body]
pub fn normalize_json_pretty(s: &str) -> (r: Option<String>)
    ensures
        match r {
            Some(t) => pretty_json_of(s@) == Some(t@),
            None => pretty_json_of(s@) is None,
        },
{
    match serde_json::from_str::<serde_json::Value>(s) {
        Ok(v) => serde_json::to_string_pretty(&v).ok(),
        Err(_) => None,
    }
}

} // verus!
