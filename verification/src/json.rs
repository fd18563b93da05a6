//! Trusted boundary to serde_json: spec-level names for what its calls
//! return — each a function of the input characters alone — and the wrappers
//! that apply them. Every call the library makes into the crate goes through
//! such a wrapper; the pipeline's stand here, the reader of the model
//! catalogue beside its type in the models module. The contracts state only
//! what serde_json's source and documentation show.

use vstd::prelude::*;

verus! {

/// Whether a string is a JSON document that `serde_json::from_str` accepts.
pub uninterp spec fn json_parses(s: Seq<char>) -> bool;

/// Whether the parsed document carries a top-level `error` field.
/// Meaningful only where `json_parses` holds.
pub uninterp spec fn has_error_of(s: Seq<char>) -> bool;

/// The rendering of the parsed document's top-level `error` field, as the
/// detail of an error message. Meaningful only where the field stands.
pub uninterp spec fn error_detail_of(s: Seq<char>) -> Seq<char>;

/// The text of the parsed reply's first candidate —
/// `candidates[0].content.parts[0].text` — or empty where any step of that
/// path is missing or no string. Meaningful only where `json_parses` holds.
pub uninterp spec fn candidate_text_of(s: Seq<char>) -> Seq<char>;

/// The string under `fixed_text` of the parsed payload, or nothing when the
/// payload is no JSON document, has no such field, or holds no string there.
pub uninterp spec fn inner_fixed_of(s: Seq<char>) -> Option<Seq<char>>;

/// The JSON string literal (quotes and escapes included) that serde_json
/// emits for a string. Serialization is a function of the characters alone.
pub uninterp spec fn json_quoted(s: Seq<char>) -> Seq<char>;

/// Relies on `serde_json::from_str::<Value>`: it succeeds on exactly the
/// documents serde_json accepts, and its outcome depends on the input alone.
#[verifier::external_body]
pub(crate) fn json_is_valid(s: &str) -> (r: bool)
    ensures
        r == json_parses(s@),
{
    serde_json::from_str::<serde_json::Value>(s).is_ok()
}

/// Relies on `serde_json::from_str::<Value>`, `Value::get` and the `Debug`
/// impl of `Value`: the top-level `error` field of the parsed reply, rendered
/// for an error message, and `None` where the field is absent or the reply is
/// no JSON document.
#[verifier::external_body]
pub(crate) fn vendor_error_detail(body: &str) -> (r: Option<String>)
    ensures
        json_parses(body@) ==> ((r is Some) <==> has_error_of(body@)),
        !json_parses(body@) ==> r is None,
        r matches Some(d) ==> d@ == error_detail_of(body@),
{
    match serde_json::from_str::<serde_json::Value>(body) {
        Ok(v) => match v.get("error") {
            Some(e) => Some(format!("{:?}", e)),
            None => None,
        },
        Err(_) => None,
    }
}

/// Relies on `serde_json::from_str::<Value>`, `Value`'s indexing (`Null` for
/// anything missing) and `Value::as_str`: the text of the reply's first
/// candidate, or empty where any step of the path is missing or no string.
#[verifier::external_body]
pub(crate) fn candidate_text(body: &str) -> (r: String)
    ensures
        json_parses(body@) ==> r@ == candidate_text_of(body@),
{
    match serde_json::from_str::<serde_json::Value>(body) {
        Ok(v) => v["candidates"][0]["content"]["parts"][0]["text"]
            .as_str()
            .unwrap_or("")
            .to_owned(),
        Err(_) => String::new(),
    }
}

/// Relies on `serde_json::from_str::<Value>`, `Value::get` and
/// `Value::as_str`: the string under `fixed_text` of the parsed payload.
#[verifier::external_body]
pub(crate) fn inner_fixed(candidate: &str) -> (r: Option<String>)
    ensures
        (match r {
            Some(t) => Some(t@),
            None => None,
        }) == inner_fixed_of(candidate@),
        !json_parses(candidate@) ==> r is None,
{
    match serde_json::from_str::<serde_json::Value>(candidate) {
        Ok(v) => match v.get("fixed_text") {
            Some(f) => f.as_str().map(str::to_owned),
            None => None,
        },
        Err(_) => None,
    }
}

/// Relies on `serde_json::to_string` on a string slice: it emits the JSON
/// string literal for it and cannot fail (serialization fails only for
/// faulty `Serialize` impls or non-string map keys, and a string slice has
/// neither).
#[verifier::external_body]
pub(crate) fn json_quote(s: &str) -> (r: String)
    ensures
        r@ == json_quoted(s@),
{
    serde_json::to_string(s).unwrap()
}

} // verus!
