//! Interpreting the service's reply: the vendor error check, candidate
//! extraction, the inner-payload fallback, escape normalization, and the plan
//! of side effects (clipboard write, paste keys, notification) the caller is
//! to perform.

use vstd::prelude::*;
use crate::json::{
    candidate_text, candidate_text_of, error_detail_of, has_error_of, inner_fixed, inner_fixed_of,
    json_is_valid, json_parses, vendor_error_detail,
};
use crate::keysim::{paste_actions_spec, paste_key_actions, KeyAction};
use crate::text::{chars_of, contains_sub, replace_all, replace_chars, string_from_chars};
use crate::text::{
    lemma_replace2_hits, lemma_replace2_keeps_absent, lemma_replace2_no_pattern,
    lemma_replace_all_absent,
};

verus! {

/// Why a pipeline run failed. Every fallible step maps to one of these; the
/// run aborts on the first. The library itself raises only the last two;
/// the caller wraps its I/O failures in the others.
#[derive(Debug, Clone, PartialEq, Eq)]
pub enum FixError {
    /// The settings store could not be read.
    StoreError(String),
    /// The clipboard could not be read or written.
    ClipboardError(String),
    /// A synthetic key event could not be injected.
    InputError(String),
    /// The request could not be sent or its reply not received.
    NetworkError(String),
    /// The reply carried an `error` field; the message renders it.
    VendorError(String),
    /// The reply was not a JSON document.
    MalformedResponse,
}

impl FixError {
    /// The error message surfaced to the user.
    pub fn message(&self) -> (r: String)
        ensures
            r@ == (match self {
                FixError::StoreError(m) => m@,
                FixError::ClipboardError(m) => m@,
                FixError::InputError(m) => m@,
                FixError::NetworkError(m) => m@,
                FixError::VendorError(m) => m@,
                FixError::MalformedResponse => "malformed API response"@,
            }),
    {
        match self {
            FixError::StoreError(m) => m.clone(),
            FixError::ClipboardError(m) => m.clone(),
            FixError::InputError(m) => m.clone(),
            FixError::NetworkError(m) => m.clone(),
            FixError::VendorError(m) => m.clone(),
            FixError::MalformedResponse => String::from_str("malformed API response"),
        }
    }
}

/// What the service's reply amounted to.
#[derive(Debug, Clone, PartialEq, Eq)]
pub enum VendorReply {
    /// The reply was not a JSON document.
    Unparseable,
    /// The reply carried an `error` field; the field holds the rendered
    /// message.
    Error(String),
    /// The text of the first candidate; empty when the reply had none.
    Candidate(String),
}

/// Literal escape sequences the model may emit inside its JSON answer are
/// normalized: each two-character `\n` becomes a real line break, and each
/// two-character `\r` is removed.
pub open spec fn normalized_text(s: Seq<char>) -> Seq<char> {
    replace_all(replace_all(s, seq!['\\', 'n'], seq!['\n']), seq!['\\', 'r'], Seq::<char>::empty())
}

/// The view of an optional string.
pub open spec fn view_opt(o: Option<String>) -> Option<Seq<char>> {
    match o {
        Some(t) => Some(t@),
        None => None,
    }
}

/// The corrected text: the inner payload's fixed text when one was found,
/// the raw candidate text otherwise, normalized either way.
pub open spec fn fixed_output(candidate: Seq<char>, inner: Option<Seq<char>>) -> Seq<char> {
    normalized_text(
        match inner {
            Some(t) => t,
            None => candidate,
        },
    )
}

/// The pipeline's outcome for a classified reply and the fixed text its
/// inner payload yielded, if any.
pub open spec fn outcome_spec(reply: VendorReply, inner: Option<String>) -> Result<
    Seq<char>,
    FixError,
> {
    match reply {
        VendorReply::Unparseable => Err(FixError::MalformedResponse),
        VendorReply::Error(m) => Err(FixError::VendorError(m)),
        VendorReply::Candidate(t) => Ok(fixed_output(t@, view_opt(inner))),
    }
}

/// The view of an outcome.
pub open spec fn outcome_view(outcome: Result<String, FixError>) -> Result<Seq<char>, FixError> {
    match outcome {
        Ok(t) => Ok(t@),
        Err(e) => Err(e),
    }
}

/// What an outcome puts on the clipboard: the corrected text on success,
/// nothing on an error.
pub open spec fn clipboard_write_of(outcome: Result<Seq<char>, FixError>) -> Option<Seq<char>> {
    match outcome {
        Ok(t) => Some(t),
        Err(_) => None,
    }
}

/// The side effects still owed once the outcome is known.
pub struct FixPlan {
    /// The run's result: the corrected text, or the error surfaced to the
    /// caller.
    pub outcome: Result<String, FixError>,
    /// Key events to inject after the clipboard write.
    pub paste_keys: Vec<KeyAction>,
    /// Whether to show the completion notification (after the paste, so it
    /// does not steal focus).
    pub notify: bool,
}

/// Normalizes the literal escape sequences in the model's answer.
pub fn normalize_escapes(s: &str) -> (r: String)
    ensures
        r@ == normalized_text(s@),
{
    let cs = chars_of(s);
    let mut pat_n: Vec<char> = Vec::new();
    pat_n.push('\\');
    pat_n.push('n');
    let mut rep_n: Vec<char> = Vec::new();
    rep_n.push('\n');
    let mut pat_r: Vec<char> = Vec::new();
    pat_r.push('\\');
    pat_r.push('r');
    let rep_r: Vec<char> = Vec::new();
    proof {
        assert(pat_n@ =~= seq!['\\', 'n']);
        assert(rep_n@ =~= seq!['\n']);
        assert(pat_r@ =~= seq!['\\', 'r']);
        assert(rep_r@ =~= Seq::<char>::empty());
    }
    let pass1 = replace_chars(&cs, &pat_n, &rep_n);
    let pass2 = replace_chars(&pass1, &pat_r, &rep_r);
    string_from_chars(&pass2)
}

/// Renders a vendor error payload as the message surfaced to the user.
pub fn vendor_error_message(detail: &str) -> (r: String)
    ensures
        r@ == "API Error: "@ + detail@,
{
    let mut out = String::new();
    out.append("API Error: ");
    out.append(detail);
    proof {
        assert(out@ =~= "API Error: "@ + detail@);
    }
    out
}

/// Classifies the reply body: unparseable, refused by the vendor, or a
/// candidate answer.
pub fn classify_response(body: &str) -> (r: VendorReply)
    ensures
        (r is Unparseable) <==> !json_parses(body@),
        json_parses(body@) ==> ((r is Error) <==> has_error_of(body@)),
        r matches VendorReply::Error(m) ==> m@ == "API Error: "@ + error_detail_of(body@),
        r matches VendorReply::Candidate(t) ==> t@ == candidate_text_of(body@),
{
    if !json_is_valid(body) {
        return VendorReply::Unparseable;
    }
    match vendor_error_detail(body) {
        Some(detail) => VendorReply::Error(vendor_error_message(detail.as_str())),
        None => VendorReply::Candidate(candidate_text(body)),
    }
}

/// The fixed text carried by the candidate's inner JSON payload: the string
/// under `fixed_text`, or nothing when the payload is no JSON document, has
/// no such field, or holds no string there.
pub fn extract_fixed_field(candidate: &str) -> (r: Option<String>)
    ensures
        view_opt(r) == inner_fixed_of(candidate@),
        !json_parses(candidate@) ==> r is None,
{
    inner_fixed(candidate)
}

/// The corrected text for a candidate: the inner fixed text where one was
/// found, the raw candidate otherwise, normalized either way.
pub fn resolve_output(candidate: &str, inner: Option<String>) -> (r: String)
    ensures
        r@ == fixed_output(candidate@, view_opt(inner)),
{
    match inner {
        Some(t) => normalize_escapes(t.as_str()),
        None => normalize_escapes(candidate),
    }
}

/// Turns a classified reply into the plan of side effects: the outcome, the
/// paste keys owed in turbo mode on success, and whether to notify.
pub fn finish_fix(
    reply: VendorReply,
    inner: Option<String>,
    turbo_mode: bool,
    show_notification: bool,
) -> (r: FixPlan)
    ensures
        outcome_view(r.outcome) == outcome_spec(reply, inner),
        r.paste_keys@ == paste_actions_spec(turbo_mode && r.outcome is Ok),
        r.notify == (show_notification && r.outcome is Ok),
{
    let outcome: Result<String, FixError> = match reply {
        VendorReply::Unparseable => Err(FixError::MalformedResponse),
        VendorReply::Error(m) => Err(FixError::VendorError(m)),
        VendorReply::Candidate(t) => Ok(resolve_output(t.as_str(), inner)),
    };
    let ok = outcome.is_ok();
    FixPlan { outcome, paste_keys: paste_key_actions(turbo_mode && ok), notify: show_notification && ok }
}

/// Processes the reply body end to end: classify, read the inner payload,
/// and plan the side effects.
pub fn process_vendor_response(body: &str, turbo_mode: bool, show_notification: bool) -> (r:
    FixPlan)
    ensures
        !json_parses(body@) ==> outcome_view(r.outcome) == Err::<Seq<char>, FixError>(
            FixError::MalformedResponse,
        ),
        json_parses(body@) && has_error_of(body@) ==> (r.outcome matches Err(
            FixError::VendorError(m),
        ) && m@ == "API Error: "@ + error_detail_of(body@)),
        json_parses(body@) && !has_error_of(body@) ==> outcome_view(r.outcome) == Ok::<
            Seq<char>,
            FixError,
        >(fixed_output(candidate_text_of(body@), inner_fixed_of(candidate_text_of(body@)))),
        r.paste_keys@ == paste_actions_spec(turbo_mode && r.outcome is Ok),
        r.notify == (show_notification && r.outcome is Ok),
{
    let reply = classify_response(body);
    let inner = match &reply {
        VendorReply::Candidate(t) => extract_fixed_field(t.as_str()),
        _ => None,
    };
    finish_fix(reply, inner, turbo_mode, show_notification)
}

/// What an outcome asks the caller to write to the clipboard: the corrected
/// text on success, nothing on an error.
pub fn clipboard_write(outcome: &Result<String, FixError>) -> (r: Option<String>)
    ensures
        view_opt(r) == clipboard_write_of(outcome_view(*outcome)),
{
    match outcome {
        Ok(t) => Some(t.clone()),
        Err(_) => None,
    }
}

/// Law: for input free of literal `\r` escape sequences, normalization
/// leaves no literal `\n` escape sequence behind, and where one occurred a
/// real line break appears in the output.
pub proof fn lemma_normalization_realizes_line_breaks(s: Seq<char>)
    requires
        !contains_sub(s, seq!['\\', 'r']),
    ensures
        !contains_sub(normalized_text(s), seq!['\\', 'n']),
        contains_sub(s, seq!['\\', 'n']) ==> normalized_text(s).contains('\n'),
{
    let mid = replace_all(s, seq!['\\', 'n'], seq!['\n']);
    lemma_replace2_no_pattern(s, '\\', 'n', '\n');
    lemma_replace2_keeps_absent(s, '\\', 'n', '\n', '\\', 'r');
    lemma_replace_all_absent(mid, seq!['\\', 'r'], Seq::<char>::empty());
    if contains_sub(s, seq!['\\', 'n']) {
        lemma_replace2_hits(s, '\\', 'n', '\n');
    }
}

/// Law: when the candidate's inner payload yields no fixed text — in
/// particular when it is not valid JSON — the output falls back to the raw
/// candidate text, normalized.
pub proof fn lemma_fallback_uses_raw_candidate(candidate: Seq<char>)
    ensures
        fixed_output(candidate, None) == normalized_text(candidate),
{
}

/// Law: a reply the vendor refused ends the run in an error, and an
/// erroneous outcome writes nothing to the clipboard.
pub proof fn lemma_vendor_error_writes_nothing(reply: VendorReply, inner: Option<String>)
    requires
        reply is Error,
    ensures
        outcome_spec(reply, inner) is Err,
        clipboard_write_of(outcome_spec(reply, inner)) is None,
{
}

} // verus!
