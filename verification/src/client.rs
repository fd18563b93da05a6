//! Building the one request a pipeline run sends to the text-correction
//! service: the prompt around the clipboard text, the JSON request body, and
//! the endpoint URLs. Sending is the caller's business.

use vstd::prelude::*;
use crate::json::{json_quote, json_quoted};

verus! {

/// The prompt handed to the model: the configured preprompt, the fixed
/// instructions, and the clipboard text fenced off.
pub open spec fn prompt_of(preprompt: Seq<char>, clipboard_text: Seq<char>) -> Seq<char> {
    preprompt
        + " \n\n INSTRUCTIONS:\n1. Fix typos and grammar.\n2. STRICTLY PRESERVE all original newlines, paragraph breaks, and indentation.\n3. Do NOT merge lines.\n\nINPUT TEXT:\n```\n"@
        + clipboard_text + "\n```"@
}

/// The JSON request body: the prompt as the single content part, and a
/// generation configuration that asks for a JSON answer with one
/// `fixed_text` field.
pub open spec fn request_body_of(prompt: Seq<char>) -> Seq<char> {
    "{\"contents\":[{\"parts\":[{\"text\":"@ + json_quoted(prompt)
        + "}]}],\"generationConfig\":{\"responseMimeType\":\"application/json\",\"responseSchema\":{\"type\":\"object\",\"properties\":{\"fixed_text\":{\"type\":\"string\"}}}}}"@
}

/// The content-generation endpoint for a model, with the API key as a query
/// parameter.
pub open spec fn generate_url_of(model: Seq<char>, api_key: Seq<char>) -> Seq<char> {
    "https://generativelanguage.googleapis.com/v1beta/models/"@ + model + ":generateContent?key="@
        + api_key
}

/// The model-listing endpoint, with the API key as a query parameter.
pub open spec fn models_url_of(api_key: Seq<char>) -> Seq<char> {
    "https://generativelanguage.googleapis.com/v1beta/models?key="@ + api_key
}

/// The text a run works on: what the clipboard read yielded, or empty when
/// the read failed — a failed read does not abort the run.
pub fn clipboard_text_or_empty(read: Option<String>) -> (r: String)
    ensures
        r@ == (match read {
            Some(t) => t@,
            None => Seq::<char>::empty(),
        }),
{
    match read {
        Some(t) => t,
        None => String::new(),
    }
}

/// Builds the model prompt around the clipboard text.
pub fn build_prompt(preprompt: &str, clipboard_text: &str) -> (r: String)
    ensures
        r@ == prompt_of(preprompt@, clipboard_text@),
{
    let mut out = String::new();
    out.append(preprompt);
    out.append(
        " \n\n INSTRUCTIONS:\n1. Fix typos and grammar.\n2. STRICTLY PRESERVE all original newlines, paragraph breaks, and indentation.\n3. Do NOT merge lines.\n\nINPUT TEXT:\n```\n",
    );
    out.append(clipboard_text);
    out.append("\n```");
    proof {
        assert(out@ =~= prompt_of(preprompt@, clipboard_text@));
    }
    out
}

/// Builds the JSON request body around the prompt.
pub fn build_request_body(prompt: &str) -> (r: String)
    ensures
        r@ == request_body_of(prompt@),
{
    let quoted = json_quote(prompt);
    let mut out = String::new();
    out.append("{\"contents\":[{\"parts\":[{\"text\":");
    out.append(quoted.as_str());
    out.append(
        "}]}],\"generationConfig\":{\"responseMimeType\":\"application/json\",\"responseSchema\":{\"type\":\"object\",\"properties\":{\"fixed_text\":{\"type\":\"string\"}}}}}",
    );
    proof {
        assert(out@ =~= request_body_of(prompt@));
    }
    out
}

/// Builds the content-generation URL for a model and key.
pub fn generate_content_url(model: &str, api_key: &str) -> (r: String)
    ensures
        r@ == generate_url_of(model@, api_key@),
{
    let mut out = String::new();
    out.append("https://generativelanguage.googleapis.com/v1beta/models/");
    out.append(model);
    out.append(":generateContent?key=");
    out.append(api_key);
    proof {
        assert(out@ =~= generate_url_of(model@, api_key@));
    }
    out
}

/// Builds the model-listing URL for a key.
pub fn models_list_url(api_key: &str) -> (r: String)
    ensures
        r@ == models_url_of(api_key@),
{
    let mut out = String::new();
    out.append("https://generativelanguage.googleapis.com/v1beta/models?key=");
    out.append(api_key);
    proof {
        assert(out@ =~= models_url_of(api_key@));
    }
    out
}

} // verus!
