//! The command/result protocol exchanged with the worker process.
//!
//! Requests travel as plain command-line arguments; results come back
//! as the worker's standard output, which must be a JSON object. The
//! transcribe invocation must carry a `text` string member; the
//! microphone probe reports a `microphone_available` or `success`
//! boolean. JSON itself is read by serde_json behind the trusted items
//! below. Each extraction is a function of the stdout text alone, so
//! its result bears a name, and the protocol decisions on top of the
//! names are verified.

use vstd::prelude::*;

verus! {

/// Whether serde_json accepts the text as a single JSON value
/// (surrounding whitespace included). `serde_json::from_str` is a
/// function of the input text alone, so the outcome deserves a name.
pub uninterp spec fn json_parses(s: Seq<char>) -> bool;

/// The `text` string member of the JSON object the text parses to:
/// `Some` exactly when the text is a JSON object whose `text` member is
/// a string, and then that string. A function of the text alone.
pub uninterp spec fn text_member_of(s: Seq<char>) -> Option<Seq<char>>;

/// The `microphone_available` boolean member of the JSON object the
/// text parses to, `None` when the text is not a JSON object, the
/// member is absent, or it is not a boolean. A function of the text
/// alone.
pub uninterp spec fn mic_member_of(s: Seq<char>) -> Option<bool>;

/// The `success` boolean member, under the same reading as
/// `mic_member_of`.
pub uninterp spec fn success_member_of(s: Seq<char>) -> Option<bool>;

/// An extracted text, seen as the sequence it carries.
pub open spec fn decoded_view(decoded: Option<String>) -> Option<Seq<char>> {
    match decoded {
        Some(text) => Some(text@),
        None => None,
    }
}

/// Relies on serde_json::from_str: whether the text parses as one JSON
/// value depends on the text alone, and parse failure is an error, not
/// a panic, at any nesting depth.
#[verifier::external_body]
fn json_accepts(s: &str) -> (r: bool)
    ensures
        r == json_parses(s@),
{
    serde_json::from_str::<serde_json::Value>(s).is_ok()
}

/// Relies on serde_json::from_str, Value::get and Value::as_str: the
/// `text` string member of the parsed object is a function of the text
/// alone, present only when the text parses at all.
#[verifier::external_body]
fn extract_text_member(s: &str) -> (r: Option<String>)
    ensures
        decoded_view(r) == text_member_of(s@),
        r is Some ==> json_parses(s@),
{
    serde_json::from_str::<serde_json::Value>(s).ok().and_then(
        |v| v.get("text").and_then(|m| m.as_str()).map(|t| t.to_string()),
    )
}

/// Relies on serde_json::from_str, Value::get and Value::as_bool: the
/// `microphone_available` boolean member of the parsed object is a
/// function of the text alone, present only when the text parses.
#[verifier::external_body]
fn extract_mic_member(s: &str) -> (r: Option<bool>)
    ensures
        r == mic_member_of(s@),
        r is Some ==> json_parses(s@),
{
    serde_json::from_str::<serde_json::Value>(s).ok().and_then(
        |v| v.get("microphone_available").and_then(|m| m.as_bool()),
    )
}

/// Relies on serde_json::from_str, Value::get and Value::as_bool: the
/// `success` boolean member of the parsed object is a function of the
/// text alone, present only when the text parses.
#[verifier::external_body]
fn extract_success_member(s: &str) -> (r: Option<bool>)
    ensures
        r == success_member_of(s@),
        r is Some ==> json_parses(s@),
{
    serde_json::from_str::<serde_json::Value>(s).ok().and_then(
        |v| v.get("success").and_then(|m| m.as_bool()),
    )
}

/// Whether the text parses as JSON at all: the one check owed to a
/// worker response that passes through unread, as the model listing
/// does.
pub fn json_document_accepted(s: &str) -> (r: bool)
    ensures
        r == json_parses(s@),
{
    json_accepts(s)
}

/// Decodes the transcribe invocation's stdout: exactly the `text`
/// string member of the JSON object, and `None` for any other shape,
/// which the controller surfaces as `MalformedResult`.
pub fn decode_transcription(stdout: &str) -> (r: Option<String>)
    ensures
        decoded_view(r) == text_member_of(stdout@),
        r is Some ==> json_parses(stdout@),
{
    extract_text_member(stdout)
}

/// The microphone verdict read from the probe's two members: the
/// direct `microphone_available` boolean where present, else the
/// `success` boolean as a fallback proxy, else `false` for an
/// unexpected shape.
pub open spec fn mic_verdict(direct: Option<bool>, fallback: Option<bool>) -> bool {
    match direct {
        Some(b) => b,
        None => match fallback {
            Some(b) => b,
            None => false,
        },
    }
}

/// Decodes the microphone probe's stdout. `None` reports stdout that is
/// not JSON at all; any parseable stdout yields exactly the verdict of
/// `mic_verdict` over its two named members.
pub fn decode_microphone_check(stdout: &str) -> (r: Option<bool>)
    ensures
        r is Some <==> json_parses(stdout@),
        json_parses(stdout@) ==> r == Some(
            mic_verdict(mic_member_of(stdout@), success_member_of(stdout@)),
        ),
{
    if !json_accepts(stdout) {
        return None;
    }
    match extract_mic_member(stdout) {
        Some(b) => Some(b),
        None => match extract_success_member(stdout) {
            Some(b) => Some(b),
            None => Some(false),
        },
    }
}

/// The record invocation's argument list: the mode word, then the
/// output path the worker must write its capture to.
pub fn record_args(output_path: &str) -> (r: Vec<String>)
    ensures
        r@.len() == 2,
        r@[0]@ == "record"@,
        r@[1]@ == output_path@,
{
    let mut args: Vec<String> = Vec::new();
    args.push(String::from_str("record"));
    args.push(String::from_str(output_path));
    args
}

/// The transcribe invocation's argument list: the mode word, the
/// captured audio file, and the model identifier.
pub fn transcribe_args(input_path: &str, model: &str) -> (r: Vec<String>)
    ensures
        r@.len() == 3,
        r@[0]@ == "transcribe"@,
        r@[1]@ == input_path@,
        r@[2]@ == model@,
{
    let mut args: Vec<String> = Vec::new();
    args.push(String::from_str("transcribe"));
    args.push(String::from_str(input_path));
    args.push(String::from_str(model));
    args
}

} // verus!
