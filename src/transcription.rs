//! The request to the speech-to-text service, and the decoding of its answer.
use vstd::prelude::*;
use crate::cli::Language;
use crate::error::Error;

verus! {

/// The string member named `key` of the JSON object in `body`: `None` when
/// `body` is no JSON object or the member is missing or no string.
pub uninterp spec fn json_string_member(body: Seq<char>, key: Seq<char>) -> Option<Seq<char>>;

/// Relies on `serde_json::from_str` into a `serde_json::Value` and on
/// `serde_json::Map::get`: the member `key` of the top-level JSON object in
/// `body`, when it is a string.
#[verifier::external_body]
fn string_member(body: &str, key: &str) -> (r: Option<String>)
    ensures
        match r {
            Some(t) => json_string_member(body@, key@) == Some(t@),
            None => json_string_member(body@, key@) is None,
        },
{
    match serde_json::from_str::<serde_json::Value>(body) {
        Ok(serde_json::Value::Object(members)) => match members.get(key) {
            Some(serde_json::Value::String(t)) => Some(t.clone()),
            _ => None,
        },
        _ => None,
    }
}

/// The address that recordings are posted to.
pub fn endpoint() -> (r: &'static str)
    ensures
        r@ == "https://api.openai.com/v1/audio/transcriptions"@,
{
    "https://api.openai.com/v1/audio/transcriptions"
}

/// The MIME type that the recording is sent as.
pub fn audio_mime() -> (r: &'static str)
    ensures
        r@ == "audio/mpeg"@,
{
    "audio/mpeg"
}

/// The name of the form field that holds the recording.
pub fn file_field() -> (r: &'static str)
    ensures
        r@ == "file"@,
{
    "file"
}

/// The text fields of the upload form: the fixed model and the language.
pub fn form_fields(language: Language) -> (r: Vec<(String, String)>)
    ensures
        r@.len() == 2,
        r@[0].0@ == "model"@ && r@[0].1@ == "whisper-1"@,
        r@[1].0@ == "language"@ && r@[1].1@ == language.spec_code(),
{
    let mut fields: Vec<(String, String)> = Vec::new();
    fields.push((String::from_str("model"), String::from_str("whisper-1")));
    fields.push((String::from_str("language"), String::from_str(language.code())));
    fields
}

/// A success status: 2xx.
pub open spec fn is_success(status: u16) -> bool {
    200 <= status <= 299
}

/// The answer to a request, given its status, its body, and the body's `text`
/// member as read by a JSON parser. A failing status wins over the body; a
/// body without a string `text` is a parse failure that carries the body; the
/// text comes back as it is.
pub fn interpret_response(status: u16, body: &str, text: Option<String>) -> (r: Result<
    String,
    Error,
>)
    ensures
        !is_success(status) ==> (r matches Err(Error::HttpStatusFailed(s)) && s == status),
        is_success(status) ==> match text {
            Some(t) => r matches Ok(v) && v@ == t@,
            None => r matches Err(Error::ParseFailed(b)) && b@ == body@,
        },
{
    if status < 200 || status > 299 {
        return Err(Error::HttpStatusFailed(status));
    }
    match text {
        Some(t) => Ok(t),
        None => Err(Error::ParseFailed(String::from_str(body))),
    }
}

/// Decodes the service's answer: the `text` member of the JSON body of a
/// successful response.
pub fn decode_response(status: u16, body: &str) -> (r: Result<String, Error>)
    ensures
        !is_success(status) ==> (r matches Err(Error::HttpStatusFailed(s)) && s == status),
        is_success(status) ==> match json_string_member(body@, "text"@) {
            Some(t) => r matches Ok(v) && v@ == t,
            None => r matches Err(Error::ParseFailed(b)) && b@ == body@,
        },
{
    if status < 200 || status > 299 {
        return Err(Error::HttpStatusFailed(status));
    }
    let text = string_member(body, "text");
    interpret_response(status, body, text)
}

} // verus!
