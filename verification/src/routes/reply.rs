//! Plain HTTP answers and the error endpoints report.

use vstd::prelude::*;
use crate::utils::web_error::WebError;
use crate::text::{decimal_digits, push_decimal, push_str};

verus! {

/// An HTTP answer: status, optional content type and body text.
#[derive(Clone, Debug, PartialEq, Eq)]
pub struct Reply {
    pub status: u16,
    pub content_type: Option<String>,
    pub body: String,
}

/// An answer with a status and a body, without a content type.
pub fn plain_reply(status: u16, body: String) -> (r: Reply)
    ensures
        r.status == status,
        r.content_type is None,
        r.body == body,
{
    Reply { status, content_type: None, body }
}

/// An answer with a status, a content type and a body.
pub fn typed_reply(status: u16, content_type: &str, body: String) -> (r: Reply)
    ensures
        r.status == status,
        r.content_type matches Some(t) && t@ == content_type@,
        r.body == body,
{
    Reply { status, content_type: Some(content_type.to_owned()), body }
}

/// The JSON string literal `serde_json::to_string` writes for a string: the
/// text in double quotes, with the characters JSON requires escaped.
pub uninterp spec fn json_string_text(s: Seq<char>) -> Seq<char>;

/// `serde_json::to_string` of a string. serde_json documents that
/// serialising fails only where a `Serialize` impl decides to fail or a map
/// has keys that are not strings; a string is neither. Claimed: the call
/// succeeds, with the text `json_string_text` names for the string.
#[verifier::external_body]
fn json_string(s: &str) -> (r: Result<String, String>)
    ensures
        r is Ok,
        r matches Ok(t) ==> t@ == json_string_text(s@),
{
    serde_json::to_string(s).map_err(|e| e.to_string())
}

/// The JSON body of an error answer, as every endpoint gives it:
/// `{"error":<message>,"code":<status>}`.
pub open spec fn spec_error_body(message: Seq<char>, status: u16) -> Seq<char> {
    "{\"error\":"@ + json_string_text(message) + ",\"code\":"@ + decimal_digits(status as nat) + "}"@
}

/// `r` is the error answer with this status and message: JSON holding the
/// message and the status.
pub open spec fn is_error_reply(r: Reply, status: u16, message: Seq<char>) -> bool {
    &&& r.status == status
    &&& r.content_type matches Some(t) && t@ == "application/json"@
    &&& r.body@ == spec_error_body(message, status)
}

/// The error answer with this status and message.
pub fn error_reply(status: u16, message: String) -> (r: Reply)
    ensures
        is_error_reply(r, status, message@),
{
    let quoted = match json_string(message.as_str()) {
        Ok(t) => t,
        Err(e) => e,
    };
    let mut body = String::from_str("{\"error\":");
    push_str(&mut body, quoted.as_str());
    push_str(&mut body, ",\"code\":");
    push_decimal(&mut body, status as u64);
    push_str(&mut body, "}");
    typed_reply(status, "application/json", body)
}

/// The error a task endpoint reports when its operation failed, with the
/// operation's message: a missing record stays "not found" (404), any other
/// failure becomes a request failure (500).
pub fn route_error(e: WebError) -> (r: WebError)
    ensures
        r.message() == e.message(),
        r.spec_status_code() == e.spec_status_code(),
        (r is NotFound) <==> (e is NotFound),
        !(e is NotFound) ==> r is ActixError,
{
    match e {
        WebError::NotFound(m) => WebError::NotFound(m),
        other => WebError::ActixError(other.to_string()),
    }
}

} // verus!
