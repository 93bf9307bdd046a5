//! What the proxy makes of the backend's answers.

use crate::error::{cancelled, custom_error, internal_error, ProxyError, ProxyErrorV};
use crate::http::error::{map_reqwest_error, transport_error, TransportFailure};
use crate::json::{Json, JsonV};
use crate::text::concat;
use vstd::prelude::*;

verus! {

/// What a request to the backend ends with where no answer came: a
/// cancelled request ends as cancelled; a failed one with the error of its
/// failure.
pub fn make_request(is_cancelled: bool, failure: TransportFailure, message: &str) -> (r: ProxyError)
    ensures
        is_cancelled ==> r@ == cancelled(),
        !is_cancelled ==> r@ == transport_error(failure, message@),
{
    if is_cancelled {
        ProxyError::request_cancelled()
    } else {
        map_reqwest_error(failure, message)
    }
}

/// The message of an error answer of the backend: the `message` of its
/// `error`, or its `error` where that is a text.
pub open spec fn backend_error_message(body: JsonV) -> Option<Seq<char>> {
    match body.get("error"@) {
        Some(JsonV::Object(m)) => match JsonV::Object(m).get("message"@) {
            Some(JsonV::Str(text)) => Some(text),
            _ => None,
        },
        Some(JsonV::Str(text)) => Some(text),
        _ => None,
    }
}

/// What the proxy makes of a JSON answer of the backend: an answer of
/// success is passed on; any other becomes an error with the backend's
/// status and its message, or a word for it; an answer that is no JSON is
/// an internal error. `status_text` is the status as it reads, and
/// `body` the answer, or why it is no JSON.
pub open spec fn json_response_outcome(
    status: u16,
    status_text: Seq<char>,
    body: Result<JsonV, Seq<char>>,
) -> Result<JsonV, ProxyErrorV> {
    match body {
        Ok(value) => if 200 <= status < 300 {
            Ok(value)
        } else {
            Err(
                custom_error(
                    match backend_error_message(value) {
                        Some(message) => message,
                        None => "LM Studio error: "@ + status_text,
                    },
                    status,
                ),
            )
        },
        Err(why) => Err(internal_error("invalid JSON from LM Studio: "@ + why)),
    }
}

/// The message of an error answer of the backend.
fn backend_error_message_exec(body: &Json) -> (r: Option<String>)
    ensures
        crate::storage::virtual_models::opt_text(r) == backend_error_message(body@),
{
    match body.get("error") {
        Some(error) => {
            if error.is_object() {
                match error.get_str("message") {
                    Some(text) => Some(text.to_owned()),
                    None => None,
                }
            } else {
                match error.as_str() {
                    Some(text) => Some(text.to_owned()),
                    None => None,
                }
            }
        },
        None => None,
    }
}

/// What the proxy makes of a JSON answer of the backend.
pub fn handle_json_response(status: u16, status_text: &str, body: Result<Json, String>) -> (r:
    Result<Json, ProxyError>)
    ensures
        match (r, json_response_outcome(
            status,
            status_text@,
            match body {
                Ok(v) => Ok(v@),
                Err(why) => Err(why@),
            },
        )) {
            (Ok(value), Ok(expected)) => value@ == expected,
            (Err(e), Err(expected)) => e@ == expected,
            _ => false,
        },
{
    match body {
        Ok(value) => {
            if 200 <= status && status < 300 {
                Ok(value)
            } else {
                let message = match backend_error_message_exec(&value) {
                    Some(m) => m,
                    None => concat("LM Studio error: ", status_text),
                };
                Err(ProxyError::new(message, status))
            }
        },
        Err(why) => {
            let message = concat("invalid JSON from LM Studio: ", why.as_str());
            Err(ProxyError::internal_server_error(message.as_str()))
        },
    }
}

} // verus!
