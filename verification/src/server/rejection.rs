//! The answer to a request that was turned away.

use crate::json::{empty_object, jint, jstr, Json, JsonV};
use crate::text::concat;
use vstd::prelude::*;

verus! {

/// Why a request was turned away.
#[derive(Debug)]
pub enum Rejection {
    /// A handler failed with an error of the proxy.
    Proxy { message: String, status_code: u16 },
    NotFound,
    MethodNotAllowed,
    InvalidHeader,
    MissingHeader,
    PayloadTooLarge,
    /// The body could not be read, for the reason given.
    InvalidBody(String),
    UnsupportedMediaType,
    /// Anything else.
    Other,
}

/// The status that answers a rejection. An error of the proxy brings its
/// own, where that is a status at all.
pub open spec fn rejection_status(rejection: Rejection) -> u16 {
    match rejection {
        Rejection::Proxy { status_code, .. } => if 100 <= status_code <= 999 {
            status_code
        } else {
            500
        },
        Rejection::NotFound => 404,
        Rejection::MethodNotAllowed => 405,
        Rejection::InvalidHeader => 400,
        Rejection::MissingHeader => 400,
        Rejection::PayloadTooLarge => 413,
        Rejection::InvalidBody(_) => 400,
        Rejection::UnsupportedMediaType => 415,
        Rejection::Other => 500,
    }
}

/// The message that answers a rejection.
pub open spec fn rejection_message(rejection: Rejection) -> Seq<char> {
    match rejection {
        Rejection::Proxy { message, .. } => message@,
        Rejection::NotFound => "endpoint not found"@,
        Rejection::MethodNotAllowed => "method not allowed"@,
        Rejection::InvalidHeader => "invalid header"@,
        Rejection::MissingHeader => "missing required header"@,
        Rejection::PayloadTooLarge => "request body too large"@,
        Rejection::InvalidBody(why) => "invalid request body: "@ + why@,
        Rejection::UnsupportedMediaType => "unsupported media type"@,
        Rejection::Other => "internal server error"@,
    }
}

/// The body that answers a rejection: its message and its status.
pub open spec fn rejection_body(rejection: Rejection) -> JsonV {
    empty_object().with("error"@, jstr(rejection_message(rejection))).with(
        "status"@,
        jint(rejection_status(rejection) as int),
    )
}

/// The answer to a request that was turned away: its status and its body.
pub fn handle_rejection(rejection: &Rejection) -> (r: (u16, Json))
    ensures
        r.0 == rejection_status(*rejection),
        r.1@ == rejection_body(*rejection),
{
    let (status, message): (u16, String) = match rejection {
        Rejection::Proxy { message, status_code } => (
            if 100 <= *status_code && *status_code <= 999 {
                *status_code
            } else {
                500
            },
            message.clone(),
        ),
        Rejection::NotFound => (404, "endpoint not found".to_owned()),
        Rejection::MethodNotAllowed => (405, "method not allowed".to_owned()),
        Rejection::InvalidHeader => (400, "invalid header".to_owned()),
        Rejection::MissingHeader => (400, "missing required header".to_owned()),
        Rejection::PayloadTooLarge => (413, "request body too large".to_owned()),
        Rejection::InvalidBody(why) => (400, concat("invalid request body: ", why.as_str())),
        Rejection::UnsupportedMediaType => (415, "unsupported media type".to_owned()),
        Rejection::Other => (500, "internal server error".to_owned()),
    };
    let mut body = Json::object();
    body.insert("error", Json::Str(message));
    body.insert("status", Json::unsigned(status as u64));
    (status, body)
}

} // verus!
