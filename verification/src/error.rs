//! The proxy's error type and the classifier of "model is still loading"
//! messages.

use crate::constants::ERROR_CANCELLED;
use crate::text::{
    chars_of, concat, concat3, contains, contains_str, decimal, decimal_string, lowercase,
    to_lowercase,
};
use vstd::prelude::*;

verus! {

/// The kinds of error, independent of transport.
#[derive(Debug, Clone, Copy, PartialEq, Eq, Structural)]
pub enum ProxyErrorKind {
    RequestCancelled,
    InternalServerError,
    BadRequest,
    NotFound,
    NotImplemented,
    LMStudioUnavailable,
    Custom,
}

/// An error of the proxy: a message, the HTTP status that goes with it, and
/// its kind.
#[derive(Debug)]
pub struct ProxyError {
    pub message: String,
    pub status_code: u16,
    pub kind: ProxyErrorKind,
}

/// What a contract says of a `ProxyError`.
pub struct ProxyErrorV {
    pub message: Seq<char>,
    pub status_code: u16,
    pub kind: ProxyErrorKind,
}

impl View for ProxyError {
    type V = ProxyErrorV;

    open spec fn view(&self) -> ProxyErrorV {
        ProxyErrorV { message: self.message@, status_code: self.status_code, kind: self.kind }
    }
}

/// The error of the given kind with its fixed status.
pub open spec fn error_of(kind: ProxyErrorKind, message: Seq<char>) -> ProxyErrorV {
    ProxyErrorV {
        message,
        status_code: match kind {
            ProxyErrorKind::RequestCancelled => 499,
            ProxyErrorKind::InternalServerError => 500,
            ProxyErrorKind::BadRequest => 400,
            ProxyErrorKind::NotFound => 404,
            ProxyErrorKind::NotImplemented => 501,
            ProxyErrorKind::LMStudioUnavailable => 503,
            ProxyErrorKind::Custom => 500,
        },
        kind,
    }
}

/// The bad-request error with `message`.
pub open spec fn bad_request(message: Seq<char>) -> ProxyErrorV {
    error_of(ProxyErrorKind::BadRequest, message)
}

/// The not-found error with `message`.
pub open spec fn not_found(message: Seq<char>) -> ProxyErrorV {
    error_of(ProxyErrorKind::NotFound, message)
}

/// The not-implemented error with `message`.
pub open spec fn not_implemented(message: Seq<char>) -> ProxyErrorV {
    error_of(ProxyErrorKind::NotImplemented, message)
}

/// The internal error with `message`.
pub open spec fn internal_error(message: Seq<char>) -> ProxyErrorV {
    error_of(ProxyErrorKind::InternalServerError, message)
}

/// The backend-unavailable error with `message`.
pub open spec fn unavailable(message: Seq<char>) -> ProxyErrorV {
    error_of(ProxyErrorKind::LMStudioUnavailable, message)
}

/// The cancellation error.
pub open spec fn cancelled() -> ProxyErrorV {
    error_of(ProxyErrorKind::RequestCancelled, ERROR_CANCELLED@)
}

/// The error with a status of the caller's choice.
pub open spec fn custom_error(message: Seq<char>, status_code: u16) -> ProxyErrorV {
    ProxyErrorV { message, status_code, kind: ProxyErrorKind::Custom }
}

impl Clone for ProxyError {
    fn clone(&self) -> (r: ProxyError)
        ensures
            r@ == self@,
    {
        ProxyError {
            message: self.message.clone(),
            status_code: self.status_code,
            kind: self.kind,
        }
    }
}

impl ProxyError {
    /// An error with a status of the caller's choice.
    pub fn new(message: String, status_code: u16) -> (r: ProxyError)
        ensures
            r@ == custom_error(message@, status_code),
    {
        ProxyError { message, status_code, kind: ProxyErrorKind::Custom }
    }

    /// An internal error: status 500.
    pub fn internal_server_error(message: &str) -> (r: ProxyError)
        ensures
            r@ == internal_error(message@),
    {
        ProxyError {
            message: message.to_owned(),
            status_code: 500,
            kind: ProxyErrorKind::InternalServerError,
        }
    }

    /// A bad request: status 400.
    pub fn bad_request(message: &str) -> (r: ProxyError)
        ensures
            r@ == bad_request(message@),
    {
        ProxyError { message: message.to_owned(), status_code: 400, kind: ProxyErrorKind::BadRequest }
    }

    /// Something that is not there: status 404.
    pub fn not_found(message: &str) -> (r: ProxyError)
        ensures
            r@ == not_found(message@),
    {
        ProxyError { message: message.to_owned(), status_code: 404, kind: ProxyErrorKind::NotFound }
    }

    /// Something that the proxy does not do: status 501.
    pub fn not_implemented(message: &str) -> (r: ProxyError)
        ensures
            r@ == not_implemented(message@),
    {
        ProxyError {
            message: message.to_owned(),
            status_code: 501,
            kind: ProxyErrorKind::NotImplemented,
        }
    }

    /// A request that its client cancelled: status 499, with the fixed message.
    pub fn request_cancelled() -> (r: ProxyError)
        ensures
            r@ == cancelled(),
    {
        ProxyError {
            message: ERROR_CANCELLED.to_owned(),
            status_code: 499,
            kind: ProxyErrorKind::RequestCancelled,
        }
    }

    /// A backend that cannot be reached: status 503.
    pub fn lm_studio_unavailable(message: &str) -> (r: ProxyError)
        ensures
            r@ == unavailable(message@),
    {
        ProxyError {
            message: message.to_owned(),
            status_code: 503,
            kind: ProxyErrorKind::LMStudioUnavailable,
        }
    }

    /// Whether this is a cancellation.
    pub fn is_cancelled(&self) -> (r: bool)
        ensures
            r == (self.kind == ProxyErrorKind::RequestCancelled),
    {
        self.kind == ProxyErrorKind::RequestCancelled
    }

    /// Whether this says that the backend cannot be reached.
    pub fn is_lm_studio_unavailable(&self) -> (r: bool)
        ensures
            r == (self.kind == ProxyErrorKind::LMStudioUnavailable),
    {
        self.kind == ProxyErrorKind::LMStudioUnavailable
    }

    /// The error as one line of text: its status, then its message.
    pub fn to_text(&self) -> (r: String)
        ensures
            r@ == "ProxyError "@ + decimal(self.status_code as nat) + ": "@ + self.message@,
    {
        let status = decimal_string(self.status_code as u64);
        let head = concat3("ProxyError ", status.as_str(), ": ");
        concat(head.as_str(), self.message.as_str())
    }
}

/// Whether a lowercase text holds one of the phrases by which a backend says
/// that a model is not loaded yet.
pub open spec fn has_loading_phrase(lower: Seq<char>) -> bool {
    ||| contains(lower, "loading model"@)
    ||| contains(lower, "model loading"@)
    ||| contains(lower, "model is loading"@)
    ||| contains(lower, "loading the model"@)
    ||| contains(lower, "model not loaded"@)
    ||| contains(lower, "not loaded"@)
    ||| contains(lower, "model unavailable"@)
    ||| contains(lower, "model not available"@)
    ||| contains(lower, "model not found"@)
    ||| contains(lower, "no model"@)
    ||| contains(lower, "invalid model"@)
    ||| contains(lower, "unknown model"@)
    ||| contains(lower, "failed to load"@)
    ||| contains(lower, "loading failed"@)
    ||| contains(lower, "model error"@)
    ||| contains(lower, "is not embedding"@)
    ||| contains(lower, "model initialization"@)
    ||| contains(lower, "initializing model"@)
    ||| contains(lower, "warming up model"@)
    ||| contains(lower, "model startup"@)
    ||| contains(lower, "preparing model"@)
    ||| contains(lower, "model not ready"@)
}

/// Whether a lowercase text holds a word of negation or failure.
pub open spec fn has_negative_token(lower: Seq<char>) -> bool {
    ||| contains(lower, "no"@)
    ||| contains(lower, "not"@)
    ||| contains(lower, "missing"@)
    ||| contains(lower, "invalid"@)
    ||| contains(lower, "unknown"@)
    ||| contains(lower, "failed"@)
    ||| contains(lower, "unavailable"@)
    ||| contains(lower, "unreachable"@)
}

/// Whether a lowercase text holds a word that speaks of a model or its
/// loading.
pub open spec fn has_model_token(lower: Seq<char>) -> bool {
    ||| contains(lower, "model"@)
    ||| contains(lower, "load"@)
    ||| contains(lower, "available"@)
    ||| contains(lower, "ready"@)
    ||| contains(lower, "initialize"@)
}

/// Whether a lowercase text holds a hint of a failed transport.
pub open spec fn has_transport_hint(lower: Seq<char>) -> bool {
    ||| contains(lower, "service unavailable"@)
    ||| contains(lower, "server error"@)
    ||| contains(lower, "internal error"@)
    ||| contains(lower, "timeout"@)
    ||| contains(lower, "connection"@)
    ||| contains(lower, "503"@)
    ||| contains(lower, "500"@)
}

/// Whether a lowercase error text reads as "the model is still loading".
pub open spec fn is_loading_text(lower: Seq<char>) -> bool {
    has_loading_phrase(lower) || (has_negative_token(lower) && has_model_token(lower))
        || has_transport_hint(lower)
}

/// Classifies an error text that is already in lowercase.
pub fn is_loading_text_exec(lower: &str) -> (r: bool)
    ensures
        r == is_loading_text(lower@),
{
    let text = chars_of(lower);
    let phrase = contains_str(&text, "loading model") || contains_str(&text, "model loading")
        || contains_str(&text, "model is loading") || contains_str(&text, "loading the model")
        || contains_str(&text, "model not loaded") || contains_str(&text, "not loaded")
        || contains_str(&text, "model unavailable") || contains_str(&text, "model not available")
        || contains_str(&text, "model not found") || contains_str(&text, "no model")
        || contains_str(&text, "invalid model") || contains_str(&text, "unknown model")
        || contains_str(&text, "failed to load") || contains_str(&text, "loading failed")
        || contains_str(&text, "model error") || contains_str(&text, "is not embedding")
        || contains_str(&text, "model initialization") || contains_str(
        &text,
        "initializing model",
    ) || contains_str(&text, "warming up model") || contains_str(&text, "model startup")
        || contains_str(&text, "preparing model") || contains_str(&text, "model not ready");
    if phrase {
        return true;
    }
    let negative = contains_str(&text, "no") || contains_str(&text, "not") || contains_str(
        &text,
        "missing",
    ) || contains_str(&text, "invalid") || contains_str(&text, "unknown") || contains_str(
        &text,
        "failed",
    ) || contains_str(&text, "unavailable") || contains_str(&text, "unreachable");
    let model = contains_str(&text, "model") || contains_str(&text, "load") || contains_str(
        &text,
        "available",
    ) || contains_str(&text, "ready") || contains_str(&text, "initialize");
    let transport = contains_str(&text, "service unavailable") || contains_str(
        &text,
        "server error",
    ) || contains_str(&text, "internal error") || contains_str(&text, "timeout")
        || contains_str(&text, "connection") || contains_str(&text, "503") || contains_str(
        &text,
        "500",
    );
    (negative && model) || transport
}

/// Whether an error message reads as "the model is still loading": the
/// classifier applied to the message in lowercase.
pub fn is_model_loading_error(message: &str) -> (r: bool)
    ensures
        r == is_loading_text(lowercase(message@)),
{
    let lower = to_lowercase(message);
    is_loading_text_exec(lower.as_str())
}

} // verus!
