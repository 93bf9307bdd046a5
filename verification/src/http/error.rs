//! The errors of the transport, as errors of the proxy.

use crate::constants::{ERROR_LM_STUDIO_UNAVAILABLE, ERROR_TIMEOUT};
use crate::error::{internal_error, unavailable, ProxyError, ProxyErrorV};
use crate::text::concat;
use vstd::prelude::*;

verus! {

/// How a request to the backend failed.
#[derive(Debug, Clone, Copy, PartialEq, Eq, Structural)]
pub enum TransportFailure {
    /// No connection was made.
    Connect,
    /// The request timed out.
    Timeout,
    /// The request itself was at fault.
    Request,
    /// Anything else.
    Other,
}

/// The error of the proxy for a failed request: an unavailable backend
/// where no connection was made or the request timed out, with the fixed
/// message of each; else an internal error with the transport's message.
pub open spec fn transport_error(failure: TransportFailure, message: Seq<char>) -> ProxyErrorV {
    match failure {
        TransportFailure::Connect => unavailable(ERROR_LM_STUDIO_UNAVAILABLE@),
        TransportFailure::Timeout => unavailable(ERROR_TIMEOUT@),
        _ => internal_error("LM Studio request failed: "@ + message),
    }
}

/// The error of the proxy for a failed request.
pub fn map_reqwest_error(failure: TransportFailure, message: &str) -> (r: ProxyError)
    ensures
        r@ == transport_error(failure, message@),
{
    match failure {
        TransportFailure::Connect => ProxyError::lm_studio_unavailable(ERROR_LM_STUDIO_UNAVAILABLE),
        TransportFailure::Timeout => ProxyError::lm_studio_unavailable(ERROR_TIMEOUT),
        _ => {
            let text = concat("LM Studio request failed: ", message);
            ProxyError::internal_server_error(text.as_str())
        },
    }
}

} // verus!
