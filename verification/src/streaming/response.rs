//! The content types of streamed answers.

use crate::constants::{CONTENT_TYPE_NDJSON, CONTENT_TYPE_SSE};
use crate::error::{internal_error, ProxyError};
use vstd::prelude::*;

verus! {

/// The kind of a streamed answer.
#[derive(Debug, Clone, Copy, PartialEq, Eq, Structural)]
pub enum StreamContentType {
    /// One JSON value to a line: the streams of the Ollama surface.
    Ndjson,
    /// Server-sent events: the streams of the passthrough surface.
    Sse,
}

/// The content type of a streamed answer.
pub fn create_streaming_response(content_type: StreamContentType) -> (r: &'static str)
    ensures
        r@ == match content_type {
            StreamContentType::Ndjson => CONTENT_TYPE_NDJSON@,
            StreamContentType::Sse => CONTENT_TYPE_SSE@,
        },
{
    match content_type {
        StreamContentType::Ndjson => CONTENT_TYPE_NDJSON,
        StreamContentType::Sse => CONTENT_TYPE_SSE,
    }
}

/// The error for a streamed answer that could not be made.
pub fn create_ndjson_stream_response(error_message_on_build_fail: &str) -> (r: ProxyError)
    ensures
        r@ == internal_error(error_message_on_build_fail@),
{
    ProxyError::internal_server_error(error_message_on_build_fail)
}

} // verus!
