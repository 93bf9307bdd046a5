//! The passthrough surface: requests for the backend's own endpoints go on
//! as they are, with the model name resolved.

use crate::constants::{ERROR_CANCELLED, ERROR_TIMEOUT};
use crate::error::{bad_request, ProxyError};
use crate::handlers::context::with_query;
use crate::handlers::ollama::download::text_member;
use crate::handlers::ollama::utils::{stream_flag, stream_flag_exec};
use crate::http::parsing::{body_template, parse_json_body_template};
use crate::json::{jstr, opt_view, Json, JsonV};
use crate::storage::virtual_models::opt_text;
use crate::text::{chars_of, concat, contains_str, push_str, string_of};
use vstd::prelude::*;

verus! {

/// A request for the passthrough surface.
#[derive(Debug)]
pub struct LmStudioPassthroughRequest {
    pub method: String,
    pub endpoint: String,
    pub body: Vec<u8>,
    pub content_type: Option<String>,
    pub query: Option<String>,
}

/// What a passthrough request says before any backend is asked.
#[derive(Debug)]
pub struct PassthroughPlan {
    /// The body as JSON, where it is to be read as JSON.
    pub json_body: Option<Json>,
    /// The model that the body names: it is resolved before the request
    /// goes on, and failures are retried for it.
    pub model: Option<String>,
    /// Whether the answer is streamed.
    pub stream: bool,
}

/// The model that a JSON body names.
pub open spec fn passthrough_model(body: Option<JsonV>) -> Option<Seq<char>> {
    match body {
        Some(b) => text_member(b, "model"@),
        None => None,
    }
}

/// Whether a JSON body asks for a streamed answer.
pub open spec fn passthrough_streams(body: Option<JsonV>) -> bool {
    match body {
        Some(b) => stream_flag(b, false),
        None => false,
    }
}

/// Whether a request asks for a streamed answer: its `stream` is `true`.
pub fn is_streaming_request(body: &Json) -> (r: bool)
    ensures
        r == stream_flag(body@, false),
{
    stream_flag_exec(body, false)
}

/// Reads a passthrough request. A body that is to be read as JSON and is
/// none is refused as a bad request.
pub fn handle_lmstudio_passthrough(request: &LmStudioPassthroughRequest) -> (r: Result<
    PassthroughPlan,
    ProxyError,
>)
    ensures
        match (r, body_template(opt_text(request.content_type), request.body@)) {
            (Ok(plan), Ok(template)) => opt_view(plan.json_body) == template && opt_text(
                plan.model,
            ) == passthrough_model(template) && plan.stream == passthrough_streams(template),
            (Err(e), Err(why)) => e@ == bad_request("Failed to parse JSON body: "@ + why),
            _ => false,
        },
{
    let content_type: Option<&str> = match &request.content_type {
        Some(value) => Some(value.as_str()),
        None => None,
    };
    match parse_json_body_template(content_type, request.body.as_slice()) {
        Ok(json_body) => {
            let model = match &json_body {
                Some(body) => crate::handlers::ollama::download::text_member_exec(body, "model"),
                None => None,
            };
            let stream = match &json_body {
                Some(body) => is_streaming_request(body),
                None => false,
            };
            Ok(PassthroughPlan { json_body, model, stream })
        },
        Err(why) => {
            let message = concat("Failed to parse JSON body: ", why.as_str());
            Err(ProxyError::bad_request(message.as_str()))
        },
    }
}

/// A JSON body with the resolved model in the place of the name.
pub fn rewrite_model(body: Json, resolved_model: &str) -> (r: Json)
    ensures
        r@ == body@.with("model"@, jstr(resolved_model@)),
{
    let mut body = body;
    body.insert("model", Json::string(resolved_model));
    body
}

/// The address that a passthrough request goes to: the backend, the
/// endpoint as it was asked for, and the query.
pub fn determine_passthrough_endpoint_url(
    lmstudio_base_url: &str,
    requested_endpoint: &str,
    query: Option<&str>,
) -> (r: String)
    ensures
        r@ == with_query(
            lmstudio_base_url@ + requested_endpoint@,
            match query {
                Some(q) => Some(q@),
                None => None,
            },
        ),
{
    let mut url = chars_of(lmstudio_base_url);
    push_str(&mut url, requested_endpoint);
    match query {
        Some(qs) => {
            if contains_str(&url, "?") {
                push_str(&mut url, "&");
            } else {
                push_str(&mut url, "?");
            }
            push_str(&mut url, qs);
        },
        None => {},
    }
    string_of(&url)
}

/// How the answer of the backend goes back to the client.
#[derive(Debug, Clone, Copy, PartialEq, Eq, Structural)]
pub enum PassthroughAnswer {
    /// Frame by frame, as server-sent events.
    Stream,
    /// Read as JSON and written as JSON.
    Json,
    /// Byte for byte.
    Raw,
}

/// How the answer of the backend goes back: a request with a JSON body
/// that asks for a stream is streamed; else an answer that is JSON is read
/// as JSON; any other goes back byte for byte, as does every answer to a
/// request without a JSON body.
pub fn forward_raw_response(has_json_body: bool, stream: bool, answer_is_json: bool) -> (r:
    PassthroughAnswer)
    ensures
        r == if !has_json_body {
            PassthroughAnswer::Raw
        } else if stream {
            PassthroughAnswer::Stream
        } else if answer_is_json {
            PassthroughAnswer::Json
        } else {
            PassthroughAnswer::Raw
        },
{
    if !has_json_body {
        PassthroughAnswer::Raw
    } else if stream {
        PassthroughAnswer::Stream
    } else if answer_is_json {
        PassthroughAnswer::Json
    } else {
        PassthroughAnswer::Raw
    }
}

/// How a passthrough stream ends before the backend ends it.
#[derive(Debug)]
pub enum PassthroughStop {
    Cancelled,
    UpstreamError(String),
    IdleTimeout,
}

/// The last frame of a passthrough stream that ends before the backend
/// ends it.
pub open spec fn passthrough_stop_frame(stop: PassthroughStop) -> Seq<char> {
    match stop {
        PassthroughStop::Cancelled => "data: {\"error\": \""@ + ERROR_CANCELLED@
            + "\", \"cancelled\": true}\n\n"@,
        PassthroughStop::UpstreamError(message) => "data: {\"error\": \"streaming error: "@
            + message@ + "\"}\n\n"@,
        PassthroughStop::IdleTimeout => "data: {\"error\": \""@ + ERROR_TIMEOUT@ + "\"}\n\n"@,
    }
}

/// The last frame of a passthrough stream that ends before the backend
/// ends it.
pub fn handle_passthrough_streaming_response(stop: &PassthroughStop) -> (r: String)
    ensures
        r@ == passthrough_stop_frame(*stop),
{
    let mut frame = chars_of("data: {\"error\": \"");
    match stop {
        PassthroughStop::Cancelled => {
            push_str(&mut frame, ERROR_CANCELLED);
            push_str(&mut frame, "\", \"cancelled\": true}\n\n");
        },
        PassthroughStop::UpstreamError(message) => {
            proof {
                reveal_strlit("data: {\"error\": \"");
                reveal_strlit("streaming error: ");
                reveal_strlit("data: {\"error\": \"streaming error: ");
                assert("data: {\"error\": \"streaming error: "@ =~= "data: {\"error\": \""@
                    + "streaming error: "@);
            }
            push_str(&mut frame, "streaming error: ");
            push_str(&mut frame, message.as_str());
            push_str(&mut frame, "\"}\n\n");
        },
        PassthroughStop::IdleTimeout => {
            push_str(&mut frame, ERROR_TIMEOUT);
            push_str(&mut frame, "\"}\n\n");
        },
    }
    string_of(&frame)
}

} // verus!
