//! What several handlers read from a request body.

use crate::json::{Json, JsonV};
use vstd::prelude::*;

verus! {

/// The system prompt of a request: the text under `system`, or else the
/// text under `system` among its `options`.
pub open spec fn system_prompt_of(body: JsonV) -> Option<Seq<char>> {
    match body.get("system"@) {
        Some(JsonV::Str(text)) => Some(text),
        _ => match body.get2("options"@, "system"@) {
            Some(JsonV::Str(text)) => Some(text),
            _ => None,
        },
    }
}

/// The system prompt of a request.
pub fn extract_system_prompt(body: &Json) -> (r: Option<String>)
    ensures
        match r {
            Some(text) => system_prompt_of(body@) == Some(text@),
            None => system_prompt_of(body@) is None,
        },
{
    match body.get_str("system") {
        Some(text) => Some(text.to_owned()),
        None => match body.get("options") {
            Some(options) => match options.get_str("system") {
                Some(text) => Some(text.to_owned()),
                None => None,
            },
            None => None,
        },
    }
}

/// Whether a request asks for a streamed answer: its `stream`, or else
/// `default`.
pub open spec fn stream_flag(body: JsonV, default: bool) -> bool {
    match body.get("stream"@) {
        Some(JsonV::Bool(b)) => b,
        _ => default,
    }
}

/// Whether a request asks for a streamed answer.
pub fn stream_flag_exec(body: &Json, default: bool) -> (r: bool)
    ensures
        r == stream_flag(body@, default),
{
    match body.get("stream") {
        Some(v) => match v.as_bool() {
            Some(b) => b,
            None => default,
        },
        None => default,
    }
}

} // verus!
