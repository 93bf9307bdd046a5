//! The lines of a status stream.

use crate::json::{empty_object, jstr, Json, JsonV};
use vstd::prelude::*;

verus! {

/// The last line of a status stream that failed.
pub open spec fn status_error_chunk(model: Seq<char>, message: Seq<char>) -> JsonV {
    empty_object().with("status"@, jstr("failed"@)).with("model"@, jstr(model)).with(
        "error"@,
        jstr(message),
    )
}

/// The last line of a status stream that failed.
pub fn send_status_error_chunk(model: &str, message: &str) -> (r: Json)
    ensures
        r@ == status_error_chunk(model@, message@),
{
    let mut chunk = Json::object();
    chunk.insert("status", Json::string("failed"));
    chunk.insert("model", Json::string(model));
    chunk.insert("error", Json::string(message));
    chunk
}

/// A line of a status stream: the JSON text of the chunk and a line break.
pub fn send_status_chunk(chunk: &Json) -> (r: String)
    ensures
        r@ == crate::json::json_text(chunk@) + "\n"@,
{
    let text = chunk.to_text();
    crate::text::concat(text.as_str(), "\n")
}

} // verus!
