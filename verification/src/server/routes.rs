//! The paths of the passthrough surface.

use crate::error::{bad_request, ProxyError, ProxyErrorV};
use crate::json::{json_parse_bytes, Json, JsonV};
use crate::text::{
    all_in_class, all_in_class_exec, chars_of, concat, push_str, string_of, CharClass,
};
use vstd::prelude::*;

verus! {

/// The JSON that the body of a request is, whatever its content type says:
/// an empty body and a body that is no JSON are bad requests, the latter
/// with the parser's complaint.
pub open spec fn json_body(body: Seq<u8>) -> Result<JsonV, ProxyErrorV> {
    if body.len() == 0 {
        Err(bad_request("Missing JSON body"@))
    } else {
        match json_parse_bytes(body) {
            Ok(value) => Ok(value),
            Err(complaint) => Err(bad_request("Invalid JSON payload: "@ + complaint)),
        }
    }
}

/// The JSON that the body of a request is, whatever its content type says.
pub fn tolerant_json_body(body: &[u8]) -> (r: Result<Json, ProxyError>)
    ensures
        match (r, json_body(body@)) {
            (Ok(value), Ok(expected)) => value@ == expected,
            (Err(e), Err(expected)) => e@ == expected,
            _ => false,
        },
{
    if body.len() == 0 {
        return Err(ProxyError::bad_request("Missing JSON body"));
    }
    match Json::parse_bytes(body) {
        Ok(value) => Ok(value),
        Err(complaint) => {
            let message = concat("Invalid JSON payload: ", complaint.as_str());
            Err(ProxyError::bad_request(message.as_str()))
        },
    }
}

/// Whether a path segment names a version of the backend's API: `v` and
/// one or more digits.
pub open spec fn is_api_version(segment: Seq<char>) -> bool {
    segment.len() >= 2 && segment[0] == 'v' && all_in_class(
        segment.subrange(1, segment.len() as int),
        CharClass::Digit,
    )
}

/// The endpoint of the backend that a path under `/api/` names: the
/// version and what follows it, where the first segment names a version.
pub open spec fn native_endpoint(version: Seq<char>, tail: Seq<char>) -> Option<Seq<char>> {
    if is_api_version(version) {
        if tail.len() == 0 {
            Some("/api/"@ + version)
        } else {
            Some("/api/"@ + version + "/"@ + tail)
        }
    } else {
        None
    }
}

/// The endpoint of the backend that a path under `/api/` names, or nothing
/// for a path that is not the backend's.
pub fn native_passthrough_endpoint(version: &str, tail: &str) -> (r: Option<String>)
    ensures
        crate::storage::virtual_models::opt_text(r) == native_endpoint(version@, tail@),
{
    let segment = chars_of(version);
    if segment.len() < 2 || segment[0] != 'v' || !all_in_class_exec(
        &segment,
        CharClass::Digit,
        1,
        segment.len(),
    ) {
        return None;
    }
    let mut path = chars_of("/api/");
    push_str(&mut path, version);
    let rest = chars_of(tail);
    if rest.len() > 0 {
        push_str(&mut path, "/");
        crate::text::push_chars(&mut path, &rest);
    }
    Some(string_of(&path))
}

/// The endpoint of the backend that a path under `/v1/` names.
pub fn openai_passthrough_endpoint(tail: &str) -> (r: String)
    ensures
        r@ == "/v1/"@ + tail@,
{
    crate::text::concat("/v1/", tail)
}

} // verus!
