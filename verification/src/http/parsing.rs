//! Whether the body of a request is JSON.

use crate::json::{json_parse_bytes, opt_view, Json, JsonV};
use crate::text::{
    chars_of, concat, contains, contains_str, lowercase, skip_class, skip_class_exec, to_lowercase,
    utf8_text, utf8_text_exec, CharClass,
};
use vstd::prelude::*;

verus! {

/// Whether a content type names JSON: in lowercase it holds `json`.
pub open spec fn is_json_content_type(content_type: Option<Seq<char>>) -> bool {
    match content_type {
        Some(value) => contains(lowercase(value), "json"@),
        None => false,
    }
}

/// Whether a content type that is already in lowercase names JSON.
pub fn lowercase_names_json(lower: &str) -> (r: bool)
    ensures
        r == contains(lower@, "json"@),
{
    let chars = chars_of(lower);
    contains_str(&chars, "json")
}

/// Whether the content type of a request names JSON.
pub fn contains_json_content_type(content_type: Option<&str>) -> (r: bool)
    ensures
        r == is_json_content_type(
            match content_type {
                Some(v) => Some(v@),
                None => None,
            },
        ),
{
    match content_type {
        Some(value) => {
            let lower = to_lowercase(value);
            lowercase_names_json(lower.as_str())
        },
        None => false,
    }
}

/// Whether a text looks like JSON: after its leading whitespace stands a
/// brace or a bracket.
pub open spec fn looks_like_json(text: Seq<char>) -> bool {
    let start = skip_class(text, CharClass::Whitespace, 0);
    0 <= start < text.len() && (text[start] == '{' || text[start] == '[')
}

/// Whether a body looks like JSON: it is UTF-8 and, after its leading
/// whitespace, begins with a brace or a bracket.
pub open spec fn bytes_look_like_json(body: Seq<u8>) -> bool {
    match utf8_text(body) {
        Some(text) => looks_like_json(text),
        None => false,
    }
}

/// Whether a body looks like JSON.
pub fn body_looks_like_json(body: &[u8]) -> (r: bool)
    ensures
        r == bytes_look_like_json(body@),
{
    match utf8_text_exec(body) {
        Some(text) => {
            let chars = chars_of(text);
            let start = skip_class_exec(&chars, CharClass::Whitespace, 0);
            start < chars.len() && (chars[start] == '{' || chars[start] == '[')
        },
        None => false,
    }
}

/// Whether a body is to be read as JSON: it is not empty, and its content
/// type names JSON or it looks like JSON.
pub open spec fn parses_as_json(content_type: Option<Seq<char>>, body: Seq<u8>) -> bool {
    body.len() > 0 && (is_json_content_type(content_type) || bytes_look_like_json(body))
}

/// Whether a body is to be read as JSON.
pub fn should_parse_as_json(content_type: Option<&str>, body: &[u8]) -> (r: bool)
    ensures
        r == parses_as_json(
            match content_type {
                Some(v) => Some(v@),
                None => None,
            },
            body@,
        ),
{
    if body.len() == 0 {
        return false;
    }
    if contains_json_content_type(content_type) {
        return true;
    }
    body_looks_like_json(body)
}

/// The JSON of a body that is to be read as JSON: nothing for a body that
/// is not; for one that is and is no JSON an error that carries the
/// parser's complaint.
pub open spec fn body_template(content_type: Option<Seq<char>>, body: Seq<u8>) -> Result<
    Option<JsonV>,
    Seq<char>,
> {
    if parses_as_json(content_type, body) {
        match json_parse_bytes(body) {
            Ok(value) => Ok(Some(value)),
            Err(complaint) => Err("Failed to parse JSON body: "@ + complaint),
        }
    } else {
        Ok(None)
    }
}

/// The JSON of a body that is to be read as JSON.
pub fn parse_json_body_template(content_type: Option<&str>, body: &[u8]) -> (r: Result<
    Option<Json>,
    String,
>)
    ensures
        match (r, body_template(
            match content_type {
                Some(v) => Some(v@),
                None => None,
            },
            body@,
        )) {
            (Ok(value), Ok(expected)) => opt_view(value) == expected,
            (Err(e), Err(expected)) => e@ == expected,
            _ => false,
        },
{
    if should_parse_as_json(content_type, body) {
        match Json::parse_bytes(body) {
            Ok(value) => Ok(Some(value)),
            Err(complaint) => Err(concat("Failed to parse JSON body: ", complaint.as_str())),
        }
    } else {
        Ok(None)
    }
}

} // verus!
