//! The headers of the proxy's answers, and the headers that go on to the
//! backend.

use crate::constants::{
    CONTENT_TYPE_JSON, HEADER_ACCESS_CONTROL_ALLOW_HEADERS, HEADER_ACCESS_CONTROL_ALLOW_METHODS,
    HEADER_ACCESS_CONTROL_ALLOW_ORIGIN, HEADER_CACHE_CONTROL,
};
use crate::text::{decimal, decimal_string, eq_ignore_ascii_case, eq_ignore_ascii_case_exec};
use vstd::prelude::*;

verus! {

/// A header: its name and its value.
#[derive(Debug)]
pub struct Header {
    pub name: String,
    pub value: String,
}

/// What a contract says of a `Header`.
pub struct HeaderV {
    pub name: Seq<char>,
    pub value: Seq<char>,
}

impl View for Header {
    type V = HeaderV;

    open spec fn view(&self) -> HeaderV {
        HeaderV { name: self.name@, value: self.value@ }
    }
}

/// The views of a list of headers.
pub open spec fn headers_view(headers: Seq<Header>) -> Seq<HeaderV> {
    Seq::new(headers.len(), |i: int| headers[i]@)
}

/// The header with a name and a value.
pub open spec fn header(name: Seq<char>, value: Seq<char>) -> HeaderV {
    HeaderV { name, value }
}

/// The headers of a JSON answer of `content_length` bytes.
pub open spec fn json_headers(content_length: u64) -> Seq<HeaderV> {
    seq![
        header("Content-Type"@, CONTENT_TYPE_JSON@),
        header("Content-Length"@, decimal(content_length as nat)),
        header("Cache-Control"@, HEADER_CACHE_CONTROL@),
        header("Access-Control-Allow-Origin"@, HEADER_ACCESS_CONTROL_ALLOW_ORIGIN@),
        header("Access-Control-Allow-Methods"@, HEADER_ACCESS_CONTROL_ALLOW_METHODS@),
        header("Access-Control-Allow-Headers"@, HEADER_ACCESS_CONTROL_ALLOW_HEADERS@),
    ]
}

fn make_header(name: &str, value: &str) -> (r: Header)
    ensures
        r@ == header(name@, value@),
{
    Header { name: name.to_owned(), value: value.to_owned() }
}

/// The headers of a JSON answer of `content_length` bytes.
pub fn json_response(content_length: u64) -> (r: Vec<Header>)
    ensures
        headers_view(r@) == json_headers(content_length),
{
    let mut headers: Vec<Header> = Vec::new();
    headers.push(make_header("Content-Type", CONTENT_TYPE_JSON));
    headers.push(make_header("Content-Length", decimal_string(content_length).as_str()));
    headers.push(make_header("Cache-Control", HEADER_CACHE_CONTROL));
    headers.push(make_header("Access-Control-Allow-Origin", HEADER_ACCESS_CONTROL_ALLOW_ORIGIN));
    headers.push(make_header("Access-Control-Allow-Methods", HEADER_ACCESS_CONTROL_ALLOW_METHODS));
    headers.push(make_header("Access-Control-Allow-Headers", HEADER_ACCESS_CONTROL_ALLOW_HEADERS));
    assert(headers_view(headers@) =~= json_headers(content_length));
    headers
}

/// Whether a header of the client goes on to the backend: the headers that
/// belong to one hop (`host`, `content-length`, `transfer-encoding`) do
/// not, and the content type does not where the proxy sets its own.
pub open spec fn is_forwarded(name: Seq<char>, force_json: bool) -> bool {
    !eq_ignore_ascii_case(name, "host"@) && !eq_ignore_ascii_case(name, "content-length"@)
        && !eq_ignore_ascii_case(name, "transfer-encoding"@) && !(force_json
        && eq_ignore_ascii_case(name, "content-type"@))
}

/// The headers of a list that go on, in order.
pub open spec fn forwarded(headers: Seq<HeaderV>, force_json: bool) -> Seq<HeaderV>
    decreases headers.len(),
{
    if headers.len() == 0 {
        Seq::empty()
    } else if is_forwarded(headers.last().name, force_json) {
        forwarded(headers.drop_last(), force_json).push(headers.last())
    } else {
        forwarded(headers.drop_last(), force_json)
    }
}

/// The headers that go on to the backend: those of the client that go on,
/// and behind them the proxy's content type where it has rewritten the
/// body.
pub open spec fn forward_headers(headers: Seq<HeaderV>, force_json: bool) -> Seq<HeaderV> {
    if force_json {
        forwarded(headers, force_json).push(header("content-type"@, CONTENT_TYPE_JSON@))
    } else {
        forwarded(headers, force_json)
    }
}

/// Whether a header of the client goes on to the backend.
pub fn is_forwarded_exec(name: &str, force_json: bool) -> (r: bool)
    ensures
        r == is_forwarded(name@, force_json),
{
    if eq_ignore_ascii_case_exec(name, "host") || eq_ignore_ascii_case_exec(name, "content-length")
        || eq_ignore_ascii_case_exec(name, "transfer-encoding") {
        return false;
    }
    if force_json && eq_ignore_ascii_case_exec(name, "content-type") {
        return false;
    }
    true
}

/// The headers that go on to the backend.
pub fn build_forward_headers(original: &Vec<Header>, force_json: bool) -> (r: Vec<Header>)
    ensures
        headers_view(r@) == forward_headers(headers_view(original@), force_json),
{
    let ghost all = headers_view(original@);
    let mut filtered: Vec<Header> = Vec::new();
    let mut i: usize = 0;
    assert(all.take(0) =~= Seq::empty());
    assert(headers_view(filtered@) =~= Seq::empty());
    while i < original.len()
        invariant
            i <= original.len(),
            all == headers_view(original@),
            headers_view(filtered@) == forwarded(all.take(i as int), force_json),
        decreases original.len() - i,
    {
        proof {
            assert(all.take(i + 1).drop_last() == all.take(i as int));
            assert(all.take(i + 1).last() == original@[i as int]@);
        }
        if is_forwarded_exec(original[i].name.as_str(), force_json) {
            let ghost before = headers_view(filtered@);
            let copy = make_header(original[i].name.as_str(), original[i].value.as_str());
            filtered.push(copy);
            assert(headers_view(filtered@) =~= before.push(original@[i as int]@));
        }
        i = i + 1;
    }
    assert(all.take(original.len() as int) == all);
    if force_json {
        let ghost before = headers_view(filtered@);
        filtered.push(make_header("content-type", CONTENT_TYPE_JSON));
        assert(headers_view(filtered@) =~= before.push(header("content-type"@, CONTENT_TYPE_JSON@)));
    }
    filtered
}

/// Whether an answer of the backend is JSON, by its content type.
pub fn is_json_response(content_type: Option<&str>) -> (r: bool)
    ensures
        r == crate::http::parsing::is_json_content_type(
            match content_type {
                Some(v) => Some(v@),
                None => None,
            },
        ),
{
    crate::http::parsing::contains_json_content_type(content_type)
}

} // verus!
