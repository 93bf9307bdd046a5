//! What a handler knows of the backend: its address.

use crate::text::{chars_of, concat, contains, contains_str, push_str, string_of};
use vstd::prelude::*;

verus! {

/// The backend as a handler sees it.
#[derive(Debug)]
pub struct RequestContext {
    pub lmstudio_url: String,
}

/// An address with a query behind it: after `?`, or after `&` where the
/// address has a query already.
pub open spec fn with_query(base: Seq<char>, query: Option<Seq<char>>) -> Seq<char> {
    match query {
        Some(q) => if contains(base, "?"@) {
            base + "&"@ + q
        } else {
            base + "?"@ + q
        },
        None => base,
    }
}

impl RequestContext {
    /// The address of an endpoint of the backend.
    pub fn endpoint_url(&self, endpoint: &str) -> (r: String)
        ensures
            r@ == self.lmstudio_url@ + endpoint@,
    {
        concat(self.lmstudio_url.as_str(), endpoint)
    }

    /// An address with a query behind it.
    pub fn append_query_params(&self, base: String, query: Option<&str>) -> (r: String)
        ensures
            r@ == with_query(
                base@,
                match query {
                    Some(q) => Some(q@),
                    None => None,
                },
            ),
    {
        match query {
            Some(qs) => {
                let mut out = chars_of(base.as_str());
                if contains_str(&out, "?") {
                    push_str(&mut out, "&");
                } else {
                    push_str(&mut out, "?");
                }
                push_str(&mut out, qs);
                string_of(&out)
            },
            None => base,
        }
    }
}

} // verus!
