//! The canonical form of a client's model name.

use crate::constants::ERROR_MISSING_MODEL;
use crate::error::{bad_request, ProxyError};
use crate::json::Json;
use crate::text::{
    all_in_class, all_in_class_exec, chars_of, chars_range, ends_with, ends_with_str,
    lemma_rfind_upto, rfind, rfind_chars, CharClass,
};
use vstd::prelude::*;
use vstd::string::StrSliceExecFns;

verus! {

/// `name` without a `:latest` at its end.
pub open spec fn strip_latest(name: Seq<char>) -> Seq<char> {
    if ends_with(name, ":latest"@) {
        name.subrange(0, name.len() - ":latest"@.len())
    } else {
        name
    }
}

/// Whether `name` ends in a colon, not at its start, followed by one or
/// more digits and nothing else.
pub open spec fn has_numeric_tag(name: Seq<char>) -> bool {
    rfind(name, ":"@) matches Some(colon) && colon > 0 && colon + 1 < name.len() && all_in_class(
        name.subrange(colon + 1, name.len() as int),
        CharClass::Digit,
    )
}

/// `name` without its numeric tag, where it has one.
pub open spec fn strip_numeric_tag(name: Seq<char>) -> Seq<char> {
    if has_numeric_tag(name) {
        name.subrange(0, rfind(name, ":"@)->0)
    } else {
        name
    }
}

/// The canonical form of a model name: without a `:latest` at its end, and
/// then without a numeric tag.
pub open spec fn canonical_name(name: Seq<char>) -> Seq<char> {
    strip_numeric_tag(strip_latest(name))
}

/// Whether a name holds nothing that canonicalising would take away.
pub open spec fn is_canonical(name: Seq<char>) -> bool {
    !ends_with(name, ":latest"@) && !has_numeric_tag(name)
}

/// Whether a name holds at most one colon.
pub open spec fn at_most_one_colon(name: Seq<char>) -> bool {
    forall|i: int, j: int|
        0 <= i < name.len() && 0 <= j < name.len() && name[i] == ':' && name[j] == ':' ==> i == j
}

/// A name that holds nothing to take away is its own canonical form.
pub proof fn lemma_canonical_fixed(name: Seq<char>)
    requires
        is_canonical(name),
    ensures
        canonical_name(name) == name,
{
}

/// Canonicalising twice gives what canonicalising once gives, for every name
/// whose canonical form ends in no further `:latest` and no numeric tag.
pub proof fn lemma_canonical_idempotent(name: Seq<char>)
    requires
        is_canonical(canonical_name(name)),
    ensures
        canonical_name(canonical_name(name)) == canonical_name(name),
{
    lemma_canonical_fixed(canonical_name(name));
}

/// A text without a colon ends in no `:latest` and has no numeric tag.
proof fn lemma_no_colon_is_canonical(name: Seq<char>)
    requires
        forall|i: int| 0 <= i < name.len() ==> name[i] != ':',
    ensures
        is_canonical(name),
{
    reveal_strlit(":latest");
    reveal_strlit(":");
    if ends_with(name, ":latest"@) {
        let at = name.len() - 7;
        assert(name.subrange(at, at + 7)[0] == ':');
        assert(name[at] == ':');
    }
    lemma_rfind_upto(name, ":"@, name.len() - 1);
    if rfind(name, ":"@) is Some {
        let at = rfind(name, ":"@)->0;
        assert(name.subrange(at, at + 1)[0] == ':');
        assert(name[at] == ':');
    }
}

/// The canonical form of a name of the usual shape, `family` or
/// `family:tag`, holds nothing more to take away: on such names
/// canonicalising is idempotent.
pub proof fn lemma_one_colon_canonical(name: Seq<char>)
    requires
        at_most_one_colon(name),
    ensures
        is_canonical(canonical_name(name)),
        canonical_name(canonical_name(name)) == canonical_name(name),
{
    reveal_strlit(":latest");
    reveal_strlit(":");
    let after = strip_latest(name);
    if ends_with(name, ":latest"@) {
        let at = name.len() - 7;
        assert(name.subrange(at, at + 7)[0] == ':');
        assert(name[at] == ':');
        assert forall|i: int| 0 <= i < after.len() implies after[i] != ':' by {
            assert(after[i] == name[i]);
        }
        lemma_no_colon_is_canonical(after);
        lemma_canonical_fixed(after);
    } else {
        assert(after == name);
        if has_numeric_tag(name) {
            lemma_rfind_upto(name, ":"@, name.len() - 1);
            let colon = rfind(name, ":"@)->0;
            assert(name.subrange(colon, colon + 1)[0] == ':');
            assert(name[colon] == ':');
            let cut = name.subrange(0, colon);
            assert forall|i: int| 0 <= i < cut.len() implies cut[i] != ':' by {
                assert(cut[i] == name[i]);
            }
            lemma_no_colon_is_canonical(cut);
        }
    }
    lemma_canonical_idempotent(name);
}

/// The number of characters that the canonical form of `chars` keeps.
fn canonical_len(chars: &Vec<char>) -> (r: usize)
    ensures
        r <= chars.len(),
        chars@.subrange(0, r as int) == canonical_name(chars@),
{
    let colon = chars_of(":");
    proof {
        reveal_strlit(":latest");
    }
    let after_len: usize = if ends_with_str(chars, ":latest") {
        chars.len() - 7
    } else {
        chars.len()
    };
    let after = chars_range(chars, 0, after_len);
    assert(after@ == strip_latest(chars@)) by {
        assert(chars@.subrange(0, chars@.len() as int) == chars@);
    }
    proof {
        reveal_strlit(":");
        lemma_rfind_upto(after@, ":"@, after@.len() - 1);
    }
    match rfind_chars(&after, &colon) {
        Some(at) => {
            if at > 0 && at + 1 < after.len() && all_in_class_exec(
                &after,
                CharClass::Digit,
                at + 1,
                after.len(),
            ) {
                assert(after@.subrange(0, at as int) == chars@.subrange(0, at as int));
                at
            } else {
                after_len
            }
        },
        None => after_len,
    }
}

/// The canonical form of a model name.
pub fn clean_model_name(name: &str) -> (r: &str)
    ensures
        r@ == canonical_name(name@),
{
    let chars = chars_of(name);
    let keep = canonical_len(&chars);
    name.substring_char(0, keep)
}

/// The model name that a request body gives: the text under `model`, which
/// has to be there and not empty.
pub fn extract_required_model_name(body: &Json) -> (r: Result<&str, ProxyError>)
    ensures
        match r {
            Ok(name) => body@.get("model"@) matches Some(v) && v.as_str() == Some(name@)
                && name@.len() > 0,
            Err(e) => e@ == bad_request(ERROR_MISSING_MODEL@) && !(body@.get("model"@) matches Some(
                v,
            ) && v.as_str() matches Some(s) && s.len() > 0),
        },
{
    match body.get_str("model") {
        Some(name) => {
            if name.unicode_len() > 0 {
                Ok(name)
            } else {
                Err(ProxyError::bad_request(ERROR_MISSING_MODEL))
            }
        },
        None => Err(ProxyError::bad_request(ERROR_MISSING_MODEL)),
    }
}

} // verus!
