//! The recovery of a data line that is no JSON as it stands: a few slices
//! and repairs of it are tried in a fixed order.

use crate::json::{empty_object, json_parse, opt_view, Json, JsonV};
use crate::text::{
    chars_of, find, find_chars, find_chars_from, find_from, lemma_rfind_upto, one_char, replace,
    replace_exec, rfind, rfind_chars, string_of,
};
use vstd::prelude::*;

verus! {

/// A text that may be the JSON of a chunk; `wrap_in_choices` says that it is
/// the list of choices only.
#[derive(Debug)]
pub struct RecoveryCandidate {
    pub text: String,
    pub wrap_in_choices: bool,
}

/// What a contract says of a `RecoveryCandidate`.
pub struct RecoveryCandidateV {
    pub text: Seq<char>,
    pub wrap_in_choices: bool,
}

impl View for RecoveryCandidate {
    type V = RecoveryCandidateV;

    open spec fn view(&self) -> RecoveryCandidateV {
        RecoveryCandidateV { text: self.text@, wrap_in_choices: self.wrap_in_choices }
    }
}

/// The views of a list of candidates.
pub open spec fn candidates_view(list: Seq<RecoveryCandidate>) -> Seq<RecoveryCandidateV> {
    Seq::new(list.len(), |i: int| list[i]@)
}

/// The part of `data` from its first `open` to its last `close`, where the
/// one stands before the other.
pub open spec fn slice_between(data: Seq<char>, open: char, close: char) -> Option<Seq<char>> {
    match (find(data, seq![open]), rfind(data, seq![close])) {
        (Some(start), Some(end)) => if start < end {
            Some(data.subrange(start, end + 1))
        } else {
            None
        },
        _ => None,
    }
}

/// `data` without a comma before a line break and a closing brace or
/// bracket, and with an empty text after a colon at the end of a line.
pub open spec fn cleaned(data: Seq<char>) -> Seq<char> {
    replace(replace(replace(data, ",\n}"@, "\n}"@), ",\n]"@, "\n]"@), ":\n"@, ": \"\""@)
}

/// The list that follows the first `"choices":` of `data`: from the first
/// opening bracket after it to the last closing bracket.
pub open spec fn choices_slice(data: Seq<char>) -> Option<Seq<char>> {
    match find(data, "\"choices\":"@) {
        Some(key_at) => match find_from(data, seq!['['], key_at) {
            Some(open_at) => match rfind(data, seq![']']) {
                Some(close_at) => if open_at <= close_at {
                    Some(data.subrange(open_at, close_at + 1))
                } else {
                    None
                },
                None => None,
            },
            None => None,
        },
        None => None,
    }
}

/// A list with `text` at its end, where there is a text.
pub open spec fn with_candidate(
    list: Seq<RecoveryCandidateV>,
    text: Option<Seq<char>>,
    wrap: bool,
) -> Seq<RecoveryCandidateV> {
    match text {
        Some(t) => list.push(RecoveryCandidateV { text: t, wrap_in_choices: wrap }),
        None => list,
    }
}

/// The texts that are tried for a data line, in order: from the first brace
/// to the last; from the first bracket to the last; the line cleaned of
/// trailing commas; the list of its choices.
pub open spec fn candidates(data: Seq<char>) -> Seq<RecoveryCandidateV> {
    let braces = with_candidate(Seq::empty(), slice_between(data, '{', '}'), false);
    let brackets = with_candidate(braces, slice_between(data, '[', ']'), false);
    let repaired = with_candidate(brackets, Some(cleaned(data)), false);
    with_candidate(repaired, choices_slice(data), true)
}

/// The value of the first candidate from `from` on that is JSON; a list of
/// choices is put into an object under `choices`.
pub open spec fn first_parsed(list: Seq<RecoveryCandidateV>, from: int) -> Option<JsonV>
    decreases list.len() - from,
{
    if from < 0 || from >= list.len() {
        None
    } else {
        match json_parse(list[from].text) {
            Some(value) => Some(
                if list[from].wrap_in_choices {
                    empty_object().with("choices"@, value)
                } else {
                    value
                },
            ),
            None => first_parsed(list, from + 1),
        }
    }
}

/// The JSON that is recovered from a data line, where some candidate is
/// JSON.
pub open spec fn recovered_json(data: Seq<char>) -> Option<JsonV> {
    first_parsed(candidates(data), 0)
}

/// The part of `data` from its first `open` to its last `close`.
fn slice_between_exec(data: &Vec<char>, open: char, close: char) -> (r: Option<String>)
    ensures
        match r {
            Some(text) => slice_between(data@, open, close) == Some(text@),
            None => slice_between(data@, open, close) is None,
        },
{
    let first = find_chars(data, &one_char(open));
    let last = rfind_chars(data, &one_char(close));
    match (first, last) {
        (Some(start), Some(end)) => {
            proof {
                assert(seq![close].len() == 1);
                lemma_rfind_upto(data@, seq![close], data@.len() - 1);
                assert(crate::text::occurs_at(data@, seq![close], end as int));
            }
            let length = data.len();
            assert(end + 1 <= length);
            if start < end {
                Some(crate::text::string_of_range(data, start, end + 1))
            } else {
                None
            }
        },
        _ => None,
    }
}

/// The list that follows the first `"choices":` of `data`.
fn choices_slice_exec(data: &Vec<char>) -> (r: Option<String>)
    ensures
        match r {
            Some(text) => choices_slice(data@) == Some(text@),
            None => choices_slice(data@) is None,
        },
{
    let key = chars_of("\"choices\":");
    match find_chars(data, &key) {
        Some(key_at) => match find_chars_from(data, &one_char('['), key_at) {
            Some(open_at) => match rfind_chars(data, &one_char(']')) {
                Some(close_at) => {
                    proof {
                        assert(seq![']'].len() == 1);
                        lemma_rfind_upto(data@, seq![']'], data@.len() - 1);
                        assert(crate::text::occurs_at(data@, seq![']'], close_at as int));
                    }
                    let length = data.len();
                    assert(close_at + 1 <= length);
                    if open_at <= close_at {
                        Some(crate::text::string_of_range(data, open_at, close_at + 1))
                    } else {
                        None
                    }
                },
                None => None,
            },
            None => None,
        },
        None => None,
    }
}

/// The texts that are tried for a data line, in order.
pub fn recovery_candidates(chunk_data: &str) -> (r: Vec<RecoveryCandidate>)
    ensures
        candidates_view(r@) == candidates(chunk_data@),
{
    let data = chars_of(chunk_data);
    let mut list: Vec<RecoveryCandidate> = Vec::new();
    assert(candidates_view(list@) =~= Seq::empty());
    match slice_between_exec(&data, '{', '}') {
        Some(text) => {
            let ghost before = candidates_view(list@);
            list.push(RecoveryCandidate { text, wrap_in_choices: false });
            assert(candidates_view(list@) =~= before.push(
                RecoveryCandidateV { text: text@, wrap_in_choices: false },
            ));
        },
        None => {},
    }
    match slice_between_exec(&data, '[', ']') {
        Some(text) => {
            let ghost before = candidates_view(list@);
            list.push(RecoveryCandidate { text, wrap_in_choices: false });
            assert(candidates_view(list@) =~= before.push(
                RecoveryCandidateV { text: text@, wrap_in_choices: false },
            ));
        },
        None => {},
    }
    proof {
        reveal_strlit(",\n}");
        reveal_strlit(",\n]");
        reveal_strlit(":\n");
    }
    let first = replace_exec(&data, ",\n}", "\n}");
    let second = replace_exec(&first, ",\n]", "\n]");
    let third = replace_exec(&second, ":\n", ": \"\"");
    let ghost before = candidates_view(list@);
    let repaired = string_of(&third);
    list.push(RecoveryCandidate { text: repaired, wrap_in_choices: false });
    assert(candidates_view(list@) =~= before.push(
        RecoveryCandidateV { text: cleaned(chunk_data@), wrap_in_choices: false },
    ));
    match choices_slice_exec(&data) {
        Some(text) => {
            let ghost before = candidates_view(list@);
            list.push(RecoveryCandidate { text, wrap_in_choices: true });
            assert(candidates_view(list@) =~= before.push(
                RecoveryCandidateV { text: text@, wrap_in_choices: true },
            ));
        },
        None => {},
    }
    list
}

/// The value of the first candidate that is JSON.
pub fn first_parsed_candidate(list: &Vec<RecoveryCandidate>) -> (r: Option<Json>)
    ensures
        opt_view(r) == first_parsed(candidates_view(list@), 0),
{
    let mut i: usize = 0;
    while i < list.len()
        invariant
            i <= list.len(),
            first_parsed(candidates_view(list@), 0) == first_parsed(
                candidates_view(list@),
                i as int,
            ),
        decreases list.len() - i,
    {
        match Json::parse(list[i].text.as_str()) {
            Some(value) => {
                if list[i].wrap_in_choices {
                    let mut wrapped = Json::object();
                    wrapped.insert("choices", value);
                    return Some(wrapped);
                } else {
                    return Some(value);
                }
            },
            None => {},
        }
        i = i + 1;
    }
    None
}

/// The JSON that is recovered from a data line, where some candidate is
/// JSON.
pub fn recover_json_from_chunk(chunk_data: &str) -> (r: Option<Json>)
    ensures
        opt_view(r) == recovered_json(chunk_data@),
{
    let list = recovery_candidates(chunk_data);
    first_parsed_candidate(&list)
}

} // verus!
