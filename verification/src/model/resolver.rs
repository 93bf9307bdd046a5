//! The resolver: from a client's model name to the id of a backend model.
//!
//! The backend's model list and the cache of earlier answers are reached by
//! the caller; the functions here decide what is looked up, which model
//! matches, what is remembered and what fails.

use crate::constants::{ERROR_LM_STUDIO_UNAVAILABLE, LM_STUDIO_NATIVE_MODELS};
use crate::error::{custom_error, not_found, ProxyError, ProxyErrorV};
use crate::model::types::{model_of, ModelInfo, ModelInfoV, NativeModelData};
use crate::model::utils::{canonical_name, clean_model_name};
use crate::text::{
    byte_len, byte_len_exec, chars_eq, chars_eq_str, chars_of, concat, contains, contains_chars,
    contains_str, lowercase, occurs_at_exec, pieces_view, push_str, split_class, split_class_exec,
    starts_with, str_byte_len, string_of, to_lowercase, CharClass,
};
use vstd::prelude::*;

verus! {

/// The pieces of `pieces` that are longer than one character.
pub open spec fn long_pieces(pieces: Seq<Seq<char>>) -> Seq<Seq<char>>
    decreases pieces.len(),
{
    if pieces.len() == 0 {
        Seq::empty()
    } else if pieces.last().len() > 1 {
        long_pieces(pieces.drop_last()).push(pieces.last())
    } else {
        long_pieces(pieces.drop_last())
    }
}

/// The parts of a model id: what stands between the characters `-_:./` and
/// the space, without the parts of one character or none.
pub open spec fn id_parts(id: Seq<char>) -> Seq<Seq<char>> {
    long_pieces(split_class(id, CharClass::IdSeparator))
}

/// What a part of the query and a part of a candidate's id add to the score.
pub open spec fn pair_score(query_part: Seq<char>, model_part: Seq<char>) -> nat {
    if query_part == model_part {
        2 * byte_len(query_part)
    } else if contains(model_part, query_part) || contains(query_part, model_part) {
        if byte_len(query_part) <= byte_len(model_part) {
            byte_len(query_part)
        } else {
            byte_len(model_part)
        }
    } else {
        0
    }
}

/// What one part of the query adds against all parts of a candidate's id.
pub open spec fn row_score(query_part: Seq<char>, model_parts: Seq<Seq<char>>) -> nat
    decreases model_parts.len(),
{
    if model_parts.len() == 0 {
        0
    } else {
        row_score(query_part, model_parts.drop_last()) + pair_score(query_part, model_parts.last())
    }
}

/// What all parts of the query add against all parts of a candidate's id.
pub open spec fn parts_score(query_parts: Seq<Seq<char>>, model_parts: Seq<Seq<char>>) -> nat
    decreases query_parts.len(),
{
    if query_parts.len() == 0 {
        0
    } else {
        parts_score(query_parts.drop_last(), model_parts) + row_score(
            query_parts.last(),
            model_parts,
        )
    }
}

/// What the model's class adds where the query names a matching use.
pub open spec fn class_score(query: Seq<char>, model_type: Seq<char>) -> nat {
    (if model_type == "llm"@ && (contains(query, "chat"@) || contains(query, "instruct"@)) {
        3nat
    } else {
        0nat
    }) + (if model_type == "vlm"@ && (contains(query, "vision"@) || contains(query, "llava"@)) {
        3nat
    } else {
        0nat
    }) + (if model_type == "embeddings"@ && contains(query, "embed"@) {
        3nat
    } else {
        0nat
    })
}

/// A candidate as the matching policy reads it: its id and its
/// architecture in lowercase, the bytes of its id as written, its class,
/// and whether it is loaded.
#[derive(Debug)]
pub struct Candidate {
    pub id_lower: String,
    pub id_bytes: usize,
    pub arch_lower: String,
    pub model_type: String,
    pub is_loaded: bool,
}

/// What a contract says of a `Candidate`.
pub struct CandidateV {
    pub id_lower: Seq<char>,
    pub id_bytes: nat,
    pub arch_lower: Seq<char>,
    pub model_type: Seq<char>,
    pub is_loaded: bool,
}

impl View for Candidate {
    type V = CandidateV;

    open spec fn view(&self) -> CandidateV {
        CandidateV {
            id_lower: self.id_lower@,
            id_bytes: self.id_bytes as nat,
            arch_lower: self.arch_lower@,
            model_type: self.model_type@,
            is_loaded: self.is_loaded,
        }
    }
}

/// The views of a list of candidates.
pub open spec fn candidates_view(list: Seq<Candidate>) -> Seq<CandidateV> {
    Seq::new(list.len(), |i: int| list[i]@)
}

/// The candidate that a model is.
pub open spec fn candidate_of(model: ModelInfoV) -> CandidateV {
    CandidateV {
        id_lower: lowercase(model.id),
        id_bytes: byte_len(model.id),
        arch_lower: lowercase(model.arch),
        model_type: model.model_type,
        is_loaded: model.is_loaded,
    }
}

/// The candidates that the models of a list are.
pub open spec fn candidates_of(models: Seq<ModelInfo>) -> Seq<CandidateV> {
    Seq::new(models.len(), |i: int| candidate_of(models[i]@))
}

/// The score of a candidate for a query; `query_lower` is the query in
/// lowercase once more. Equal parts of the two ids count twice their
/// length and parts that hold one another the length of the shorter; an
/// architecture that holds the query counts 5, a class that fits the use
/// that the query names 3, a loaded candidate 2, and an id that begins
/// with the query the length of the query.
pub open spec fn candidate_score(query: Seq<char>, query_lower: Seq<char>, c: CandidateV) -> nat {
    parts_score(id_parts(query), id_parts(c.id_lower)) + (if contains(c.arch_lower, query_lower) {
        5nat
    } else {
        0nat
    }) + class_score(query, c.model_type) + (if c.is_loaded {
        2nat
    } else {
        0nat
    }) + (if starts_with(c.id_lower, query) {
        byte_len(query)
    } else {
        0nat
    })
}

/// The score of a model for a query in lowercase.
pub open spec fn match_score(query: Seq<char>, model: ModelInfoV) -> nat {
    candidate_score(query, lowercase(query), candidate_of(model))
}

/// A count held to what 64 bits can say.
pub open spec fn capped(n: nat) -> u64 {
    if n > u64::MAX {
        u64::MAX
    } else {
        n as u64
    }
}

/// Whether candidate `i` has the id of the query.
pub open spec fn is_exact(query: Seq<char>, list: Seq<CandidateV>, i: int) -> bool {
    list[i].id_lower == query
}

/// Whether candidate `i` holds the query in its id and the query is long
/// enough to mean it: longer than half the id, or longer than ten bytes.
pub open spec fn is_substring(query: Seq<char>, list: Seq<CandidateV>, i: int) -> bool {
    contains(list[i].id_lower, query) && (byte_len(query) > list[i].id_bytes / 2 || byte_len(query)
        > 10)
}

/// The score of candidate `i`, held to 64 bits.
pub open spec fn score_at(
    query: Seq<char>,
    query_lower: Seq<char>,
    list: Seq<CandidateV>,
    i: int,
) -> u64 {
    capped(candidate_score(query, query_lower, list[i]))
}

/// Whether candidate `i` has the best score: at least 3, no candidate has
/// more, and none before it has as much.
pub open spec fn is_best_scored(
    query: Seq<char>,
    query_lower: Seq<char>,
    list: Seq<CandidateV>,
    i: int,
) -> bool {
    &&& score_at(query, query_lower, list, i) >= 3
    &&& forall|j: int|
        0 <= j < list.len() ==> score_at(query, query_lower, list, j) <= score_at(
            query,
            query_lower,
            list,
            i,
        )
    &&& forall|j: int|
        0 <= j < i ==> score_at(query, query_lower, list, j) < score_at(
            query,
            query_lower,
            list,
            i,
        )
}

/// Whether `choice` is what the matching policy picks among candidates
/// for a query: the first exact match; else the first substring match;
/// else the best scored candidate; else nothing.
pub open spec fn is_choice(
    query: Seq<char>,
    query_lower: Seq<char>,
    list: Seq<CandidateV>,
    choice: Option<int>,
) -> bool {
    match choice {
        Some(i) => {
            &&& 0 <= i < list.len()
            &&& if exists|j: int| 0 <= j < list.len() && is_exact(query, list, j) {
                is_exact(query, list, i) && forall|j: int| 0 <= j < i ==> !is_exact(query, list, j)
            } else if exists|j: int| 0 <= j < list.len() && is_substring(query, list, j) {
                is_substring(query, list, i) && forall|j: int|
                    0 <= j < i ==> !is_substring(query, list, j)
            } else {
                is_best_scored(query, query_lower, list, i)
            }
        },
        None => forall|j: int|
            0 <= j < list.len() ==> !is_exact(query, list, j) && !is_substring(query, list, j)
                && score_at(query, query_lower, list, j) < 3,
    }
}

/// Whether `choice` is what the matching policy picks among models for a
/// query in lowercase.
pub open spec fn is_match(query: Seq<char>, models: Seq<ModelInfo>, choice: Option<int>) -> bool {
    is_choice(query, lowercase(query), candidates_of(models), choice)
}

/// The sum of two counts, held to what 64 bits can say.
fn capped_add(a: u64, b: u64) -> (r: u64)
    ensures
        r == capped((a + b) as nat),
{
    if a > u64::MAX - b {
        u64::MAX
    } else {
        a + b
    }
}

/// The pieces that are longer than one character.
fn long_pieces_exec(pieces: Vec<Vec<char>>) -> (r: Vec<Vec<char>>)
    ensures
        pieces_view(r@) == long_pieces(pieces_view(pieces@)),
{
    let mut out: Vec<Vec<char>> = Vec::new();
    let mut i: usize = 0;
    assert(pieces_view(pieces@).take(0) =~= Seq::empty());
    assert(pieces_view(out@) =~= Seq::empty());
    while i < pieces.len()
        invariant
            i <= pieces.len(),
            pieces_view(out@) == long_pieces(pieces_view(pieces@).take(i as int)),
        decreases pieces.len() - i,
    {
        proof {
            let all = pieces_view(pieces@);
            assert(all.take(i + 1).drop_last() == all.take(i as int));
            assert(all.take(i + 1).last() == pieces@[i as int]@);
        }
        if pieces[i].len() > 1 {
            let ghost before = out@;
            let piece = pieces[i].clone();
            assert(piece@ == pieces@[i as int]@);
            out.push(piece);
            assert(pieces_view(out@) =~= pieces_view(before).push(pieces@[i as int]@));
        }
        i = i + 1;
    }
    assert(pieces_view(pieces@).take(pieces.len() as int) == pieces_view(pieces@));
    out
}

/// The parts of a model id.
pub fn id_parts_exec(id: &Vec<char>) -> (r: Vec<Vec<char>>)
    ensures
        pieces_view(r@) == id_parts(id@),
{
    long_pieces_exec(split_class_exec(id, CharClass::IdSeparator))
}

/// What a part of the query and a part of a candidate's id add to the score.
fn pair_score_exec(query_part: &Vec<char>, model_part: &Vec<char>) -> (r: u64)
    ensures
        r == capped(pair_score(query_part@, model_part@)),
{
    let a = byte_len_exec(query_part) as u64;
    let b = byte_len_exec(model_part) as u64;
    if chars_eq(query_part, model_part) {
        capped_add(a, a)
    } else if contains_chars(model_part, query_part) || contains_chars(query_part, model_part) {
        if a <= b {
            a
        } else {
            b
        }
    } else {
        0
    }
}

/// What all parts of the query add against all parts of a candidate's id.
fn parts_score_exec(query_parts: &Vec<Vec<char>>, model_parts: &Vec<Vec<char>>) -> (r: u64)
    ensures
        r == capped(parts_score(pieces_view(query_parts@), pieces_view(model_parts@))),
{
    let ghost qp = pieces_view(query_parts@);
    let ghost mp = pieces_view(model_parts@);
    let mut score: u64 = 0;
    let mut i: usize = 0;
    assert(qp.take(0) =~= Seq::empty());
    while i < query_parts.len()
        invariant
            i <= query_parts.len(),
            qp == pieces_view(query_parts@),
            mp == pieces_view(model_parts@),
            score == capped(parts_score(qp.take(i as int), mp)),
        decreases query_parts.len() - i,
    {
        let mut j: usize = 0;
        let ghost base = parts_score(qp.take(i as int), mp);
        assert(mp.take(0) =~= Seq::empty());
        while j < model_parts.len()
            invariant
                j <= model_parts.len(),
                i < query_parts.len(),
                qp == pieces_view(query_parts@),
                mp == pieces_view(model_parts@),
                score == capped(base + row_score(qp[i as int], mp.take(j as int))),
            decreases model_parts.len() - j,
        {
            proof {
                assert(mp.take(j + 1).drop_last() == mp.take(j as int));
                assert(mp.take(j + 1).last() == model_parts@[j as int]@);
                assert(qp[i as int] == query_parts@[i as int]@);
            }
            let pair = pair_score_exec(&query_parts[i], &model_parts[j]);
            score = capped_add(score, pair);
            j = j + 1;
        }
        proof {
            assert(mp.take(model_parts.len() as int) == mp);
            assert(qp.take(i + 1).drop_last() == qp.take(i as int));
            assert(qp.take(i + 1).last() == qp[i as int]);
        }
        i = i + 1;
    }
    assert(qp.take(query_parts.len() as int) == qp);
    score
}

/// The score of a candidate for a query, held to 64 bits; `query_lower` is
/// the query in lowercase once more.
pub fn score_candidate(query: &str, query_lower: &str, candidate: &Candidate) -> (r: u64)
    ensures
        r == capped(candidate_score(query@, query_lower@, candidate@)),
{
    let q = chars_of(query);
    let id = chars_of(candidate.id_lower.as_str());
    let query_parts = id_parts_exec(&q);
    let model_parts = id_parts_exec(&id);
    let mut score = parts_score_exec(&query_parts, &model_parts);

    let arch = chars_of(candidate.arch_lower.as_str());
    if contains_str(&arch, query_lower) {
        score = capped_add(score, 5);
    }
    let kind = chars_of(candidate.model_type.as_str());
    if chars_eq_str(&kind, "llm") && (contains_str(&q, "chat") || contains_str(&q, "instruct")) {
        score = capped_add(score, 3);
    }
    if chars_eq_str(&kind, "vlm") && (contains_str(&q, "vision") || contains_str(&q, "llava")) {
        score = capped_add(score, 3);
    }
    if chars_eq_str(&kind, "embeddings") && contains_str(&q, "embed") {
        score = capped_add(score, 3);
    }
    if candidate.is_loaded {
        score = capped_add(score, 2);
    }
    if occurs_at_exec(&id, &q, 0) {
        score = capped_add(score, str_byte_len(query) as u64);
    }
    score
}

/// The candidate that a model is.
pub fn candidate_exec(model: &ModelInfo) -> (r: Candidate)
    ensures
        r@ == candidate_of(model@),
{
    Candidate {
        id_lower: to_lowercase(model.id.as_str()),
        id_bytes: str_byte_len(model.id.as_str()),
        arch_lower: to_lowercase(model.arch.as_str()),
        model_type: model.model_type.clone(),
        is_loaded: model.is_loaded,
    }
}

/// The score of a model for a query in lowercase, held to 64 bits.
pub fn calculate_match_score(ollama_name: &str, model: &ModelInfo) -> (r: u64)
    ensures
        r == capped(match_score(ollama_name@, model@)),
{
    let candidate = candidate_exec(model);
    let query_lower = to_lowercase(ollama_name);
    score_candidate(ollama_name, query_lower.as_str(), &candidate)
}

/// The candidate that the matching policy picks for a query;
/// `query_lower` is the query in lowercase once more.
pub fn choose_match(query: &str, query_lower: &str, candidates: &Vec<Candidate>) -> (r: Option<
    usize,
>)
    ensures
        is_choice(
            query@,
            query_lower@,
            candidates_view(candidates@),
            match r {
                Some(i) => Some(i as int),
                None => None,
            },
        ),
{
    let q = chars_of(query);
    let ghost list = candidates_view(candidates@);
    let query_len = str_byte_len(query);

    let mut i: usize = 0;
    while i < candidates.len()
        invariant
            i <= candidates.len(),
            list == candidates_view(candidates@),
            q@ == query@,
            forall|j: int| 0 <= j < i ==> !is_exact(query@, list, j),
        decreases candidates.len() - i,
    {
        if chars_eq_str(&q, candidates[i].id_lower.as_str()) {
            assert(is_exact(query@, list, i as int));
            assert(exists|j: int| 0 <= j < list.len() && is_exact(query@, list, j));
            return Some(i);
        }
        i = i + 1;
    }

    let mut i: usize = 0;
    while i < candidates.len()
        invariant
            i <= candidates.len(),
            list == candidates_view(candidates@),
            q@ == query@,
            query_len == byte_len(query@),
            forall|j: int| 0 <= j < list.len() ==> !is_exact(query@, list, j),
            forall|j: int| 0 <= j < i ==> !is_substring(query@, list, j),
        decreases candidates.len() - i,
    {
        let id = chars_of(candidates[i].id_lower.as_str());
        if contains_chars(&id, &q) && (query_len > candidates[i].id_bytes / 2 || query_len > 10) {
            assert(is_substring(query@, list, i as int));
            assert(exists|j: int| 0 <= j < list.len() && is_substring(query@, list, j));
            return Some(i);
        }
        i = i + 1;
    }

    let mut best: Option<usize> = None;
    let mut best_score: u64 = 0;
    let mut i: usize = 0;
    while i < candidates.len()
        invariant
            i <= candidates.len(),
            list == candidates_view(candidates@),
            match best {
                Some(b) => b < i && best_score == score_at(query@, query_lower@, list, b as int)
                    && best_score >= 3 && (forall|j: int|
                    0 <= j < i ==> score_at(query@, query_lower@, list, j) <= best_score)
                    && (forall|j: int|
                    0 <= j < b ==> score_at(query@, query_lower@, list, j) < best_score),
                None => best_score == 0 && forall|j: int|
                    0 <= j < i ==> score_at(query@, query_lower@, list, j) < 3,
            },
        decreases candidates.len() - i,
    {
        let score = score_candidate(query, query_lower, &candidates[i]);
        assert(score == score_at(query@, query_lower@, list, i as int));
        if score > best_score && score >= 3 {
            best_score = score;
            best = Some(i);
        }
        i = i + 1;
    }
    best
}

/// The candidates that the models of a list are.
fn candidates_exec(models: &Vec<ModelInfo>) -> (r: Vec<Candidate>)
    ensures
        candidates_view(r@) == candidates_of(models@),
{
    let mut out: Vec<Candidate> = Vec::new();
    let mut i: usize = 0;
    while i < models.len()
        invariant
            i <= models.len(),
            out@.len() == i,
            forall|j: int| 0 <= j < i ==> (#[trigger] out@[j])@ == candidate_of(models@[j]@),
        decreases models.len() - i,
    {
        out.push(candidate_exec(&models[i]));
        i = i + 1;
    }
    assert(candidates_view(out@) =~= candidates_of(models@));
    out
}

/// The model that the matching policy picks for a canonical name, by its
/// place in the list.
pub fn find_best_match_index(ollama_name_cleaned: &str, available_models: &Vec<ModelInfo>) -> (r:
    Option<usize>)
    ensures
        is_match(
            lowercase(ollama_name_cleaned@),
            available_models@,
            match r {
                Some(i) => Some(i as int),
                None => None,
            },
        ),
        r matches Some(i) ==> i < available_models@.len(),
{
    let lower = to_lowercase(ollama_name_cleaned);
    let lower_again = to_lowercase(lower.as_str());
    let candidates = candidates_exec(available_models);
    choose_match(lower.as_str(), lower_again.as_str(), &candidates)
}

/// The model that the matching policy picks for a canonical name.
pub fn find_best_match(ollama_name_cleaned: &str, available_models: &Vec<ModelInfo>) -> (r: Option<
    ModelInfo,
>)
    ensures
        match r {
            Some(m) => exists|i: int|
                is_match(lowercase(ollama_name_cleaned@), available_models@, Some(i)) && m@
                    == available_models@[i]@,
            None => is_match(lowercase(ollama_name_cleaned@), available_models@, None),
        },
{
    match find_best_match_index(ollama_name_cleaned, available_models) {
        Some(i) => Some(available_models[i].clone()),
        None => None,
    }
}

/// What the resolver does first for a request.
#[derive(Debug)]
pub enum ResolveStep {
    /// The cache knew the name: this is the backend id.
    Cached(String),
    /// The cache did not know the name: the backend's model list is to be
    /// fetched from `url` and handed to `resolve_from_models`.
    FetchModels { canonical: String, url: String },
}

/// A name resolved against the backend's model list.
#[derive(Debug)]
pub struct Resolution {
    /// The backend id.
    pub id: String,
    /// The key under which the cache is to remember the id.
    pub cache_key: String,
    /// Whether the matched model is loaded.
    pub is_loaded: bool,
}

/// The error for a name that matches no backend model.
pub open spec fn no_match_error(canonical: Seq<char>) -> ProxyErrorV {
    not_found(
        "model '"@ + canonical
            + "' not found in LM Studio. Available models can be listed via /api/tags"@,
    )
}

/// Whether a failed fetch of the model list means a backend without the
/// native API.
pub open spec fn means_outdated_backend(message: Seq<char>) -> bool {
    contains(message, "404"@) || contains(message, "not found"@)
}

/// The error that asks for a newer backend.
pub open spec fn outdated_backend_error(message: Seq<char>) -> ProxyErrorV {
    custom_error(
        "LM Studio native API not available. Please update to LM Studio 0.3.6+. Original error: "@
            + message,
        503,
    )
}

/// The resolver of model names against one backend.
#[derive(Debug)]
pub struct ModelResolver {
    pub lmstudio_url: String,
}

impl ModelResolver {
    /// The resolver against the backend at `lmstudio_url`.
    pub fn new(lmstudio_url: String) -> (r: ModelResolver)
        ensures
            r.lmstudio_url@ == lmstudio_url@,
    {
        ModelResolver { lmstudio_url }
    }

    /// The key under which the cache holds a requested name: its canonical
    /// form.
    pub fn cache_key(requested: &str) -> (r: String)
        ensures
            r@ == canonical_name(requested@),
    {
        clean_model_name(requested).to_owned()
    }

    /// The first step for a requested name, given what the cache holds
    /// under its key. A cached id is the answer; else the model list is to
    /// be fetched.
    pub fn resolve_model_name(&self, requested: &str, cached: Option<String>) -> (r: ResolveStep)
        ensures
            match r {
                ResolveStep::Cached(id) => cached matches Some(c) && id@ == c@,
                ResolveStep::FetchModels { canonical, url } => cached is None && canonical@
                    == canonical_name(requested@) && url@ == self.lmstudio_url@
                    + LM_STUDIO_NATIVE_MODELS@,
            },
    {
        match cached {
            Some(id) => ResolveStep::Cached(id),
            None => ResolveStep::FetchModels {
                canonical: clean_model_name(requested).to_owned(),
                url: concat(self.lmstudio_url.as_str(), LM_STUDIO_NATIVE_MODELS),
            },
        }
    }

    /// The second step: the answer for a canonical name, given how the
    /// fetch of the model list went. A name that matches is resolved to a
    /// model of that list and is to be cached; a name that matches nothing
    /// fails with not-found and nothing is cached; a failed fetch that
    /// speaks of `404` or `not found` asks for a newer backend; any other
    /// failure is passed on.
    pub fn resolve_from_models(canonical: &str, fetched: Result<Vec<ModelInfo>, ProxyError>) -> (r:
        Result<Resolution, ProxyError>)
        ensures
            match (fetched, r) {
                (Ok(models), Ok(found)) => found.cache_key@ == canonical@ && exists|i: int|
                    is_match(lowercase(canonical@), models@, Some(i)) && found.id@
                        == models@[i].id@ && found.is_loaded == models@[i].is_loaded,
                (Ok(models), Err(e)) => is_match(lowercase(canonical@), models@, None) && e@
                    == no_match_error(canonical@),
                (Err(cause), Err(e)) => e@ == if means_outdated_backend(cause.message@) {
                    outdated_backend_error(cause.message@)
                } else {
                    cause@
                },
                (Err(_), Ok(_)) => false,
            },
    {
        match fetched {
            Ok(models) => match find_best_match_index(canonical, &models) {
                Some(i) => Ok(
                    Resolution {
                        id: models[i].id.clone(),
                        cache_key: canonical.to_owned(),
                        is_loaded: models[i].is_loaded,
                    },
                ),
                None => {
                    let mut message = chars_of("model '");
                    push_str(&mut message, canonical);
                    push_str(
                        &mut message,
                        "' not found in LM Studio. Available models can be listed via /api/tags",
                    );
                    Err(ProxyError::not_found(string_of(&message).as_str()))
                },
            },
            Err(cause) => {
                let text = chars_of(cause.message.as_str());
                if contains_str(&text, "404") || contains_str(&text, "not found") {
                    let message = concat(
                        "LM Studio native API not available. Please update to LM Studio 0.3.6+. Original error: ",
                        cause.message.as_str(),
                    );
                    Err(ProxyError::new(message, 503))
                } else {
                    Err(cause)
                }
            },
        }
    }

    /// The models of a backend list.
    pub fn get_all_models(native: &Vec<NativeModelData>) -> (r: Vec<ModelInfo>)
        ensures
            r@.len() == native@.len(),
            forall|i: int| 0 <= i < native@.len() ==> (#[trigger] r@[i])@ == model_of(native@[i]),
    {
        let mut out: Vec<ModelInfo> = Vec::new();
        let mut i: usize = 0;
        while i < native.len()
            invariant
                i <= native.len(),
                out@.len() == i,
                forall|j: int| 0 <= j < i ==> (#[trigger] out@[j])@ == model_of(native@[j]),
            decreases native.len() - i,
        {
            out.push(ModelInfo::from_native_data(&native[i]));
            i = i + 1;
        }
        out
    }

    /// The loaded models of a backend list, in its order.
    pub fn get_loaded_models(all: &Vec<ModelInfo>) -> (r: Vec<ModelInfo>)
        ensures
            models_view(r@) == loaded_of(models_view(all@)),
    {
        let mut out: Vec<ModelInfo> = Vec::new();
        let mut i: usize = 0;
        assert(models_view(all@).take(0) =~= Seq::empty());
        assert(models_view(out@) =~= Seq::empty());
        while i < all.len()
            invariant
                i <= all.len(),
                models_view(out@) == loaded_of(models_view(all@).take(i as int)),
            decreases all.len() - i,
        {
            proof {
                let views = models_view(all@);
                assert(views.take(i + 1).drop_last() == views.take(i as int));
                assert(views.take(i + 1).last() == all@[i as int]@);
            }
            if all[i].is_loaded {
                let ghost before = out@;
                out.push(all[i].clone());
                assert(models_view(out@) =~= models_view(before).push(all@[i as int]@));
            }
            i = i + 1;
        }
        assert(models_view(all@).take(all.len() as int) == models_view(all@));
        out
    }
}

/// The views of a list of models.
pub open spec fn models_view(models: Seq<ModelInfo>) -> Seq<ModelInfoV> {
    Seq::new(models.len(), |i: int| models[i]@)
}

/// The loaded models of a list, in its order.
pub open spec fn loaded_of(models: Seq<ModelInfoV>) -> Seq<ModelInfoV>
    decreases models.len(),
{
    if models.len() == 0 {
        Seq::empty()
    } else if models.last().is_loaded {
        loaded_of(models.drop_last()).push(models.last())
    } else {
        loaded_of(models.drop_last())
    }
}

/// The error for a model list that the backend refused with `status`.
pub open spec fn list_refused_error(status_text: Seq<char>, status: u16) -> ProxyErrorV {
    custom_error(
        "native API error ("@ + status_text + "): "@ + ERROR_LM_STUDIO_UNAVAILABLE@
            + ". Ensure LM Studio 0.3.6+ is installed"@,
        status,
    )
}

/// The error for a model list that the backend refused: `status` is the
/// response's status code and `status_text` how it reads.
pub fn list_refused(status: u16, status_text: &str) -> (r: ProxyError)
    ensures
        r@ == list_refused_error(status_text@, status),
{
    let mut message = chars_of("native API error (");
    push_str(&mut message, status_text);
    push_str(&mut message, "): ");
    push_str(&mut message, ERROR_LM_STUDIO_UNAVAILABLE);
    push_str(&mut message, ". Ensure LM Studio 0.3.6+ is installed");
    ProxyError::new(string_of(&message), status)
}

} // verus!
