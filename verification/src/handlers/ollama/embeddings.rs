//! The embeddings endpoints: the modern one answers with all vectors, the
//! legacy one with the first.

use crate::constants::{ERROR_MISSING_INPUT, LM_STUDIO_NATIVE_EMBEDDINGS};
use crate::error::{bad_request, ProxyError, ProxyErrorV};
use crate::handlers::ollama::chat::required_model;
use crate::handlers::ollama::keep_alive::{
    apply_keep_alive_ttl, keep_alive_seconds, parse_keep_alive_seconds, with_ttl,
};
use crate::handlers::ollama::model_resolution::{
    alias_parameters, merge_option_maps, merged_options,
};
use crate::handlers::transform::{ollama_embeddings_response, ResponseClock, ResponseTransformer};
use crate::http::request::{
    backend_request, build_lm_studio_request, LMStudioRequestType, LMStudioRequestTypeV,
};
use crate::json::{empty_array, lemma_items_view, Json, JsonV};
use crate::model::utils::extract_required_model_name;
use crate::storage::virtual_models::{VirtualModelEntry, VirtualModelEntryV};
use vstd::prelude::*;

verus! {

/// Which of the two embeddings endpoints a request came to.
#[derive(Debug, Clone, Copy, PartialEq, Eq, Structural)]
pub enum EmbeddingResponseMode {
    /// `/api/embed`: the answer carries `embeddings`.
    Embed,
    /// `/api/embeddings`: the answer carries the first vector as
    /// `embedding`.
    LegacyEmbeddings,
}

/// The first of the `embeddings` of a response, or the empty list.
pub open spec fn first_embedding(response: JsonV) -> JsonV {
    match response.get("embeddings"@) {
        Some(JsonV::Array(vectors)) => if vectors.len() > 0 {
            vectors[0]
        } else {
            JsonV::Array(Seq::empty())
        },
        _ => JsonV::Array(Seq::empty()),
    }
}

/// The answer of an embeddings endpoint: for the legacy endpoint the first
/// vector as `embedding` and no `embeddings`.
pub open spec fn finalized_embeddings(response: JsonV, mode: EmbeddingResponseMode) -> JsonV {
    match mode {
        EmbeddingResponseMode::Embed => response,
        EmbeddingResponseMode::LegacyEmbeddings => response.with(
            "embedding"@,
            first_embedding(response),
        ).without("embeddings"@),
    }
}

/// The answer of an embeddings endpoint.
pub fn finalize_embedding_response(response: Json, mode: EmbeddingResponseMode) -> (r: Json)
    ensures
        r@ == finalized_embeddings(response@, mode),
{
    match mode {
        EmbeddingResponseMode::Embed => response,
        EmbeddingResponseMode::LegacyEmbeddings => {
            let first = match response.get("embeddings") {
                Some(value) => match value.as_array() {
                    Some(vectors) => {
                        proof {
                            lemma_items_view(vectors@);
                        }
                        if vectors.len() > 0 {
                            vectors[0].clone()
                        } else {
                            empty_array()
                        }
                    },
                    None => empty_array(),
                },
                None => empty_array(),
            };
            let mut response = response;
            response.insert("embedding", first);
            response.remove("embeddings");
            response
        },
    }
}

/// The input of an embeddings request: its `input`, or else its `prompt`.
pub open spec fn embedding_input(body: JsonV) -> Option<JsonV> {
    match body.get("input"@) {
        Some(v) => Some(v),
        None => body.get("prompt"@),
    }
}

/// The input of an embeddings request, which has to be there.
pub fn extract_embedding_input(body: &Json) -> (r: Result<&Json, ProxyError>)
    ensures
        match r {
            Ok(input) => embedding_input(body@) == Some(input@),
            Err(e) => embedding_input(body@) is None && e@ == bad_request(ERROR_MISSING_INPUT@),
        },
{
    match body.get("input") {
        Some(v) => Ok(v),
        None => match body.get("prompt") {
            Some(v) => Ok(v),
            None => Err(ProxyError::bad_request(ERROR_MISSING_INPUT)),
        },
    }
}


/// What an embeddings request says before any backend is asked.
#[derive(Debug)]
pub struct EmbeddingsRequest {
    pub model: String,
    pub keep_alive_seconds: Option<i64>,
    pub input: Json,
}

/// What a contract says of an `EmbeddingsRequest`.
pub struct EmbeddingsRequestV {
    pub model: Seq<char>,
    pub keep_alive_seconds: Option<i64>,
    pub input: JsonV,
}

impl View for EmbeddingsRequest {
    type V = EmbeddingsRequestV;

    open spec fn view(&self) -> EmbeddingsRequestV {
        EmbeddingsRequestV {
            model: self.model@,
            keep_alive_seconds: self.keep_alive_seconds,
            input: self.input@,
        }
    }
}

/// What an embeddings request says, or why it is refused: the model name
/// is looked at first, then the `keep_alive`, then the input.
pub open spec fn embeddings_request(body: JsonV) -> Result<EmbeddingsRequestV, ProxyErrorV> {
    match required_model(body) {
        Err(e) => Err(e),
        Ok(model) => match keep_alive_seconds(body.get("keep_alive"@)) {
            Err(e) => Err(e),
            Ok(keep_alive) => match embedding_input(body) {
                Some(input) => Ok(
                    EmbeddingsRequestV { model, keep_alive_seconds: keep_alive, input },
                ),
                None => Err(bad_request(ERROR_MISSING_INPUT@)),
            },
        },
    }
}

/// Reads an embeddings request, before any backend is asked.
pub fn validate_embeddings_request(body: &Json) -> (r: Result<EmbeddingsRequest, ProxyError>)
    ensures
        match (r, embeddings_request(body@)) {
            (Ok(request), Ok(expected)) => request@ == expected,
            (Err(e), Err(expected)) => e@ == expected,
            _ => false,
        },
{
    let model = match extract_required_model_name(body) {
        Ok(name) => name,
        Err(e) => {
            return Err(e);
        },
    };
    let keep_alive = match parse_keep_alive_seconds(body.get("keep_alive")) {
        Ok(seconds) => seconds,
        Err(e) => {
            return Err(e);
        },
    };
    let input = match extract_embedding_input(body) {
        Ok(v) => v,
        Err(e) => {
            return Err(e);
        },
    };
    Ok(
        EmbeddingsRequest {
            model: model.to_owned(),
            keep_alive_seconds: keep_alive,
            input: input.clone(),
        },
    )
}

/// The backend request of an embeddings request: the input as it came,
/// the options of the alias under those of the request, and the `ttl`.
pub open spec fn embeddings_backend_request(
    body: JsonV,
    request: EmbeddingsRequestV,
    resolved_id: Seq<char>,
    alias: Option<VirtualModelEntryV>,
) -> JsonV {
    with_ttl(
        backend_request(
            resolved_id,
            LMStudioRequestTypeV::Embeddings { input: request.input },
            merged_options(alias_parameters(alias), body.get("options"@)),
            None,
            None,
        ),
        request.keep_alive_seconds,
    )
}

/// The request that goes to the backend's embeddings endpoint for a
/// request that `validate_embeddings_request` has read and whose model is
/// resolved.
pub fn handle_ollama_embeddings(
    body: &Json,
    request: &EmbeddingsRequest,
    resolved_id: &str,
    alias: Option<&VirtualModelEntry>,
) -> (r: (String, Json))
    ensures
        r.0@ == LM_STUDIO_NATIVE_EMBEDDINGS@,
        r.1@ == embeddings_backend_request(
            body@,
            request@,
            resolved_id@,
            match alias {
                Some(a) => Some(a@),
                None => None,
            },
        ),
{
    let alias_params: Option<&Json> = match alias {
        Some(entry) => match &entry.metadata.parameters {
            Some(p) => Some(p),
            None => None,
        },
        None => None,
    };
    let options = merge_option_maps(alias_params, body.get("options"));
    let mut lm_request = build_lm_studio_request(
        resolved_id,
        LMStudioRequestType::Embeddings { input: &request.input },
        options.as_ref(),
        None,
        None,
    );
    apply_keep_alive_ttl(&mut lm_request, request.keep_alive_seconds);
    (LM_STUDIO_NATIVE_EMBEDDINGS.to_owned(), lm_request)
}

/// The answer of an embeddings endpoint for the backend's answer.
pub fn embeddings_answer(
    lm_response: &Json,
    model_ollama_name: &str,
    clock: &ResponseClock,
    response_mode: EmbeddingResponseMode,
) -> (r: Json)
    ensures
        r@ == finalized_embeddings(
            ollama_embeddings_response(lm_response@, model_ollama_name@, *clock, true),
            response_mode,
        ),
{
    let response = ResponseTransformer::convert_to_ollama_embeddings(
        lm_response,
        model_ollama_name,
        clock,
        true,
    );
    finalize_embedding_response(response, response_mode)
}

} // verus!
