//! The endpoints that make, copy, delete and push models. The proxy makes
//! and deletes aliases only; a push does nothing.

use crate::constants::LM_STUDIO_NATIVE_DOWNLOAD;
use crate::error::{bad_request, not_found, ProxyError, ProxyErrorV};
use crate::handlers::ollama::chat::required_model;
use crate::handlers::ollama::download::{
    download_payload, initiate_lmstudio_download, text_member, PullRequest, PullRequestV,
};
use crate::handlers::ollama::download_utils::{
    determine_download_identifier, download_identifier, download_identifier_from_info,
    identifier_from_info, DownloadIdentifier, DownloadIdentifierV,
};
use crate::model::types::ModelInfo;
use crate::handlers::ollama::utils::{stream_flag, stream_flag_exec};
use crate::json::{empty_object, items_view, jstr, lemma_items_view_is, Json, JsonV};
use crate::model::utils::{canonical_name, extract_required_model_name};
use crate::storage::virtual_models::{
    entry_response, exists_error, new_entry, no_metadata, opt_text, store_after_create,
    store_after_delete, VirtualModelEntry, VirtualModelEntryV, VirtualModelMetadata,
    VirtualModelStore,
};
use crate::text::{chars_of, push_str, string_of};
use vstd::prelude::*;

verus! {

/// What a create request says before any backend is asked.
#[derive(Debug)]
pub struct CreateRequest {
    pub model: String,
    pub source: String,
    pub stream: bool,
}

/// What a contract says of a `CreateRequest`.
pub struct CreateRequestV {
    pub model: Seq<char>,
    pub source: Seq<char>,
    pub stream: bool,
}

impl View for CreateRequest {
    type V = CreateRequestV;

    open spec fn view(&self) -> CreateRequestV {
        CreateRequestV { model: self.model@, source: self.source@, stream: self.stream }
    }
}

/// What a create request says, or why it is refused: the alias is made
/// from the name under `from`, or from its own name; the answer streams
/// unless the request says otherwise.
pub open spec fn create_request(body: JsonV) -> Result<CreateRequestV, ProxyErrorV> {
    match required_model(body) {
        Err(e) => Err(e),
        Ok(model) => Ok(
            CreateRequestV {
                model,
                source: match text_member(body, "from"@) {
                    Some(from) => from,
                    None => model,
                },
                stream: stream_flag(body, true),
            },
        ),
    }
}

/// Reads a create request, before any backend is asked.
pub fn validate_create_request(body: &Json) -> (r: Result<CreateRequest, ProxyError>)
    ensures
        match (r, create_request(body@)) {
            (Ok(request), Ok(expected)) => request@ == expected,
            (Err(e), Err(expected)) => e@ == expected,
            _ => false,
        },
{
    let model = match extract_required_model_name(body) {
        Ok(name) => name,
        Err(e) => {
            return Err(e);
        },
    };
    let source = match body.get_str("from") {
        Some(from) => from.to_owned(),
        None => model.to_owned(),
    };
    Ok(CreateRequest { model: model.to_owned(), source, stream: stream_flag_exec(body, true) })
}

/// A status line with a model.
pub open spec fn status_line(status: Seq<char>, model: Seq<char>) -> JsonV {
    empty_object().with("status"@, jstr(status)).with("model"@, jstr(model))
}

/// The lines that answer a create request that streams.
pub open spec fn create_statuses(request: CreateRequestV, entry: VirtualModelEntryV) -> Seq<JsonV> {
    seq![
        status_line("reading model metadata"@, request.model),
        status_line("creating alias"@, request.model).with("source"@, jstr(request.source)).with(
            "target_model_id"@,
            jstr(entry.target_model_id),
        ),
        status_line("writing manifest"@, request.model),
        status_line("success"@, request.model).with("virtual"@, JsonV::Bool(true)),
    ]
}

/// What answers a create request: four status lines where it streams, one
/// body where it does not.
pub open spec fn create_answer(request: CreateRequestV, entry: VirtualModelEntryV) -> Seq<JsonV> {
    if request.stream {
        create_statuses(request, entry)
    } else {
        seq![entry_response(entry)]
    }
}

/// A status line with a model.
fn status_line_exec(status: &str, model: &str) -> (r: Json)
    ensures
        r@ == status_line(status@, model@),
{
    let mut line = Json::object();
    line.insert("status", Json::string(status));
    line.insert("model", Json::string(model));
    line
}

/// What answers a create request whose alias was made: the lines of the
/// stream, or the one body.
pub fn handle_ollama_create(request: &CreateRequest, entry: &VirtualModelEntry) -> (r: Vec<Json>)
    ensures
        items_view(r@) == create_answer(request@, entry@),
{
    let mut out: Vec<Json> = Vec::new();
    let model = request.model.as_str();
    if request.stream {
        out.push(status_line_exec("reading model metadata", model));
        let mut creating = status_line_exec("creating alias", model);
        creating.insert("source", Json::string(request.source.as_str()));
        creating.insert("target_model_id", Json::string(entry.target_model_id.as_str()));
        out.push(creating);
        out.push(status_line_exec("writing manifest", model));
        let mut success = status_line_exec("success", model);
        success.insert("virtual", Json::Bool(true));
        out.push(success);
        proof {
            lemma_items_view_is(out@, create_statuses(request@, entry@));
        }
    } else {
        out.push(entry.to_response());
        proof {
            lemma_items_view_is(out@, seq![entry_response(entry@)]);
        }
    }
    out
}

/// The names of a copy request, or why it is refused.
pub open spec fn copy_request(body: JsonV) -> Result<(Seq<char>, Seq<char>), ProxyErrorV> {
    match text_member(body, "source"@) {
        None => Err(bad_request("Missing 'source' field"@)),
        Some(source) => match text_member(body, "destination"@) {
            None => Err(bad_request("Missing 'destination' field"@)),
            Some(destination) => Ok((source, destination)),
        },
    }
}

/// Reads a copy request: its source and its destination.
pub fn validate_copy_request(body: &Json) -> (r: Result<(String, String), ProxyError>)
    ensures
        match (r, copy_request(body@)) {
            (Ok(names), Ok(expected)) => names.0@ == expected.0 && names.1@ == expected.1,
            (Err(e), Err(expected)) => e@ == expected,
            _ => false,
        },
{
    let source = match body.get_str("source") {
        Some(s) => s,
        None => {
            return Err(ProxyError::bad_request("Missing 'source' field"));
        },
    };
    let destination = match body.get_str("destination") {
        Some(d) => d,
        None => {
            return Err(ProxyError::bad_request("Missing 'destination' field"));
        },
    };
    Ok((source.to_owned(), destination.to_owned()))
}

/// The entry that a copy makes: of an alias, another alias of the same
/// model with the same metadata; of a backend model, which `resolved_id`
/// names, an alias that adds nothing.
pub open spec fn copied_entry(
    store: Map<Seq<char>, VirtualModelEntryV>,
    source: Seq<char>,
    destination: Seq<char>,
    resolved_id: Option<Seq<char>>,
    now: Seq<char>,
) -> Option<VirtualModelEntryV> {
    if store.contains_key(canonical_name(source)) {
        let existing = store[canonical_name(source)];
        Some(
            new_entry(
                destination,
                existing.source_model,
                existing.target_model_id,
                existing.metadata,
                now,
            ),
        )
    } else {
        match resolved_id {
            Some(id) => Some(new_entry(destination, source, id, no_metadata(), now)),
            None => None,
        }
    }
}

/// What a copy does.
#[derive(Debug)]
pub enum CopyOutcome {
    /// The copy was made: this is the answer.
    Copied(Json),
    /// The source is no alias: it has to be resolved against the backend,
    /// and the copy asked for again with the id that it resolves to.
    NeedsResolution,
}

/// Copies `source` to `destination`. Where `source` is an alias, the copy
/// is made at once; where it is not, the copy is made from the backend
/// model `resolved_id`, and asked for where none is given.
pub fn handle_ollama_copy(
    store: &mut VirtualModelStore,
    source: &str,
    destination: &str,
    resolved_id: Option<String>,
    now: &str,
) -> (r: Result<CopyOutcome, ProxyError>)
    requires
        old(store).wf(),
    ensures
        final(store).wf(),
        match copied_entry(
            old(store)@,
            source@,
            destination@,
            crate::storage::virtual_models::opt_text(resolved_id),
            now@,
        ) {
            None => r matches Ok(CopyOutcome::NeedsResolution) && final(store)@ == old(store)@,
            Some(entry) => final(store)@ == store_after_create(old(store)@, destination@, entry)
                && if old(store)@.contains_key(canonical_name(destination@)) {
                r matches Err(e) && e@ == exists_error(destination@)
            } else {
                r matches Ok(CopyOutcome::Copied(body)) && body@ == entry_response(entry)
            },
        },
{
    let made = match store.get(source) {
        Some(existing) => store.create_alias(
            destination,
            existing.source_model,
            existing.target_model_id,
            existing.metadata,
            now,
        ),
        None => match resolved_id {
            Some(id) => store.create_alias(
                destination,
                source.to_owned(),
                id,
                VirtualModelMetadata::empty(),
                now,
            ),
            None => {
                return Ok(CopyOutcome::NeedsResolution);
            },
        },
    };
    match made {
        Ok(entry) => Ok(CopyOutcome::Copied(entry.to_response())),
        Err(e) => Err(e),
    }
}

/// The error for a model that is no alias of the proxy.
pub open spec fn not_managed(model: Seq<char>) -> ProxyErrorV {
    not_found("Model '"@ + model + "' not managed by this proxy"@)
}

/// The answer to the deletion of an alias.
pub open spec fn delete_response(removed: VirtualModelEntryV) -> JsonV {
    empty_object().with("status"@, jstr("success"@)).with("model"@, jstr(removed.name)).with(
        "virtual"@,
        JsonV::Bool(true),
    )
}

/// Deletes the alias that a request names. Only aliases can be deleted: a
/// name that is none fails with not-found, and the store stays as it is.
pub fn handle_ollama_delete(store: &mut VirtualModelStore, body: &Json) -> (r: Result<
    Json,
    ProxyError,
>)
    requires
        old(store).wf(),
    ensures
        final(store).wf(),
        match required_model(body@) {
            Err(expected) => r matches Err(e) && e@ == expected && final(store)@ == old(store)@,
            Ok(model) => final(store)@ == store_after_delete(old(store)@, model) && if old(
                store,
            )@.contains_key(canonical_name(model)) {
                r matches Ok(answer) && answer@ == delete_response(
                    old(store)@[canonical_name(model)],
                )
            } else {
                r matches Err(e) && e@ == not_managed(model) && final(store)@ == old(store)@
            },
        },
{
    let model = match extract_required_model_name(body) {
        Ok(name) => name,
        Err(e) => {
            return Err(e);
        },
    };
    match store.delete(model) {
        Ok(removed) => {
            let mut response = Json::object();
            response.insert("status", Json::string("success"));
            response.insert("model", Json::string(removed.name.as_str()));
            response.insert("virtual", Json::Bool(true));
            Ok(response)
        },
        Err(_) => {
            let mut message = chars_of("Model '");
            push_str(&mut message, model);
            push_str(&mut message, "' not managed by this proxy");
            Err(ProxyError::not_found(string_of(&message).as_str()))
        },
    }
}

/// What a push request says: its model, and whether the answer streams,
/// which it does unless the request says otherwise.
pub open spec fn push_request(body: JsonV) -> Result<(Seq<char>, bool), ProxyErrorV> {
    match required_model(body) {
        Err(e) => Err(e),
        Ok(model) => Ok((model, stream_flag(body, true))),
    }
}

/// Reads a push request, before any backend is asked.
pub fn validate_push_request(body: &Json) -> (r: Result<(String, bool), ProxyError>)
    ensures
        match (r, push_request(body@)) {
            (Ok(request), Ok(expected)) => request.0@ == expected.0 && request.1 == expected.1,
            (Err(e), Err(expected)) => e@ == expected,
            _ => false,
        },
{
    match extract_required_model_name(body) {
        Ok(name) => Ok((name.to_owned(), stream_flag_exec(body, true))),
        Err(e) => Err(e),
    }
}

/// What answers a push: a push does nothing, and says so.
pub open spec fn push_answer(model: Seq<char>, resolved_id: Seq<char>, stream: bool) -> Seq<JsonV> {
    let detail = jstr("Push is a no-op when targeting LM Studio"@);
    if stream {
        seq![
            status_line("retrieving manifest"@, model),
            status_line("starting upload"@, model).with("target_model_id"@, jstr(resolved_id)),
            status_line("pushing manifest"@, model),
            status_line("success"@, model).with("detail"@, detail),
        ]
    } else {
        seq![
            status_line("success"@, model).with("detail"@, detail).with(
                "target_model_id"@,
                jstr(resolved_id),
            ),
        ]
    }
}

/// What answers a push whose model was resolved: the lines of the stream,
/// or the one body.
pub fn handle_ollama_push(model_name: &str, resolved_model_id: &str, stream: bool) -> (r: Vec<Json>)
    ensures
        items_view(r@) == push_answer(model_name@, resolved_model_id@, stream),
{
    let mut out: Vec<Json> = Vec::new();
    if stream {
        out.push(status_line_exec("retrieving manifest", model_name));
        let mut starting = status_line_exec("starting upload", model_name);
        starting.insert("target_model_id", Json::string(resolved_model_id));
        out.push(starting);
        out.push(status_line_exec("pushing manifest", model_name));
        let mut success = status_line_exec("success", model_name);
        success.insert("detail", Json::string("Push is a no-op when targeting LM Studio"));
        out.push(success);
    } else {
        let mut response = status_line_exec("success", model_name);
        response.insert("detail", Json::string("Push is a no-op when targeting LM Studio"));
        response.insert("target_model_id", Json::string(resolved_model_id));
        out.push(response);
    }
    proof {
        lemma_items_view_is(out@, push_answer(model_name@, resolved_model_id@, stream));
    }
    out
}


/// What a pull does next.
#[derive(Debug)]
pub enum PullStep {
    /// Ask the backend for the download: send `payload` to `url`.
    Download { identifier: String, url: String, payload: Json },
    /// The backend's description of the resolved model is needed first;
    /// with it the download is made by `pull_with_model_info`.
    NeedsModelInfo { resolved_model_id: String },
}

/// What a contract says of a `PullStep`.
pub enum PullStepV {
    Download { identifier: Seq<char>, url: Seq<char>, payload: JsonV },
    NeedsModelInfo { resolved_model_id: Seq<char> },
}

impl View for PullStep {
    type V = PullStepV;

    open spec fn view(&self) -> PullStepV {
        match self {
            PullStep::Download { identifier, url, payload } => PullStepV::Download {
                identifier: identifier@,
                url: url@,
                payload: payload@,
            },
            PullStep::NeedsModelInfo { resolved_model_id } => PullStepV::NeedsModelInfo {
                resolved_model_id: resolved_model_id@,
            },
        }
    }
}

/// The request that asks the backend at `base_url` to download
/// `identifier`.
pub open spec fn download_step(
    base_url: Seq<char>,
    identifier: Seq<char>,
    quantization: Option<Seq<char>>,
) -> PullStepV {
    PullStepV::Download {
        identifier,
        url: base_url + LM_STUDIO_NATIVE_DOWNLOAD@,
        payload: download_payload(identifier, quantization),
    }
}

/// What a pull does once its model is resolved, where it had to be: the
/// download of the identifier that `download_identifier` chooses, or
/// first the look at the backend's description of the model.
pub open spec fn pull_step(
    request: PullRequestV,
    base_url: Seq<char>,
    resolved: Option<(Seq<char>, Option<VirtualModelEntryV>)>,
) -> PullStepV {
    match download_identifier(request.model, request.source, resolved) {
        DownloadIdentifierV::Ready(identifier) => download_step(
            base_url,
            identifier,
            request.quantization,
        ),
        DownloadIdentifierV::NeedsModelInfo { resolved_model_id } => PullStepV::NeedsModelInfo {
            resolved_model_id,
        },
    }
}

/// The quantization of a pull request, where it names one.
fn quantization_of(request: &PullRequest) -> (r: Option<&str>)
    ensures
        match r {
            Some(q) => opt_text(request.quantization) == Some(q@),
            None => request.quantization is None,
        },
{
    match &request.quantization {
        Some(q) => Some(q.as_str()),
        None => None,
    }
}

/// Decides what a pull does once its model is resolved, where it had to
/// be.
pub fn handle_ollama_pull(
    request: &PullRequest,
    base_url: &str,
    resolved_model: Option<(String, Option<VirtualModelEntry>)>,
) -> (r: PullStep)
    ensures
        r@ == pull_step(
            request@,
            base_url@,
            match resolved_model {
                Some((id, entry)) => Some(
                    (
                        id@,
                        match entry {
                            Some(e) => Some(e@),
                            None => None,
                        },
                    ),
                ),
                None => None,
            },
        ),
{
    let source: Option<&str> = match &request.source {
        Some(s) => Some(s.as_str()),
        None => None,
    };
    match determine_download_identifier(request.model.as_str(), source, resolved_model) {
        DownloadIdentifier::Ready(identifier) => {
            let (url, payload) = initiate_lmstudio_download(
                base_url,
                identifier.as_str(),
                quantization_of(request),
            );
            PullStep::Download { identifier, url, payload }
        },
        DownloadIdentifier::NeedsModelInfo { resolved_model_id } => PullStep::NeedsModelInfo {
            resolved_model_id,
        },
    }
}

/// The download of a pull whose identifier needed the backend's
/// description of the model.
pub fn pull_with_model_info(
    request: &PullRequest,
    base_url: &str,
    resolved_model_id: String,
    model_info: Option<&ModelInfo>,
) -> (r: PullStep)
    ensures
        r@ == download_step(
            base_url@,
            identifier_from_info(
                resolved_model_id@,
                match model_info {
                    Some(m) => Some(m@),
                    None => None,
                },
            ),
            opt_text(request.quantization),
        ),
{
    let identifier = download_identifier_from_info(resolved_model_id, model_info);
    let (url, payload) = initiate_lmstudio_download(
        base_url,
        identifier.as_str(),
        quantization_of(request),
    );
    PullStep::Download { identifier, url, payload }
}

} // verus!
