//! The `show` endpoint: the description of one model.

use crate::error::{ProxyError, ProxyErrorV};
use crate::handlers::ollama::chat::required_model;
use crate::handlers::ollama::keep_alive::{keep_alive_seconds, parse_keep_alive_seconds};
use crate::handlers::ollama::model_resolution::{fetch_model_info_for_id, model_with_id};
use crate::json::{empty_object, jstr, Json, JsonV};
use crate::model::types::{show_response, ModelInfo};
use crate::model::utils::extract_required_model_name;
use crate::storage::virtual_models::{VirtualModelEntry, VirtualModelEntryV};
use crate::text::{chars_of, push_str, string_of};
use vstd::prelude::*;

verus! {

/// What a `show` request says before any backend is asked.
#[derive(Debug)]
pub struct ShowRequest {
    pub model: String,
    pub keep_alive_seconds: Option<i64>,
    /// Whether the loading of the model is triggered first: it is, unless
    /// the `keep_alive` is zero.
    pub trigger_loading: bool,
}

/// What a contract says of a `ShowRequest`.
pub struct ShowRequestV {
    pub model: Seq<char>,
    pub keep_alive_seconds: Option<i64>,
    pub trigger_loading: bool,
}

impl View for ShowRequest {
    type V = ShowRequestV;

    open spec fn view(&self) -> ShowRequestV {
        ShowRequestV {
            model: self.model@,
            keep_alive_seconds: self.keep_alive_seconds,
            trigger_loading: self.trigger_loading,
        }
    }
}

/// What a `show` request says, or why it is refused. With a `keep_alive`
/// of zero the loading of the model is not triggered.
pub open spec fn show_request(body: JsonV) -> Result<ShowRequestV, ProxyErrorV> {
    match required_model(body) {
        Err(e) => Err(e),
        Ok(model) => match keep_alive_seconds(body.get("keep_alive"@)) {
            Err(e) => Err(e),
            Ok(keep_alive) => Ok(
                ShowRequestV {
                    model,
                    keep_alive_seconds: keep_alive,
                    trigger_loading: keep_alive != Some(0i64),
                },
            ),
        },
    }
}

/// Reads a `show` request, before any backend is asked.
pub fn validate_show_request(body: &Json) -> (r: Result<ShowRequest, ProxyError>)
    ensures
        match (r, show_request(body@)) {
            (Ok(request), Ok(expected)) => request@ == expected,
            (Err(e), Err(expected)) => e@ == expected,
            _ => false,
        },
{
    let model = match extract_required_model_name(body) {
        Ok(name) => name,
        Err(e) => {
            return Err(e);
        },
    };
    let keep_alive = match parse_keep_alive_seconds(body.get("keep_alive")) {
        Ok(seconds) => seconds,
        Err(e) => {
            return Err(e);
        },
    };
    let unload = crate::handlers::ollama::keep_alive::keep_alive_requests_unload(keep_alive);
    Ok(ShowRequest { model: model.to_owned(), keep_alive_seconds: keep_alive, trigger_loading: !unload })
}

/// A description with what an alias adds to it.
pub open spec fn with_alias_members(response: JsonV, alias: Option<VirtualModelEntryV>) -> JsonV {
    match alias {
        Some(entry) => {
            let named = response.with("virtual"@, JsonV::Bool(true)).with(
                "alias_name"@,
                jstr(entry.name),
            ).with("source_model"@, jstr(entry.source_model)).with(
                "target_model_id"@,
                jstr(entry.target_model_id),
            );
            let with_system = match entry.metadata.system_prompt {
                Some(system) => named.with("system"@, jstr(system)),
                None => named,
            };
            match entry.metadata.template {
                Some(template) => with_system.with("template"@, jstr(template)),
                None => with_system,
            }
        },
        None => response,
    }
}

/// The answer of `show`: the description of the resolved model, or a note
/// that the backend does not have it; with what the alias adds.
pub open spec fn show_answer(
    requested: Seq<char>,
    resolved_id: Seq<char>,
    models: Seq<ModelInfo>,
    alias: Option<VirtualModelEntryV>,
    modified_at: Seq<char>,
) -> JsonV {
    let base = match model_with_id(models, resolved_id, 0) {
        Some(i) => show_response(models[i]@, modified_at),
        None => empty_object().with(
            "error"@,
            jstr("Model '"@ + resolved_id + "' not found in LM Studio"@),
        ).with("requested"@, jstr(requested)).with("resolved_to"@, jstr(resolved_id)),
    };
    with_alias_members(base, alias)
}

/// The answer of `show` for a resolved model and the backend's list.
pub fn handle_ollama_show(
    requested: &str,
    resolved_id: &str,
    models: &Vec<ModelInfo>,
    virtual_entry: Option<&VirtualModelEntry>,
    modified_at: &str,
) -> (r: Json)
    ensures
        r@ == show_answer(
            requested@,
            resolved_id@,
            models@,
            match virtual_entry {
                Some(e) => Some(e@),
                None => None,
            },
            modified_at@,
        ),
{
    let mut response = match fetch_model_info_for_id(models, resolved_id) {
        Some(model) => model.to_show_response(modified_at),
        None => {
            let mut message = chars_of("Model '");
            push_str(&mut message, resolved_id);
            push_str(&mut message, "' not found in LM Studio");
            let mut note = Json::object();
            note.insert("error", Json::Str(string_of(&message)));
            note.insert("requested", Json::string(requested));
            note.insert("resolved_to", Json::string(resolved_id));
            note
        },
    };
    match virtual_entry {
        Some(entry) => {
            response.insert("virtual", Json::Bool(true));
            response.insert("alias_name", Json::string(entry.name.as_str()));
            response.insert("source_model", Json::string(entry.source_model.as_str()));
            response.insert("target_model_id", Json::string(entry.target_model_id.as_str()));
            match &entry.metadata.system_prompt {
                Some(system) => {
                    response.insert("system", Json::string(system.as_str()));
                },
                None => {},
            }
            match &entry.metadata.template {
                Some(template) => {
                    response.insert("template", Json::string(template.as_str()));
                },
                None => {},
            }
        },
        None => {},
    }
    response
}

} // verus!
