//! What a resolved model brings to a request: its backend id and, for an
//! alias, the alias's options, format and system prompt under those of the
//! request.

use crate::handlers::ollama::utils::{extract_system_prompt, system_prompt_of};
use crate::json::{opt_view, Json, JsonV};
use crate::model::types::ModelInfo;
use crate::model::utils::canonical_name;
use crate::storage::virtual_models::{
    opt_text, VirtualModelEntry, VirtualModelEntryV, VirtualModelStore,
};
use crate::text::str_eq;
use vstd::prelude::*;

verus! {

/// A resolved model with what applies to a request on it.
#[derive(Debug)]
pub struct ModelResolutionContext {
    pub lm_studio_model_id: String,
    pub effective_options: Option<Json>,
    pub effective_format: Option<Json>,
    pub system_prompt: Option<String>,
}

/// The options of an alias under those of a request: where both are
/// objects, the alias's members with the request's over them; else the
/// request's where it has some, else the alias's.
pub open spec fn merged_options(base: Option<JsonV>, overrides: Option<JsonV>) -> Option<JsonV> {
    match (base, overrides) {
        (None, None) => None,
        (Some(b), None) => Some(b),
        (None, Some(o)) => Some(o),
        (Some(b), Some(o)) => if b is Object && o is Object {
            Some(b.overlaid(o))
        } else {
            Some(o)
        },
    }
}

/// The options of an alias under those of a request.
pub fn merge_option_maps(base: Option<&Json>, overrides: Option<&Json>) -> (r: Option<Json>)
    ensures
        opt_view(r) == merged_options(
            match base {
                Some(b) => Some(b@),
                None => None,
            },
            match overrides {
                Some(o) => Some(o@),
                None => None,
            },
        ),
{
    match (base, overrides) {
        (None, None) => None,
        (Some(b), None) => Some(b.clone()),
        (None, Some(o)) => Some(o.clone()),
        (Some(b), Some(o)) => {
            if b.is_object() && o.is_object() {
                let mut combined = b.clone();
                combined.merge_from(o);
                Some(combined)
            } else {
                Some(o.clone())
            }
        },
    }
}

/// The parameters of an alias.
pub open spec fn alias_parameters(entry: Option<VirtualModelEntryV>) -> Option<JsonV> {
    match entry {
        Some(e) => e.metadata.parameters,
        None => None,
    }
}

/// The format that applies to a request: its own, or else the one among
/// the parameters of its alias.
pub open spec fn effective_format(body: JsonV, entry: Option<VirtualModelEntryV>) -> Option<JsonV> {
    match body.get("format"@) {
        Some(f) => Some(f),
        None => match alias_parameters(entry) {
            Some(params) => params.get("format"@),
            None => None,
        },
    }
}

/// The system prompt that applies to a request: its own, or else that of
/// its alias.
pub open spec fn effective_system_prompt(body: JsonV, entry: Option<VirtualModelEntryV>) -> Option<
    Seq<char>,
> {
    match system_prompt_of(body) {
        Some(s) => Some(s),
        None => match entry {
            Some(e) => e.metadata.system_prompt,
            None => None,
        },
    }
}

/// The alias that a requested name is, where the store has one: the store
/// is asked before any backend.
pub fn resolve_model_target(virtual_models: &VirtualModelStore, requested_model: &str) -> (r: Option<
    (String, VirtualModelEntry),
>)
    requires
        virtual_models.wf(),
    ensures
        match r {
            Some((id, entry)) => virtual_models@.contains_key(canonical_name(requested_model@))
                && entry@ == virtual_models@[canonical_name(requested_model@)] && id@
                == entry@.target_model_id,
            None => !virtual_models@.contains_key(canonical_name(requested_model@)),
        },
{
    match virtual_models.get(requested_model) {
        Some(entry) => Some((entry.target_model_id.clone(), entry)),
        None => None,
    }
}

/// What applies to a request on a resolved model: the request's options
/// over those of the alias, key by key; the request's format before the
/// alias's; the request's system prompt before the alias's.
pub fn resolve_model_with_context(
    lm_studio_model_id: String,
    virtual_entry: Option<&VirtualModelEntry>,
    request_body: &Json,
) -> (r: ModelResolutionContext)
    ensures
        r.lm_studio_model_id@ == lm_studio_model_id@,
        opt_view(r.effective_options) == merged_options(
            alias_parameters(
                match virtual_entry {
                    Some(e) => Some(e@),
                    None => None,
                },
            ),
            request_body@.get("options"@),
        ),
        opt_view(r.effective_format) == effective_format(
            request_body@,
            match virtual_entry {
                Some(e) => Some(e@),
                None => None,
            },
        ),
        opt_text(r.system_prompt) == effective_system_prompt(
            request_body@,
            match virtual_entry {
                Some(e) => Some(e@),
                None => None,
            },
        ),
{
    let alias_params: Option<&Json> = match virtual_entry {
        Some(entry) => match &entry.metadata.parameters {
            Some(p) => Some(p),
            None => None,
        },
        None => None,
    };
    let effective_options = merge_option_maps(alias_params, request_body.get("options"));
    let effective_format = match request_body.get("format") {
        Some(f) => Some(f.clone()),
        None => match alias_params {
            Some(params) => match params.get("format") {
                Some(f) => Some(f.clone()),
                None => None,
            },
            None => None,
        },
    };
    let system_prompt = match extract_system_prompt(request_body) {
        Some(s) => Some(s),
        None => match virtual_entry {
            Some(entry) => match &entry.metadata.system_prompt {
                Some(s) => Some(s.clone()),
                None => None,
            },
            None => None,
        },
    };
    ModelResolutionContext { lm_studio_model_id, effective_options, effective_format, system_prompt }
}

/// The position of the first model with the id `id` before `upto`.
pub open spec fn model_with_id(models: Seq<ModelInfo>, id: Seq<char>, from: int) -> Option<int>
    decreases models.len() - from,
{
    if from < 0 || from >= models.len() {
        None
    } else if models[from].id@ == id {
        Some(from)
    } else {
        model_with_id(models, id, from + 1)
    }
}

/// The first model of a list with the id `target_model_id`.
pub fn fetch_model_info_for_id(models: &Vec<ModelInfo>, target_model_id: &str) -> (r: Option<
    ModelInfo,
>)
    ensures
        match r {
            Some(m) => model_with_id(models@, target_model_id@, 0) matches Some(i) && m@
                == models@[i]@,
            None => model_with_id(models@, target_model_id@, 0) is None,
        },
{
    let mut i: usize = 0;
    while i < models.len()
        invariant
            i <= models.len(),
            model_with_id(models@, target_model_id@, 0) == model_with_id(
                models@,
                target_model_id@,
                i as int,
            ),
        decreases models.len() - i,
    {
        if str_eq(models[i].id.as_str(), target_model_id) {
            return Some(models[i].clone());
        }
        i = i + 1;
    }
    None
}

} // verus!
