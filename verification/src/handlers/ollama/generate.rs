//! The generate endpoint.

use crate::constants::{ERROR_MISSING_PROMPT, LM_STUDIO_NATIVE_CHAT, LM_STUDIO_NATIVE_COMPLETIONS};
use crate::error::{bad_request, ProxyError, ProxyErrorV};
use crate::handlers::ollama::chat::required_model;
use crate::handlers::ollama::images::{
    build_vision_chat_messages, has_images, has_images_exec, vision_messages,
};
use crate::handlers::ollama::keep_alive::{
    apply_keep_alive_ttl, keep_alive_requests_unload, keep_alive_seconds, parse_keep_alive_seconds,
    with_ttl,
};
use crate::handlers::ollama::model_resolution::{
    alias_parameters, effective_format, effective_system_prompt, merged_options,
    resolve_model_with_context,
};
use crate::handlers::ollama::utils::{stream_flag, stream_flag_exec};
use crate::http::request::{
    backend_request, build_lm_studio_request, LMStudioRequestType, LMStudioRequestTypeV,
};
use crate::json::{empty_object, jstr, Json, JsonV};
use crate::model::utils::extract_required_model_name;
use crate::storage::virtual_models::{VirtualModelEntry, VirtualModelEntryV};
use crate::text::{chars_of, push_chars, push_str, string_of, trim, trim_str};
use vstd::prelude::*;

verus! {

/// What a generate request says before any backend is asked.
#[derive(Debug)]
pub struct GenerateRequest {
    pub model: String,
    pub prompt: String,
    pub keep_alive_seconds: Option<i64>,
    pub stream: bool,
}

/// What a contract says of a `GenerateRequest`.
pub struct GenerateRequestV {
    pub model: Seq<char>,
    pub prompt: Seq<char>,
    pub keep_alive_seconds: Option<i64>,
    pub stream: bool,
}

impl View for GenerateRequest {
    type V = GenerateRequestV;

    open spec fn view(&self) -> GenerateRequestV {
        GenerateRequestV {
            model: self.model@,
            prompt: self.prompt@,
            keep_alive_seconds: self.keep_alive_seconds,
            stream: self.stream,
        }
    }
}

/// What a generate request says, or why it is refused: the model name is
/// looked at first, then the prompt, which has to be a text, then the
/// `keep_alive`.
pub open spec fn generate_request(body: JsonV) -> Result<GenerateRequestV, ProxyErrorV> {
    match required_model(body) {
        Err(e) => Err(e),
        Ok(model) => match body.get("prompt"@) {
            Some(JsonV::Str(prompt)) => match keep_alive_seconds(body.get("keep_alive"@)) {
                Err(e) => Err(e),
                Ok(keep_alive) => Ok(
                    GenerateRequestV {
                        model,
                        prompt,
                        keep_alive_seconds: keep_alive,
                        stream: stream_flag(body, false),
                    },
                ),
            },
            _ => Err(bad_request(ERROR_MISSING_PROMPT@)),
        },
    }
}

/// Reads a generate request, before any backend is asked.
pub fn validate_generate_request(body: &Json) -> (r: Result<GenerateRequest, ProxyError>)
    ensures
        match (r, generate_request(body@)) {
            (Ok(request), Ok(expected)) => request@ == expected,
            (Err(e), Err(expected)) => e@ == expected,
            _ => false,
        },
{
    let model = match extract_required_model_name(body) {
        Ok(name) => name,
        Err(e) => {
            return Err(e);
        },
    };
    let prompt = match body.get_str("prompt") {
        Some(p) => p,
        None => {
            return Err(ProxyError::bad_request(ERROR_MISSING_PROMPT));
        },
    };
    let keep_alive = match parse_keep_alive_seconds(body.get("keep_alive")) {
        Ok(seconds) => seconds,
        Err(e) => {
            return Err(e);
        },
    };
    Ok(
        GenerateRequest {
            model: model.to_owned(),
            prompt: prompt.to_owned(),
            keep_alive_seconds: keep_alive,
            stream: stream_flag_exec(body, false),
        },
    )
}

/// What the generate endpoint does with a request whose model is resolved.
#[derive(Debug)]
pub enum GenerateAction {
    /// Answer with this body; the backend is not asked.
    Respond(Json),
    /// Trigger the loading of `model_id`, then answer with this body.
    LoadThenRespond { model_id: String, response: Json },
    /// Send `request` to the backend's `endpoint` and turn its answer
    /// into that of the generate endpoint; `prompt_for_estimation` is the
    /// prompt whose tokens are estimated.
    Forward { endpoint: String, request: Json, stream: bool, prompt_for_estimation: String },
}

/// What a contract says of a `GenerateAction`.
pub enum GenerateActionV {
    Respond(JsonV),
    LoadThenRespond { model_id: Seq<char>, response: JsonV },
    Forward {
        endpoint: Seq<char>,
        request: JsonV,
        stream: bool,
        prompt_for_estimation: Seq<char>,
    },
}

impl View for GenerateAction {
    type V = GenerateActionV;

    open spec fn view(&self) -> GenerateActionV {
        match self {
            GenerateAction::Respond(body) => GenerateActionV::Respond(body@),
            GenerateAction::LoadThenRespond { model_id, response } => {
                GenerateActionV::LoadThenRespond { model_id: model_id@, response: response@ }
            },
            GenerateAction::Forward { endpoint, request, stream, prompt_for_estimation } => {
                GenerateActionV::Forward {
                    endpoint: endpoint@,
                    request: request@,
                    stream: *stream,
                    prompt_for_estimation: prompt_for_estimation@,
                }
            },
        }
    }
}

/// The answer that is made up for a generate request without input.
pub open spec fn generate_hint(model: Seq<char>, created_at: Seq<char>, reason: Seq<char>)
    -> JsonV {
    empty_object().with("model"@, jstr(model)).with("created_at"@, jstr(created_at)).with(
        "response"@,
        jstr(""@),
    ).with("done_reason"@, jstr(reason)).with("done"@, JsonV::Bool(true))
}

/// A system prompt that is more than whitespace, without the whitespace
/// around it.
pub open spec fn system_text(system: Option<Seq<char>>) -> Option<Seq<char>> {
    match system {
        Some(text) => if trim(text).len() > 0 {
            Some(trim(text))
        } else {
            None
        },
        None => None,
    }
}

/// The prompt of a text completion: the system prompt, an empty line and
/// the prompt; the system prompt alone where the prompt is empty; the
/// prompt alone where no system prompt applies.
pub open spec fn effective_prompt(system: Option<Seq<char>>, prompt: Seq<char>) -> Seq<char> {
    match system_text(system) {
        Some(text) => if prompt.len() == 0 {
            text
        } else {
            text + "\n\n"@ + prompt
        },
        None => prompt,
    }
}

/// What the generate endpoint does with a request whose model is resolved
/// to `resolved_id`, through `alias` where the name is one. A request
/// without prompt and without images is a hint: with a `keep_alive` of zero
/// it asks to unload the model and is answered at once, without the
/// backend; else it asks to load the model. A request with images becomes
/// a chat; any other becomes a text completion.
pub open spec fn generate_action(
    body: JsonV,
    request: GenerateRequestV,
    resolved_id: Seq<char>,
    alias: Option<VirtualModelEntryV>,
    created_at: Seq<char>,
) -> GenerateActionV {
    let options = merged_options(alias_parameters(alias), body.get("options"@));
    let format = effective_format(body, alias);
    let system = effective_system_prompt(body, alias);
    if request.prompt.len() == 0 && !has_images(body) {
        if request.keep_alive_seconds == Some(0i64) {
            GenerateActionV::Respond(generate_hint(request.model, created_at, "unload"@))
        } else {
            GenerateActionV::LoadThenRespond {
                model_id: resolved_id,
                response: generate_hint(request.model, created_at, "load"@),
            }
        }
    } else if has_images(body) {
        GenerateActionV::Forward {
            endpoint: LM_STUDIO_NATIVE_CHAT@,
            request: with_ttl(
                backend_request(
                    resolved_id,
                    LMStudioRequestTypeV::Chat {
                        messages: vision_messages(
                            match system {
                                Some(text) => if trim(text).len() > 0 {
                                    Some(text)
                                } else {
                                    None
                                },
                                None => None,
                            },
                            request.prompt,
                            body.get("images"@),
                        ),
                        stream: request.stream,
                    },
                    options,
                    None,
                    format,
                ),
                request.keep_alive_seconds,
            ),
            stream: request.stream,
            prompt_for_estimation: request.prompt,
        }
    } else {
        GenerateActionV::Forward {
            endpoint: LM_STUDIO_NATIVE_COMPLETIONS@,
            request: with_ttl(
                backend_request(
                    resolved_id,
                    LMStudioRequestTypeV::Completion {
                        prompt: effective_prompt(system, request.prompt),
                        stream: request.stream,
                    },
                    options,
                    None,
                    format,
                ),
                request.keep_alive_seconds,
            ),
            stream: request.stream,
            prompt_for_estimation: effective_prompt(system, request.prompt),
        }
    }
}

/// The answer that is made up for a generate request without input.
fn generate_hint_exec(model: &str, created_at: &str, reason: &str) -> (r: Json)
    ensures
        r@ == generate_hint(model@, created_at@, reason@),
{
    let mut response = Json::object();
    response.insert("model", Json::string(model));
    response.insert("created_at", Json::string(created_at));
    response.insert("response", Json::string(""));
    response.insert("done_reason", Json::string(reason));
    response.insert("done", Json::Bool(true));
    response
}

/// The prompt of a text completion.
pub fn effective_prompt_exec(system: Option<&str>, prompt: &str) -> (r: String)
    ensures
        r@ == effective_prompt(
            match system {
                Some(s) => Some(s@),
                None => None,
            },
            prompt@,
        ),
{
    match system {
        Some(text) => {
            let trimmed = trim_str(text);
            if trimmed.len() > 0 {
                let prompt_chars = chars_of(prompt);
                if prompt_chars.len() == 0 {
                    string_of(&trimmed)
                } else {
                    let mut out = trimmed;
                    push_str(&mut out, "\n\n");
                    push_chars(&mut out, &prompt_chars);
                    string_of(&out)
                }
            } else {
                prompt.to_owned()
            }
        },
        None => prompt.to_owned(),
    }
}

/// Decides what the generate endpoint does with a request that
/// `validate_generate_request` has read and whose model is resolved.
pub fn handle_ollama_generate(
    body: &Json,
    request: &GenerateRequest,
    resolved_id: String,
    alias: Option<&VirtualModelEntry>,
    created_at: &str,
) -> (r: GenerateAction)
    ensures
        r@ == generate_action(
            body@,
            request@,
            resolved_id@,
            match alias {
                Some(a) => Some(a@),
                None => None,
            },
            created_at@,
        ),
{
    let prompt_chars = chars_of(request.prompt.as_str());
    let images_present = has_images_exec(body);
    if prompt_chars.len() == 0 && !images_present {
        if keep_alive_requests_unload(request.keep_alive_seconds) {
            return GenerateAction::Respond(
                generate_hint_exec(request.model.as_str(), created_at, "unload"),
            );
        }
        return GenerateAction::LoadThenRespond {
            model_id: resolved_id,
            response: generate_hint_exec(request.model.as_str(), created_at, "load"),
        };
    }
    let context = resolve_model_with_context(resolved_id, alias, body);
    let system: Option<&str> = match &context.system_prompt {
        Some(s) => Some(s.as_str()),
        None => None,
    };
    if images_present {
        let shown_system: Option<&str> = match system {
            Some(text) => if trim_str(text).len() > 0 {
                Some(text)
            } else {
                None
            },
            None => None,
        };
        let messages = build_vision_chat_messages(
            shown_system,
            request.prompt.as_str(),
            body.get("images"),
        );
        let mut lm_request = build_lm_studio_request(
            context.lm_studio_model_id.as_str(),
            LMStudioRequestType::Chat { messages: &messages, stream: request.stream },
            context.effective_options.as_ref(),
            None,
            context.effective_format.as_ref(),
        );
        apply_keep_alive_ttl(&mut lm_request, request.keep_alive_seconds);
        GenerateAction::Forward {
            endpoint: LM_STUDIO_NATIVE_CHAT.to_owned(),
            request: lm_request,
            stream: request.stream,
            prompt_for_estimation: request.prompt.clone(),
        }
    } else {
        let prompt = effective_prompt_exec(system, request.prompt.as_str());
        let mut lm_request = build_lm_studio_request(
            context.lm_studio_model_id.as_str(),
            LMStudioRequestType::Completion { prompt: prompt.as_str(), stream: request.stream },
            context.effective_options.as_ref(),
            None,
            context.effective_format.as_ref(),
        );
        apply_keep_alive_ttl(&mut lm_request, request.keep_alive_seconds);
        GenerateAction::Forward {
            endpoint: LM_STUDIO_NATIVE_COMPLETIONS.to_owned(),
            request: lm_request,
            stream: request.stream,
            prompt_for_estimation: prompt,
        }
    }
}

} // verus!
