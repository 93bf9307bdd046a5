//! The chat endpoint.

use crate::constants::{ERROR_MISSING_MESSAGES, LM_STUDIO_NATIVE_CHAT};
use crate::error::{bad_request, ProxyError, ProxyErrorV};
use crate::handlers::ollama::images::{
    has_images, has_images_exec, inject_images_into_messages, messages_with_images,
};
use crate::handlers::ollama::keep_alive::{
    apply_keep_alive_ttl, keep_alive_requests_unload, keep_alive_seconds, parse_keep_alive_seconds,
    with_ttl,
};
use crate::handlers::ollama::model_resolution::{
    alias_parameters, effective_format, effective_system_prompt, merged_options,
    resolve_model_with_context,
};
use crate::handlers::ollama::utils::{stream_flag, stream_flag_exec};
use crate::handlers::transform::{normalize_chat_messages, normalized_messages};
use crate::http::request::{
    backend_request, build_lm_studio_request, LMStudioRequestType, LMStudioRequestTypeV,
};
use crate::json::{empty_object, items_view, jstr, lemma_items_view, Json, JsonV};
use crate::model::utils::extract_required_model_name;
use crate::storage::virtual_models::{VirtualModelEntry, VirtualModelEntryV};
use vstd::prelude::*;

verus! {

/// What a chat request says before any backend is asked.
#[derive(Debug)]
pub struct ChatRequest {
    pub model: String,
    pub keep_alive_seconds: Option<i64>,
    pub stream: bool,
    pub messages: Vec<Json>,
}

/// What a contract says of a `ChatRequest`.
pub struct ChatRequestV {
    pub model: Seq<char>,
    pub keep_alive_seconds: Option<i64>,
    pub stream: bool,
    pub messages: Seq<JsonV>,
}

impl View for ChatRequest {
    type V = ChatRequestV;

    open spec fn view(&self) -> ChatRequestV {
        ChatRequestV {
            model: self.model@,
            keep_alive_seconds: self.keep_alive_seconds,
            stream: self.stream,
            messages: items_view(self.messages@),
        }
    }
}

/// The model name of a request, which has to be a text that is not empty.
pub open spec fn required_model(body: JsonV) -> Result<Seq<char>, ProxyErrorV> {
    match body.get("model"@) {
        Some(JsonV::Str(name)) => if name.len() > 0 {
            Ok(name)
        } else {
            Err(bad_request(crate::constants::ERROR_MISSING_MODEL@))
        },
        _ => Err(bad_request(crate::constants::ERROR_MISSING_MODEL@)),
    }
}

/// The messages of a chat request, which have to be a list.
pub open spec fn chat_messages(body: JsonV) -> Option<Seq<JsonV>> {
    match body.get("messages"@) {
        Some(JsonV::Array(items)) => Some(items),
        _ => None,
    }
}

/// What a chat request says, or why it is refused: the model name is
/// looked at first, then the `keep_alive`, then the messages.
pub open spec fn chat_request(body: JsonV) -> Result<ChatRequestV, ProxyErrorV> {
    match required_model(body) {
        Err(e) => Err(e),
        Ok(model) => match keep_alive_seconds(body.get("keep_alive"@)) {
            Err(e) => Err(e),
            Ok(keep_alive) => match chat_messages(body) {
                None => Err(bad_request(ERROR_MISSING_MESSAGES@)),
                Some(messages) => Ok(
                    ChatRequestV {
                        model,
                        keep_alive_seconds: keep_alive,
                        stream: stream_flag(body, false),
                        messages,
                    },
                ),
            },
        },
    }
}

/// Reads a chat request, before any backend is asked.
pub fn validate_chat_request(body: &Json) -> (r: Result<ChatRequest, ProxyError>)
    ensures
        match (r, chat_request(body@)) {
            (Ok(request), Ok(expected)) => request@ == expected,
            (Err(e), Err(expected)) => e@ == expected,
            _ => false,
        },
{
    let model = match extract_required_model_name(body) {
        Ok(name) => name,
        Err(e) => {
            return Err(e);
        },
    };
    let keep_alive = match parse_keep_alive_seconds(body.get("keep_alive")) {
        Ok(seconds) => seconds,
        Err(e) => {
            return Err(e);
        },
    };
    let messages = match body.get("messages") {
        Some(value) => match value.as_array() {
            Some(items) => items,
            None => {
                return Err(ProxyError::bad_request(ERROR_MISSING_MESSAGES));
            },
        },
        None => {
            return Err(ProxyError::bad_request(ERROR_MISSING_MESSAGES));
        },
    };
    Ok(
        ChatRequest {
            model: model.to_owned(),
            keep_alive_seconds: keep_alive,
            stream: stream_flag_exec(body, false),
            messages: crate::json::clone_items(messages),
        },
    )
}

/// What the chat endpoint does with a request whose model is resolved.
#[derive(Debug)]
pub enum ChatAction {
    /// Answer with this body; the backend is not asked.
    Respond(Json),
    /// Trigger the loading of `model_id`, then answer with this body.
    LoadThenRespond { model_id: String, response: Json },
    /// Send `request` to the backend's `endpoint` and turn its answer
    /// into that of the chat endpoint.
    Forward { endpoint: String, request: Json, stream: bool, message_count: usize },
}

/// What a contract says of a `ChatAction`.
pub enum ChatActionV {
    Respond(JsonV),
    LoadThenRespond { model_id: Seq<char>, response: JsonV },
    Forward { endpoint: Seq<char>, request: JsonV, stream: bool, message_count: usize },
}

impl View for ChatAction {
    type V = ChatActionV;

    open spec fn view(&self) -> ChatActionV {
        match self {
            ChatAction::Respond(body) => ChatActionV::Respond(body@),
            ChatAction::LoadThenRespond { model_id, response } => ChatActionV::LoadThenRespond {
                model_id: model_id@,
                response: response@,
            },
            ChatAction::Forward { endpoint, request, stream, message_count } => ChatActionV::Forward {
                endpoint: endpoint@,
                request: request@,
                stream: *stream,
                message_count: *message_count,
            },
        }
    }
}

/// The answer that is made up for a chat without messages.
pub open spec fn chat_hint(model: Seq<char>, created_at: Seq<char>, reason: Seq<char>) -> JsonV {
    empty_object().with("model"@, jstr(model)).with("created_at"@, jstr(created_at)).with(
        "message"@,
        empty_object().with("role"@, jstr("assistant"@)).with("content"@, jstr(""@)),
    ).with("done_reason"@, jstr(reason)).with("done"@, JsonV::Bool(true))
}

/// The messages that go to the backend: the client's, with the system
/// prompt that applies before them, and with the images of the request in
/// the last user message.
pub open spec fn backend_messages(
    body: JsonV,
    messages: Seq<JsonV>,
    alias: Option<VirtualModelEntryV>,
) -> JsonV {
    let normalised = JsonV::Array(
        normalized_messages(messages, effective_system_prompt(body, alias)),
    );
    match body.get("images"@) {
        Some(images) => messages_with_images(normalised, images),
        None => normalised,
    }
}

/// The backend request of a chat.
pub open spec fn chat_backend_request(
    body: JsonV,
    request: ChatRequestV,
    resolved_id: Seq<char>,
    alias: Option<VirtualModelEntryV>,
) -> JsonV {
    let messages = backend_messages(body, request.messages, alias);
    with_ttl(
        backend_request(
            resolved_id,
            LMStudioRequestTypeV::Chat { messages, stream: request.stream },
            merged_options(alias_parameters(alias), body.get("options"@)),
            body.get("tools"@),
            effective_format(body, alias),
        ),
        request.keep_alive_seconds,
    )
}

/// What the chat endpoint does with a request whose model is resolved to
/// `resolved_id`, through `alias` where the name is one. A chat without
/// messages and without images is a hint: with a `keep_alive` of zero it
/// asks to unload the model and is answered at once, without the backend;
/// else it asks to load the model. Any other chat goes to the backend.
pub open spec fn chat_action(
    body: JsonV,
    request: ChatRequestV,
    resolved_id: Seq<char>,
    alias: Option<VirtualModelEntryV>,
    created_at: Seq<char>,
) -> ChatActionV {
    if request.messages.len() == 0 && !has_images(body) {
        if request.keep_alive_seconds == Some(0i64) {
            ChatActionV::Respond(chat_hint(request.model, created_at, "unload"@))
        } else {
            ChatActionV::LoadThenRespond {
                model_id: resolved_id,
                response: chat_hint(request.model, created_at, "load"@),
            }
        }
    } else {
        ChatActionV::Forward {
            endpoint: LM_STUDIO_NATIVE_CHAT@,
            request: chat_backend_request(body, request, resolved_id, alias),
            stream: request.stream,
            message_count: request.messages.len() as usize,
        }
    }
}

/// The answer that is made up for a chat without messages.
fn chat_hint_exec(model: &str, created_at: &str, reason: &str) -> (r: Json)
    ensures
        r@ == chat_hint(model@, created_at@, reason@),
{
    let mut message = Json::object();
    message.insert("role", Json::string("assistant"));
    message.insert("content", Json::string(""));
    let mut response = Json::object();
    response.insert("model", Json::string(model));
    response.insert("created_at", Json::string(created_at));
    response.insert("message", message);
    response.insert("done_reason", Json::string(reason));
    response.insert("done", Json::Bool(true));
    response
}

/// Decides what the chat endpoint does with a request that
/// `validate_chat_request` has read and whose model is resolved.
pub fn handle_ollama_chat(
    body: &Json,
    request: &ChatRequest,
    resolved_id: String,
    alias: Option<&VirtualModelEntry>,
    created_at: &str,
) -> (r: ChatAction)
    ensures
        r@ == chat_action(
            body@,
            request@,
            resolved_id@,
            match alias {
                Some(a) => Some(a@),
                None => None,
            },
            created_at@,
        ),
{
    proof {
        lemma_items_view(request.messages@);
    }
    if request.messages.len() == 0 && !has_images_exec(body) {
        if keep_alive_requests_unload(request.keep_alive_seconds) {
            return ChatAction::Respond(chat_hint_exec(request.model.as_str(), created_at, "unload"));
        }
        return ChatAction::LoadThenRespond {
            model_id: resolved_id,
            response: chat_hint_exec(request.model.as_str(), created_at, "load"),
        };
    }
    let context = resolve_model_with_context(resolved_id, alias, body);
    let system: Option<&str> = match &context.system_prompt {
        Some(s) => Some(s.as_str()),
        None => None,
    };
    let normalised = normalize_chat_messages(&request.messages, system);
    let with_images = match body.get("images") {
        Some(images) => inject_images_into_messages(normalised, images),
        None => normalised,
    };
    let mut lm_request = build_lm_studio_request(
        context.lm_studio_model_id.as_str(),
        LMStudioRequestType::Chat { messages: &with_images, stream: request.stream },
        context.effective_options.as_ref(),
        body.get("tools"),
        context.effective_format.as_ref(),
    );
    apply_keep_alive_ttl(&mut lm_request, request.keep_alive_seconds);
    ChatAction::Forward {
        endpoint: LM_STUDIO_NATIVE_CHAT.to_owned(),
        request: lm_request,
        stream: request.stream,
        message_count: request.messages.len(),
    }
}

} // verus!
