//! The version and health endpoints.

use crate::constants::{ERROR_LM_STUDIO_UNAVAILABLE, OLLAMA_SERVER_VERSION};
use crate::error::{cancelled, not_implemented, ProxyError, ProxyErrorKind};
use crate::json::{empty_object, jint, jstr, lemma_items_view, Json, JsonV};
use crate::text::str_eq;
use vstd::prelude::*;

verus! {

/// The answer of the version endpoint.
pub fn handle_ollama_version() -> (r: Json)
    ensures
        r@ == empty_object().with("version"@, jstr(OLLAMA_SERVER_VERSION@)),
{
    let mut response = Json::object();
    response.insert("version", Json::string(OLLAMA_SERVER_VERSION));
    response
}

/// What is said of an endpoint that the proxy does not serve, and what is
/// suggested in its place.
pub open spec fn unsupported_message(endpoint: Seq<char>) -> Seq<char> {
    if endpoint == "/api/create"@ {
        "Model creation not supported via proxy. Suggestion: Load models directly in LM Studio."@
    } else if endpoint == "/api/pull"@ {
        "Model pulling not supported via proxy. Suggestion: Download models through LM Studio interface."@
    } else if endpoint == "/api/push"@ {
        "Model pushing not supported via proxy. Suggestion: Use LM Studio for model management."@
    } else if endpoint == "/api/delete"@ {
        "Model deletion not supported via proxy. Suggestion: Remove models through LM Studio."@
    } else if endpoint == "/api/copy"@ {
        "Model copying not supported via proxy. Suggestion: Use LM Studio for model operations."@
    } else {
        "Endpoint requires direct Ollama functionality not available via this LM Studio proxy. Suggestion: This proxy focuses on inference and basic model listing operations."@
    }
}

/// The error for an endpoint that the proxy does not serve.
pub fn handle_unsupported(endpoint: &str) -> (r: ProxyError)
    ensures
        r@ == not_implemented(unsupported_message(endpoint@)),
{
    if str_eq(endpoint, "/api/create") {
        ProxyError::not_implemented(
            "Model creation not supported via proxy. Suggestion: Load models directly in LM Studio.",
        )
    } else if str_eq(endpoint, "/api/pull") {
        ProxyError::not_implemented(
            "Model pulling not supported via proxy. Suggestion: Download models through LM Studio interface.",
        )
    } else if str_eq(endpoint, "/api/push") {
        ProxyError::not_implemented(
            "Model pushing not supported via proxy. Suggestion: Use LM Studio for model management.",
        )
    } else if str_eq(endpoint, "/api/delete") {
        ProxyError::not_implemented(
            "Model deletion not supported via proxy. Suggestion: Remove models through LM Studio.",
        )
    } else if str_eq(endpoint, "/api/copy") {
        ProxyError::not_implemented(
            "Model copying not supported via proxy. Suggestion: Use LM Studio for model operations.",
        )
    } else {
        ProxyError::not_implemented(
            "Endpoint requires direct Ollama functionality not available via this LM Studio proxy. Suggestion: This proxy focuses on inference and basic model listing operations.",
        )
    }
}

/// How the look at the backend went.
#[derive(Debug)]
pub enum HealthProbe {
    /// The backend answered with `status`; `body` is its answer where that
    /// is JSON.
    Answered { status: u16, body: Option<Json> },
    /// The request failed.
    Failed(ProxyError),
}

/// What the caller measured for a health check.
#[derive(Debug)]
pub struct HealthClock {
    pub response_time_ms: u64,
    pub timestamp: String,
}

/// The number of models that a model list of the backend names: the items
/// of its `models`, or else of its `data`.
pub open spec fn listed_models(body: JsonV) -> int {
    let list = match body.get("models"@) {
        Some(v) => Some(v),
        None => body.get("data"@),
    };
    match list {
        Some(JsonV::Array(items)) => items.len() as int,
        _ => 0,
    }
}

/// The number of models that a model list of the backend names.
fn listed_models_exec(body: &Json) -> (r: usize)
    ensures
        r == listed_models(body@),
{
    let list = match body.get("models") {
        Some(v) => Some(v),
        None => body.get("data"),
    };
    match list {
        Some(v) => match v.as_array() {
            Some(items) => {
                proof {
                    lemma_items_view(items@);
                }
                items.len()
            },
            None => 0,
        },
        None => 0,
    }
}

/// What the health check says after the backend answered.
pub open spec fn health_answered(
    status: u16,
    body: Option<JsonV>,
    lmstudio_url: Seq<char>,
    response_time_ms: u64,
    timestamp: Seq<char>,
    proxy_version: Seq<char>,
) -> JsonV {
    let healthy = 200 <= status < 300;
    let count = match body {
        Some(b) => if healthy {
            listed_models(b)
        } else {
            0
        },
        None => 0,
    };
    empty_object().with(
        "status"@,
        jstr(
            if healthy {
                "healthy"@
            } else {
                "unhealthy"@
            },
        ),
    ).with("lmstudio_url"@, jstr(lmstudio_url)).with("http_status"@, jint(status as int)).with(
        "models_known_to_lmstudio"@,
        jint(count),
    ).with("response_time_ms"@, jint(response_time_ms as int)).with(
        "timestamp"@,
        jstr(timestamp),
    ).with("proxy_version"@, jstr(proxy_version))
}

/// What the health check says after the request failed.
pub open spec fn health_unreachable(
    message: Seq<char>,
    lmstudio_url: Seq<char>,
    response_time_ms: u64,
    timestamp: Seq<char>,
    proxy_version: Seq<char>,
) -> JsonV {
    empty_object().with("status"@, jstr("unreachable"@)).with(
        "lmstudio_url"@,
        jstr(lmstudio_url),
    ).with("error_message"@, jstr(message)).with(
        "error_details"@,
        jstr(ERROR_LM_STUDIO_UNAVAILABLE@),
    ).with("response_time_ms"@, jint(response_time_ms as int)).with(
        "timestamp"@,
        jstr(timestamp),
    ).with("proxy_version"@, jstr(proxy_version))
}

/// The answer of the health check. A cancelled check fails as cancelled;
/// any other outcome is reported in the body.
pub fn handle_health_check(
    probe: HealthProbe,
    lmstudio_url: &str,
    clock: &HealthClock,
    proxy_version: &str,
) -> (r: Result<Json, ProxyError>)
    ensures
        match probe {
            HealthProbe::Answered { status, body } => r matches Ok(answer) && answer@
                == health_answered(
                status,
                crate::json::opt_view(body),
                lmstudio_url@,
                clock.response_time_ms,
                clock.timestamp@,
                proxy_version@,
            ),
            HealthProbe::Failed(e) => if e.kind == ProxyErrorKind::RequestCancelled {
                r matches Err(got) && got@ == cancelled()
            } else {
                r matches Ok(answer) && answer@ == health_unreachable(
                    e.message@,
                    lmstudio_url@,
                    clock.response_time_ms,
                    clock.timestamp@,
                    proxy_version@,
                )
            },
        },
{
    match probe {
        HealthProbe::Answered { status, body } => {
            let healthy = 200 <= status && status < 300;
            let count: usize = match &body {
                Some(b) => if healthy {
                    listed_models_exec(b)
                } else {
                    0
                },
                None => 0,
            };
            let mut response = Json::object();
            response.insert(
                "status",
                Json::string(
                    if healthy {
                        "healthy"
                    } else {
                        "unhealthy"
                    },
                ),
            );
            response.insert("lmstudio_url", Json::string(lmstudio_url));
            response.insert("http_status", Json::unsigned(status as u64));
            response.insert("models_known_to_lmstudio", Json::unsigned(count as u64));
            response.insert("response_time_ms", Json::unsigned(clock.response_time_ms));
            response.insert("timestamp", Json::string(clock.timestamp.as_str()));
            response.insert("proxy_version", Json::string(proxy_version));
            Ok(response)
        },
        HealthProbe::Failed(e) => {
            if e.is_cancelled() {
                return Err(ProxyError::request_cancelled());
            }
            let mut response = Json::object();
            response.insert("status", Json::string("unreachable"));
            response.insert("lmstudio_url", Json::string(lmstudio_url));
            response.insert("error_message", Json::string(e.message.as_str()));
            response.insert("error_details", Json::string(ERROR_LM_STUDIO_UNAVAILABLE));
            response.insert("response_time_ms", Json::unsigned(clock.response_time_ms));
            response.insert("timestamp", Json::string(clock.timestamp.as_str()));
            response.insert("proxy_version", Json::string(proxy_version));
            Ok(response)
        },
    }
}

} // verus!
