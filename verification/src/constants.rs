//! The fixed paths, texts and numbers of the proxy.

use vstd::prelude::*;

verus! {

/// The backend's model list.
pub const LM_STUDIO_NATIVE_MODELS: &'static str = "/api/v1/models";

/// The backend's chat completion endpoint.
pub const LM_STUDIO_NATIVE_CHAT: &'static str = "/v1/chat/completions";

/// The backend's text completion endpoint.
pub const LM_STUDIO_NATIVE_COMPLETIONS: &'static str = "/v1/completions";

/// The backend's embeddings endpoint.
pub const LM_STUDIO_NATIVE_EMBEDDINGS: &'static str = "/v1/embeddings";

/// The backend's download endpoint.
pub const LM_STUDIO_NATIVE_DOWNLOAD: &'static str = "/api/v1/models/download";

/// The backend's download status endpoint.
pub const LM_STUDIO_NATIVE_DOWNLOAD_STATUS: &'static str = "/api/v1/models/download/status";

/// The Ollama server version that the compatibility endpoints report.
pub const OLLAMA_SERVER_VERSION: &'static str = "0.13.0";

/// The load duration that every response reports, in nanoseconds.
pub const DEFAULT_LOAD_DURATION_NS: u64 = 1_000_000;

/// The share of the elapsed time given to evaluation when no token counts
/// can weigh it: one part in this many.
pub const TIMING_EVAL_RATIO: u64 = 2;

/// The share of the elapsed time given to the prompt when no token counts
/// can weigh it: one part in this many.
pub const TIMING_PROMPT_RATIO: u64 = 4;

/// The number of characters that count as one token in an estimate.
pub const CHARS_PER_TOKEN: u64 = 4;

/// The content type of a JSON answer.
pub const CONTENT_TYPE_JSON: &'static str = "application/json; charset=utf-8";

/// The content type of a stream of the Ollama surface.
pub const CONTENT_TYPE_NDJSON: &'static str = "application/x-ndjson; charset=utf-8";

/// The content type of a stream of server-sent events.
pub const CONTENT_TYPE_SSE: &'static str = "text/event-stream";

/// What the answers say of caching.
pub const HEADER_CACHE_CONTROL: &'static str = "no-cache";

/// What the streamed answers say of the connection.
pub const HEADER_CONNECTION: &'static str = "keep-alive";

/// The origins that may ask.
pub const HEADER_ACCESS_CONTROL_ALLOW_ORIGIN: &'static str = "*";

/// The methods that other origins may use.
pub const HEADER_ACCESS_CONTROL_ALLOW_METHODS: &'static str = "GET, POST, PUT, DELETE, OPTIONS";

/// The headers that other origins may send.
pub const HEADER_ACCESS_CONTROL_ALLOW_HEADERS: &'static str = "Content-Type, Authorization";

/// The temperature that a model description shows; like the other
/// sampling defaults it is kept as its text.
pub const DEFAULT_TEMPERATURE: &'static str = "0.7";

/// The `top_p` that a model description shows.
pub const DEFAULT_TOP_P: &'static str = "0.9";

/// The `top_k` that a model description shows.
pub const DEFAULT_TOP_K: &'static str = "40";

/// The repeat penalty that a model description shows.
pub const DEFAULT_REPEAT_PENALTY: &'static str = "1.1";

/// The minutes after which a listed running model is said to expire.
pub const DEFAULT_KEEP_ALIVE_MINUTES: i64 = 5;

/// The idle time between two chunks after which a stream is given up.
pub const DEFAULT_STREAM_TIMEOUT_SECONDS: u64 = 60;

/// What is said of a request without a model name.
pub const ERROR_MISSING_MODEL: &'static str = "Missing 'model' field";

/// What is said of a chat without a list of messages.
pub const ERROR_MISSING_MESSAGES: &'static str = "Missing 'messages' field";

/// What is said of a generate request without a prompt.
pub const ERROR_MISSING_PROMPT: &'static str = "Missing 'prompt' field";

/// What is said of an embeddings request without an input.
pub const ERROR_MISSING_INPUT: &'static str = "Missing 'input' or 'prompt' field";

/// What is said where the backend took too long.
pub const ERROR_TIMEOUT: &'static str = "Stream timeout";

/// What is said of a request that its client cancelled.
pub const ERROR_CANCELLED: &'static str = "Request cancelled by client";

/// What is said where the backend cannot be reached.
pub const ERROR_LM_STUDIO_UNAVAILABLE: &'static str = "LM Studio not available";

/// The prefix of a data line in a server-sent-events message.
pub const SSE_DATA_PREFIX: &'static str = "data: ";

/// The payload that ends a server-sent-events stream.
pub const SSE_DONE_MESSAGE: &'static str = "[DONE]";

/// What stands between two server-sent-events messages.
pub const SSE_MESSAGE_BOUNDARY: &'static str = "\n\n";

/// The marks by which a timed line of the log tells its kind: this one is
/// the mark of success.
pub const LOG_PREFIX_SUCCESS: &'static str = "\u{2705}";

/// The mark of a failure.
pub const LOG_PREFIX_ERROR: &'static str = "\u{274c}";

/// The mark of a warning.
pub const LOG_PREFIX_WARNING: &'static str = "\u{26a0}\u{fe0f}";

/// The mark of a note.
pub const LOG_PREFIX_INFO: &'static str = "\u{2139}\u{fe0f}";

/// The mark of a connection.
pub const LOG_PREFIX_CONN: &'static str = "\u{2194}\u{fe0f}";

/// The largest JSON body that is accepted, in bytes.
pub const MAX_JSON_BODY_SIZE_BYTES: u64 = 16 * 1024 * 1024;

/// The milliseconds between two polls of a download's status.
pub const DOWNLOAD_STATUS_POLL_INTERVAL_MS: u64 = 900;

} // verus!
