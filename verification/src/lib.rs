//! A translating proxy between the Ollama HTTP API and an LM Studio backend:
//! the request translation, model resolution, retry, streaming and storage
//! rules, each with its contract.

pub mod config;
pub mod constants;
pub mod error;
pub mod handlers;
pub mod http;
pub mod json;
pub mod logging;
pub mod model;
pub mod server;
pub mod storage;
pub mod streaming;
pub mod text;
