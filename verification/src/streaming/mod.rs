//! The streaming engine: from the backend's server-sent events to the
//! lines of an Ollama stream.

pub mod chunks;
pub mod recovery;
pub mod response;
pub mod sse;
