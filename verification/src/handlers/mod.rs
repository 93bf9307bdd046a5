//! The handlers of the Ollama surface and of the passthrough surface: what
//! each decides, between the steps that its caller performs.

pub mod context;
pub mod lmstudio;
pub mod ollama;
pub mod response;
pub mod retry;
pub mod transform;
