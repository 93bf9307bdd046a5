//! The answer of the chat and generate endpoints for a backend response
//! that is not streamed.

use crate::handlers::transform::{
    ollama_chat_response, ollama_generate_response, ResponseClock, ResponseTransformer,
};
use crate::json::{Json, JsonV};
use vstd::prelude::*;

verus! {

/// Which endpoint a response is for, with what its estimates need.
#[derive(Debug)]
pub enum ResponseContext {
    Chat { message_count: usize },
    Generate { prompt: String },
}

/// The answer for a backend response.
pub open spec fn response_for(
    lm_response: JsonV,
    model: Seq<char>,
    context: ResponseContext,
    clock: ResponseClock,
    use_native_stats: bool,
) -> JsonV {
    match context {
        ResponseContext::Chat { message_count } => ollama_chat_response(
            lm_response,
            model,
            message_count,
            clock,
            use_native_stats,
        ),
        ResponseContext::Generate { prompt } => ollama_generate_response(
            lm_response,
            model,
            prompt@,
            clock,
            use_native_stats,
        ),
    }
}

/// The answer for a backend response that is not streamed.
pub fn handle_response(
    lm_response: &Json,
    model_name: &str,
    context: &ResponseContext,
    clock: &ResponseClock,
    use_native_stats: bool,
) -> (r: Json)
    ensures
        r@ == response_for(lm_response@, model_name@, *context, *clock, use_native_stats),
{
    match context {
        ResponseContext::Chat { message_count } => ResponseTransformer::convert_to_ollama_chat(
            lm_response,
            model_name,
            *message_count,
            clock,
            use_native_stats,
        ),
        ResponseContext::Generate { prompt } => ResponseTransformer::convert_to_ollama_generate(
            lm_response,
            model_name,
            prompt.as_str(),
            clock,
            use_native_stats,
        ),
    }
}

} // verus!
