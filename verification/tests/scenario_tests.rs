use ollama_lmstudio_proxy::error::ProxyError;
use ollama_lmstudio_proxy::handlers::ollama::chat::{
    handle_ollama_chat, validate_chat_request, ChatAction,
};
use ollama_lmstudio_proxy::handlers::retry::{
    execute_request_with_retry, with_retry_and_cancellation, RetryAction, RetryEvent,
};
use ollama_lmstudio_proxy::http::client::handle_json_response;
use ollama_lmstudio_proxy::json::Json;
use ollama_lmstudio_proxy::model::resolver::{
    choose_match, score_candidate, Candidate, ModelResolver,
};
use ollama_lmstudio_proxy::model::types::{
    bytes_per_parameter_percent_exec, named_size_exec, ModelInfo,
};
use ollama_lmstudio_proxy::storage::blob::check_digest;
use ollama_lmstudio_proxy::streaming::sse::{
    handle_streaming_response, StreamClock, StreamContext, StreamEvent,
};

fn mistral() -> ModelInfo {
    ModelInfo {
        id: "mistral-7b-instruct-v0.3".to_string(),
        ollama_name: "mistral-7b-instruct-v0.3:latest".to_string(),
        model_type: "llm".to_string(),
        publisher: "mistralai".to_string(),
        arch: "mistral".to_string(),
        compatibility_type: "gguf".to_string(),
        quantization: "Q4_K_M".to_string(),
        state: "not-loaded".to_string(),
        max_context_length: 32768,
        is_loaded: false,
        supports_vision: false,
        supports_tools: true,
    }
}

#[test]
fn a_streamed_chat_on_a_loading_model_is_retried_and_ends_with_one_last_line() {
    let body = Json::parse(
        "{\"model\": \"mistral\", \"messages\": [{\"role\": \"user\", \"content\": \"ping\"}], \
         \"stream\": true}",
    )
    .unwrap();
    let request = validate_chat_request(&body).unwrap();
    let resolution = ModelResolver::resolve_from_models("mistral", Ok(vec![mistral()])).unwrap();
    let action = handle_ollama_chat(&body, &request, resolution.id.clone(), None, "t");
    let stream = match action {
        ChatAction::Forward { stream, ref endpoint, .. } => {
            assert_eq!(endpoint, "/v1/chat/completions");
            stream
        }
        other => panic!("expected a forward, got {:?}", other),
    };
    assert!(stream);

    let first_answer = handle_json_response(
        404,
        "404 Not Found",
        Ok(Json::parse("{\"error\": {\"message\": \"model is loading\"}}").unwrap()),
    );
    let mut controller = execute_request_with_retry(&resolution.id, true, 15);
    let mut waited = Vec::new();
    let mut triggered = Vec::new();
    let mut attempts = 0;
    let mut pending: Option<Result<Json, ProxyError>> = Some(first_answer);
    let mut next: RetryAction<Vec<Json>> =
        with_retry_and_cancellation(&mut controller, RetryEvent::Begin { cancelled: false });
    let lines = loop {
        next = match next {
            RetryAction::RunOperation => {
                attempts += 1;
                let outcome = match pending.take() {
                    Some(Err(e)) => Err(e),
                    _ => {
                        let mut context = StreamContext::new(&request.model, true, false);
                        let clock = StreamClock { created_at: "t".to_string(), elapsed_ns: 9_000 };
                        let mut lines = Vec::new();
                        for event in [
                            StreamEvent::Chunk(
                                b"data: {\"choices\":[{\"delta\":{\"content\":\"pong\"},\"finish_reason\":\"stop\"}]}\n\n"
                                    .to_vec(),
                            ),
                            StreamEvent::Chunk(b"data: [DONE]\n\n".to_vec()),
                            StreamEvent::End,
                        ] {
                            lines.extend(handle_streaming_response(&mut context, event, &clock));
                        }
                        Ok(lines)
                    }
                };
                with_retry_and_cancellation(&mut controller, RetryEvent::OperationDone(outcome))
            }
            RetryAction::SendTrigger { model } => {
                triggered.push(model);
                with_retry_and_cancellation(&mut controller, RetryEvent::TriggerDone(Ok(200)))
            }
            RetryAction::Wait { seconds } => {
                waited.push(seconds);
                with_retry_and_cancellation(
                    &mut controller,
                    RetryEvent::WaitOver { cancelled: false },
                )
            }
            RetryAction::Finish(result) => break result.unwrap(),
        };
    };
    assert_eq!(attempts, 2);
    assert_eq!(triggered, vec!["mistral-7b-instruct-v0.3".to_string()]);
    assert_eq!(waited, vec![15]);
    let last: Vec<&Json> =
        lines.iter().filter(|l| l.get("done").and_then(|d| d.as_bool()) == Some(true)).collect();
    assert_eq!(last.len(), 1);
    assert_eq!(lines.len(), 2);
    assert_eq!(lines[1].get("done").and_then(|d| d.as_bool()), Some(true));
    assert_eq!(lines[1].get("done_reason").and_then(|d| d.as_str()), Some("stop"));
    assert_eq!(lines[1].get("model").and_then(|d| d.as_str()), Some("mistral"));
}

#[test]
fn candidates_are_scored_and_chosen_by_their_lowercase_forms() {
    let candidate = |id_lower: &str, id_bytes: usize, loaded: bool| Candidate {
        id_lower: id_lower.to_string(),
        id_bytes,
        arch_lower: "granite".to_string(),
        model_type: "llm".to_string(),
        is_loaded: loaded,
    };
    assert_eq!(score_candidate("granite", "granite", &candidate("granite-3.0-2b", 14, true)), 28);
    assert_eq!(score_candidate("granite", "other", &candidate("granite-3.0-2b", 14, false)), 21);
    let list = vec![
        candidate("phi-2", 5, true),
        candidate("granite-3.0-8b-instruct", 23, false),
        candidate("granite-3.0-2b-instruct", 23, true),
        candidate("granite", 7, false),
    ];
    assert_eq!(choose_match("granite", "granite", &list), Some(3));
    assert_eq!(choose_match("granite-3.0-2b", "granite-3.0-2b", &list), Some(2));
    assert_eq!(choose_match("instruct", "instruct", &list[..3].iter().map(|c| Candidate {
        id_lower: c.id_lower.clone(),
        id_bytes: c.id_bytes,
        arch_lower: c.arch_lower.clone(),
        model_type: c.model_type.clone(),
        is_loaded: c.is_loaded,
    }).collect()), Some(2));
    assert_eq!(choose_match("zz", "zz", &list), None);
}

#[test]
fn sizes_and_digests_are_judged_by_their_texts() {
    assert_eq!(named_size_exec("llama-3.1-8b-instruct"), Some((80, "8B")));
    assert_eq!(named_size_exec("qwen-0.5b"), Some((5, "0.5B")));
    assert_eq!(named_size_exec("model-11b"), None);
    assert_eq!(named_size_exec("model-13b"), Some((130, "13B")));
    assert_eq!(named_size_exec("phi"), None);
    assert_eq!(bytes_per_parameter_percent_exec("q4_k_m"), 55);
    assert_eq!(bytes_per_parameter_percent_exec("q2_k"), 35);
    assert_eq!(bytes_per_parameter_percent_exec("fp32"), 400);
    assert_eq!(bytes_per_parameter_percent_exec("unknown"), 55);
    assert!(check_digest("abc", "abc").is_ok());
    let err = check_digest("abc", "abd").unwrap_err();
    assert_eq!(err.status_code, 400);
    assert_eq!(err.message, "digest mismatch. Expected abc, computed abd");
    let m = mistral();
    assert_eq!(
        m.listing_with(7, "d1", "7B").to_text(),
        "{\"details\":{\"families\":[\"mistral\"],\"family\":\"mistral\",\"format\":\"gguf\",\
         \"parameter_size\":\"7B\",\"parent_model\":\"\",\"quantization_level\":\"Q4_K_M\"},\
         \"digest\":\"d1\",\"model\":\"mistral-7b-instruct-v0.3:latest\",\
         \"name\":\"mistral-7b-instruct-v0.3:latest\",\"size\":7}"
    );
}
