use ollama_lmstudio_proxy::handlers::ollama::embeddings::{
    embeddings_answer, extract_embedding_input, finalize_embedding_response,
    handle_ollama_embeddings, validate_embeddings_request, EmbeddingResponseMode,
};
use ollama_lmstudio_proxy::handlers::transform::ResponseClock;
use ollama_lmstudio_proxy::json::Json;

fn parsed(text: &str) -> Json {
    Json::parse(text).expect("test value is JSON")
}

#[test]
fn legacy_mode_promotes_single_embedding() {
    let payload =
        parsed("{\"model\": \"all-minilm\", \"embeddings\": [[0.1, 0.2, 0.3], [0.4, 0.5, 0.6]]}");

    let transformed = finalize_embedding_response(payload, EmbeddingResponseMode::LegacyEmbeddings);

    assert!(transformed.get("embeddings").is_none());
    assert_eq!(
        transformed
            .get("embedding")
            .and_then(|value| value.as_array())
            .map(|values| values.len())
            .unwrap_or_default(),
        3
    );
}

#[test]
fn modern_mode_keeps_embeddings_array() {
    let payload = parsed("{\"model\": \"all-minilm\", \"embeddings\": [[0.1, 0.2, 0.3]]}");

    let transformed = finalize_embedding_response(payload.clone(), EmbeddingResponseMode::Embed);

    assert!(transformed.get("embedding").is_none());
    assert_eq!(
        transformed.get("embeddings").map(|v| v.to_text()),
        payload.get("embeddings").map(|v| v.to_text())
    );
}

#[test]
fn legacy_mode_without_vectors_answers_with_an_empty_one() {
    let transformed = finalize_embedding_response(
        parsed("{\"model\": \"m\", \"embeddings\": []}"),
        EmbeddingResponseMode::LegacyEmbeddings,
    );
    assert_eq!(transformed.to_text(), "{\"embedding\":[],\"model\":\"m\"}");
    let none = finalize_embedding_response(
        parsed("{\"model\": \"m\"}"),
        EmbeddingResponseMode::LegacyEmbeddings,
    );
    assert_eq!(none.to_text(), "{\"embedding\":[],\"model\":\"m\"}");
}

#[test]
fn embeddings_requests_need_an_input() {
    let body = parsed("{\"model\": \"m\", \"prompt\": \"text\"}");
    assert_eq!(extract_embedding_input(&body).unwrap().to_text(), "\"text\"");
    let both = parsed("{\"model\": \"m\", \"prompt\": \"p\", \"input\": [\"a\"]}");
    assert_eq!(extract_embedding_input(&both).unwrap().to_text(), "[\"a\"]");
    let err = validate_embeddings_request(&parsed("{\"model\": \"m\"}")).unwrap_err();
    assert_eq!(err.message, "Missing 'input' or 'prompt' field");
    assert_eq!(err.status_code, 400);
}

#[test]
fn embeddings_requests_go_to_the_embeddings_endpoint() {
    let body = parsed(
        "{\"model\": \"m\", \"input\": \"hello\", \"keep_alive\": \"10s\", \"options\": \
         {\"truncate\": true}, \"format\": \"json\"}",
    );
    let request = validate_embeddings_request(&body).unwrap();
    let (endpoint, lm_request) = handle_ollama_embeddings(&body, &request, "backend-id", None);
    assert_eq!(endpoint, "/v1/embeddings");
    assert_eq!(
        lm_request.to_text(),
        "{\"input\":\"hello\",\"model\":\"backend-id\",\"truncate\":true,\"ttl\":10}"
    );
}

#[test]
fn embeddings_answers_are_made_from_the_backend_data() {
    let lm_response = parsed(
        "{\"data\": [{\"embedding\": [1, 2]}, {\"other\": 0}, {\"embedding\": [3]}], \"usage\": \
         {\"prompt_tokens\": 4}}",
    );
    let clock = ResponseClock {
        created_at: "2025-01-01T00:00:00Z".to_string(),
        elapsed_ns: 4_000_000,
        generation_time_ns: None,
        time_to_first_token_ns: None,
    };
    let modern = embeddings_answer(&lm_response, "m", &clock, EmbeddingResponseMode::Embed);
    assert_eq!(
        modern.to_text(),
        "{\"embeddings\":[[1,2],[3]],\"load_duration\":1000000,\"model\":\"m\",\
         \"prompt_eval_count\":4,\"prompt_eval_duration\":2666666,\"total_duration\":4000000}"
    );
    let legacy =
        embeddings_answer(&lm_response, "m", &clock, EmbeddingResponseMode::LegacyEmbeddings);
    assert_eq!(legacy.get("embedding").map(|v| v.to_text()), Some("[1,2]".to_string()));
    assert!(legacy.get("embeddings").is_none());
}
