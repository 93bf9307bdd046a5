use ollama_lmstudio_proxy::handlers::ollama::download::{
    initiate_lmstudio_download, fetch_lmstudio_download_status, stream_download_status_updates,
    validate_pull_request, wait_for_download_completion, LmStudioDownloadStatus, PollStep,
};
use ollama_lmstudio_proxy::handlers::ollama::download_utils::{
    build_catalog_identifier, build_hf_download_url, determine_download_identifier,
    download_identifier_from_info, looks_like_remote_identifier, publisher_prefers_hf_link,
    DownloadIdentifier,
};
use ollama_lmstudio_proxy::handlers::ollama::lifecycle::{
    handle_ollama_pull, pull_with_model_info, PullStep,
};
use ollama_lmstudio_proxy::handlers::ollama::status_streaming::{
    send_status_chunk, send_status_error_chunk,
};
use ollama_lmstudio_proxy::json::{Json, JsonNumber};

fn status(word: &str) -> LmStudioDownloadStatus {
    LmStudioDownloadStatus {
        job_id: None,
        status: word.to_string(),
        total_size_bytes: None,
        downloaded_bytes: None,
        bytes_per_second: None,
        estimated_completion: None,
        started_at: None,
        completed_at: None,
        error: None,
    }
}

#[test]
fn final_response_populates_success_fields() {
    let status = LmStudioDownloadStatus {
        job_id: Some("job_123".to_string()),
        status: "completed".to_string(),
        total_size_bytes: Some(1024),
        downloaded_bytes: Some(1024),
        bytes_per_second: Some(JsonNumber::Real("2048.0".to_string())),
        estimated_completion: None,
        started_at: Some("2025-01-01T00:00:00Z".to_string()),
        completed_at: Some("2025-01-01T00:00:10Z".to_string()),
        error: None,
    };

    let response = status.into_final_response("mistral:latest").expect("should succeed");

    assert_eq!(response.get("status").and_then(|v| v.as_str()), Some("success"));
    assert_eq!(response.get("model").and_then(|v| v.as_str()), Some("mistral:latest"));
    assert_eq!(response.get("detail").and_then(|v| v.as_str()), Some("completed"));
    assert_eq!(response.get("job_id").and_then(|v| v.as_str()), Some("job_123"));
    assert_eq!(response.get("total").and_then(|v| v.as_u64()), Some(1024));
    assert_eq!(response.get("completed").and_then(|v| v.as_u64()), Some(1024));
}

#[test]
fn final_response_errors_on_failure() {
    let status = LmStudioDownloadStatus {
        job_id: None,
        status: "failed".to_string(),
        total_size_bytes: None,
        downloaded_bytes: None,
        bytes_per_second: None,
        estimated_completion: None,
        started_at: None,
        completed_at: None,
        error: Some("network".to_string()),
    };

    let err = status.into_final_response("model").unwrap_err();
    assert!(err.message.contains("network"));
}

#[test]
fn final_response_complains_of_other_statuses() {
    let err = status("downloading").into_final_response("m").unwrap_err();
    assert_eq!(err.message, "Unexpected download status: downloading");
    assert_eq!(err.status_code, 500);
    let failed = status("failed").into_final_response("m").unwrap_err();
    assert_eq!(failed.message, "LM Studio reported download failure");
}

#[test]
fn statuses_translate_and_end() {
    assert_eq!(status("completed").translated_status(), "success");
    assert_eq!(status("already_downloaded").translated_status(), "success");
    assert_eq!(status("queued").translated_status(), "queued");
    assert!(status("failed").is_terminal());
    assert!(status("failed").is_failure());
    assert!(status("completed").is_terminal());
    assert!(!status("downloading").is_terminal());
    assert!(!status("completed").is_failure());
}

#[test]
fn chunk_carries_what_the_status_has() {
    let mut s = status("downloading");
    s.job_id = Some("j1".to_string());
    s.total_size_bytes = Some(10);
    s.downloaded_bytes = Some(4);
    s.bytes_per_second = Some(JsonNumber::Real("1.5".to_string()));
    s.estimated_completion = Some("soon".to_string());
    assert_eq!(
        s.to_chunk("m").to_text(),
        "{\"bytes_per_second\":1.5,\"completed\":4,\"detail\":\"downloading\",\
         \"estimated_completion\":\"soon\",\"job_id\":\"j1\",\"model\":\"m\",\
         \"status\":\"downloading\",\"total\":10}"
    );
}

#[test]
fn a_pull_that_streams_ends_with_success() {
    let mut first = status("downloading");
    first.job_id = Some("job-1".to_string());
    let update = stream_download_status_updates(&first, "huggingface.co/acme/foo");
    assert_eq!(update.chunk.get("status").and_then(|v| v.as_str()), Some("downloading"));
    match update.next {
        Ok(PollStep::Poll { job_id }) => assert_eq!(job_id, "job-1"),
        other => panic!("expected a poll, got {:?}", other),
    }

    let mut last = status("completed");
    last.job_id = Some("job-1".to_string());
    let done = stream_download_status_updates(&last, "huggingface.co/acme/foo");
    assert_eq!(done.chunk.get("status").and_then(|v| v.as_str()), Some("success"));
    assert_eq!(
        done.chunk.get("model").and_then(|v| v.as_str()),
        Some("huggingface.co/acme/foo")
    );
    assert!(matches!(done.next, Ok(PollStep::Done)));
}

#[test]
fn a_failed_job_ends_its_stream_with_an_error() {
    let update = stream_download_status_updates(&status("failed"), "m");
    assert_eq!(update.chunk.get("status").and_then(|v| v.as_str()), Some("failed"));
    assert_eq!(update.next.unwrap_err().message, "LM Studio download failed");
    assert_eq!(
        send_status_error_chunk("m", "LM Studio download failed").to_text(),
        "{\"error\":\"LM Studio download failed\",\"model\":\"m\",\"status\":\"failed\"}"
    );
    assert_eq!(send_status_chunk(&Json::Bool(true)), "true\n");
}

#[test]
fn a_job_without_id_cannot_be_polled() {
    let err = wait_for_download_completion(&status("downloading")).unwrap_err();
    assert_eq!(err.message, "LM Studio download response missing job identifier");
    assert!(matches!(wait_for_download_completion(&status("completed")), Ok(PollStep::Done)));
    let update = stream_download_status_updates(&status("queued"), "m");
    assert!(update.next.is_err());
}

#[test]
fn pull_requests_are_read() {
    let body = Json::parse("{\"model\": \"huggingface.co/acme/foo\", \"stream\": true}").unwrap();
    let request = validate_pull_request(&body).unwrap();
    assert_eq!(request.model, "huggingface.co/acme/foo");
    assert!(request.stream);
    assert!(request.needs_resolution);
    assert_eq!(request.quantization, None);

    let with_source =
        Json::parse("{\"model\": \"m\", \"source\": \"hf://a/b\", \"quantization\": \"Q4\"}")
            .unwrap();
    let request = validate_pull_request(&with_source).unwrap();
    assert!(request.stream);
    assert!(!request.needs_resolution);
    assert_eq!(request.source.as_deref(), Some("hf://a/b"));
    assert_eq!(request.quantization.as_deref(), Some("Q4"));

    let missing = validate_pull_request(&Json::parse("{}").unwrap()).unwrap_err();
    assert_eq!(missing.message, "Missing 'model' field");
    assert_eq!(missing.status_code, 400);
}

#[test]
fn download_requests_and_status_addresses() {
    let (url, payload) = initiate_lmstudio_download("http://localhost:1234", "acme/foo", Some("Q8"));
    assert_eq!(url, "http://localhost:1234/api/v1/models/download");
    assert_eq!(payload.to_text(), "{\"model\":\"acme/foo\",\"quantization\":\"Q8\"}");
    let (_, plain) = initiate_lmstudio_download("http://localhost:1234", "acme/foo", None);
    assert_eq!(plain.to_text(), "{\"model\":\"acme/foo\"}");
    assert_eq!(
        fetch_lmstudio_download_status("http://localhost:1234", "job-9"),
        "http://localhost:1234/api/v1/models/download/status/job-9"
    );
}

#[test]
fn remote_identifiers_are_known_by_their_scheme() {
    assert!(looks_like_remote_identifier("https://example.com/m.gguf"));
    assert!(looks_like_remote_identifier("HTTP://example.com"));
    assert!(looks_like_remote_identifier("hf://acme/foo"));
    assert!(looks_like_remote_identifier("s3://bucket/key"));
    assert!(looks_like_remote_identifier("gs://bucket/key"));
    assert!(!looks_like_remote_identifier("huggingface.co/acme/foo"));
    assert!(!looks_like_remote_identifier("ftp://example.com"));
    assert!(!looks_like_remote_identifier(""));
}

#[test]
fn publishers_and_their_addresses() {
    assert!(publisher_prefers_hf_link("lmstudio-community"));
    assert!(publisher_prefers_hf_link("HuggingFace"));
    assert!(!publisher_prefers_hf_link("acme"));
    assert_eq!(
        build_hf_download_url(" lmstudio-community// ", "//granite"),
        "https://huggingface.co/lmstudio-community/granite"
    );
    assert_eq!(build_catalog_identifier("acme/", "/foo"), Some("acme/foo".to_string()));
    assert_eq!(build_catalog_identifier("   ", "foo"), None);
}

#[test]
fn the_download_identifier_is_chosen_in_order() {
    let by_source = determine_download_identifier("m", Some("anything"), None);
    assert!(matches!(by_source, DownloadIdentifier::Ready(ref s) if s == "anything"));

    let remote = determine_download_identifier("hf://acme/foo", None, None);
    assert!(matches!(remote, DownloadIdentifier::Ready(ref s) if s == "hf://acme/foo"));

    let slashed = determine_download_identifier(
        "huggingface.co/acme/foo",
        None,
        Some(("huggingface.co/acme/foo".to_string(), None)),
    );
    assert!(matches!(slashed, DownloadIdentifier::Ready(ref s) if s == "huggingface.co/acme/foo"));

    let plain = determine_download_identifier("granite", None, Some(("granite-3".to_string(), None)));
    assert!(
        matches!(plain, DownloadIdentifier::NeedsModelInfo { ref resolved_model_id } if resolved_model_id == "granite-3")
    );

    let unresolved = determine_download_identifier("granite", None, None);
    assert!(matches!(unresolved, DownloadIdentifier::Ready(ref s) if s == "granite"));

    assert_eq!(download_identifier_from_info("granite-3".to_string(), None), "granite-3");
}

#[test]
fn a_pull_asks_for_the_download_of_its_identifier() {
    let body = Json::parse("{\"model\": \"huggingface.co/acme/foo\", \"stream\": true}").unwrap();
    let request = validate_pull_request(&body).unwrap();
    let resolved = Some(("huggingface.co/acme/foo".to_string(), None));
    match handle_ollama_pull(&request, "http://localhost:1234", resolved) {
        PullStep::Download { identifier, url, payload } => {
            assert_eq!(identifier, "huggingface.co/acme/foo");
            assert_eq!(url, "http://localhost:1234/api/v1/models/download");
            assert_eq!(payload.to_text(), "{\"model\":\"huggingface.co/acme/foo\"}");
        }
        other => panic!("expected a download, got {:?}", other),
    }
    let plain = validate_pull_request(
        &Json::parse("{\"model\": \"granite\", \"quantization\": \"Q8\"}").unwrap(),
    )
    .unwrap();
    let step = handle_ollama_pull(&plain, "http://h", Some(("granite-3".to_string(), None)));
    let id = match step {
        PullStep::NeedsModelInfo { resolved_model_id } => resolved_model_id,
        other => panic!("expected a look at the model, got {:?}", other),
    };
    match pull_with_model_info(&plain, "http://h", id, None) {
        PullStep::Download { identifier, payload, .. } => {
            assert_eq!(identifier, "granite-3");
            assert_eq!(payload.to_text(), "{\"model\":\"granite-3\",\"quantization\":\"Q8\"}");
        }
        other => panic!("expected a download, got {:?}", other),
    }
}
