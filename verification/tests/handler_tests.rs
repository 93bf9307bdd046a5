use ollama_lmstudio_proxy::handlers::context::RequestContext;
use ollama_lmstudio_proxy::handlers::lmstudio::{
    determine_passthrough_endpoint_url, forward_raw_response, handle_lmstudio_passthrough,
    handle_passthrough_streaming_response, is_streaming_request, rewrite_model,
    LmStudioPassthroughRequest, PassthroughAnswer, PassthroughStop,
};
use ollama_lmstudio_proxy::handlers::ollama::chat::{
    handle_ollama_chat, validate_chat_request, ChatAction,
};
use ollama_lmstudio_proxy::handlers::ollama::generate::{
    effective_prompt_exec, handle_ollama_generate, validate_generate_request, GenerateAction,
};
use ollama_lmstudio_proxy::handlers::ollama::health::{
    handle_health_check, handle_ollama_version, handle_unsupported, HealthClock, HealthProbe,
};
use ollama_lmstudio_proxy::handlers::ollama::images::{
    build_vision_chat_messages, inject_images_into_messages,
};
use ollama_lmstudio_proxy::handlers::ollama::lifecycle::{
    handle_ollama_copy, handle_ollama_create, handle_ollama_delete, handle_ollama_push,
    validate_copy_request, validate_create_request, validate_push_request, CopyOutcome,
};
use ollama_lmstudio_proxy::handlers::ollama::model_resolution::{
    fetch_model_info_for_id, merge_option_maps, resolve_model_target, resolve_model_with_context,
};
use ollama_lmstudio_proxy::handlers::ollama::models::{handle_ollama_show, validate_show_request};
use ollama_lmstudio_proxy::handlers::ollama::tags::{handle_ollama_ps, handle_ollama_tags};
use ollama_lmstudio_proxy::handlers::ollama::utils::extract_system_prompt;
use ollama_lmstudio_proxy::error::ProxyError;
use ollama_lmstudio_proxy::json::Json;
use ollama_lmstudio_proxy::model::resolver::ModelResolver;
use ollama_lmstudio_proxy::model::types::ModelInfo;
use ollama_lmstudio_proxy::storage::virtual_models::{VirtualModelMetadata, VirtualModelStore};

fn parsed(text: &str) -> Json {
    Json::parse(text).expect("test value is JSON")
}

fn model(id: &str, loaded: bool) -> ModelInfo {
    ModelInfo {
        id: id.to_string(),
        ollama_name: format!("{}:latest", id),
        model_type: "llm".to_string(),
        publisher: "acme".to_string(),
        arch: "arch".to_string(),
        compatibility_type: "gguf".to_string(),
        quantization: "Q4_K_M".to_string(),
        state: if loaded { "loaded".to_string() } else { "not-loaded".to_string() },
        max_context_length: 4096,
        is_loaded: loaded,
        supports_vision: false,
        supports_tools: false,
    }
}

#[test]
fn a_chat_for_an_only_model_is_resolved_and_answered() {
    let body = parsed(
        "{\"model\": \"granite\", \"messages\": [{\"role\": \"user\", \"content\": \"hi\"}], \
         \"stream\": false}",
    );
    let request = validate_chat_request(&body).unwrap();
    assert_eq!(request.model, "granite");
    assert!(!request.stream);
    assert_eq!(request.keep_alive_seconds, None);

    let resolution = ModelResolver::resolve_from_models(
        &ModelResolver::cache_key(&request.model),
        Ok(vec![model("granite-3.0-2b-instruct", true)]),
    )
    .unwrap();
    assert_eq!(resolution.id, "granite-3.0-2b-instruct");

    match handle_ollama_chat(&body, &request, resolution.id, None, "t") {
        ChatAction::Forward { endpoint, request, stream, message_count } => {
            assert_eq!(endpoint, "/v1/chat/completions");
            assert!(!stream);
            assert_eq!(message_count, 1);
            assert_eq!(
                request.to_text(),
                "{\"messages\":[{\"content\":\"hi\",\"role\":\"user\"}],\
                 \"model\":\"granite-3.0-2b-instruct\",\"stream\":false}"
            );
        }
        other => panic!("expected a forward, got {:?}", other),
    }
}

#[test]
fn a_chat_without_messages_is_a_hint() {
    let unload = parsed("{\"model\": \"m\", \"messages\": [], \"keep_alive\": 0}");
    let request = validate_chat_request(&unload).unwrap();
    match handle_ollama_chat(&unload, &request, "m-1".to_string(), None, "t") {
        ChatAction::Respond(body) => assert_eq!(
            body.to_text(),
            "{\"created_at\":\"t\",\"done\":true,\"done_reason\":\"unload\",\
             \"message\":{\"content\":\"\",\"role\":\"assistant\"},\"model\":\"m\"}"
        ),
        other => panic!("expected an answer, got {:?}", other),
    }
    let with_images =
        parsed("{\"model\": \"m\", \"messages\": [], \"keep_alive\": 0, \"images\": [\"QUJD\"]}");
    let request = validate_chat_request(&with_images).unwrap();
    assert!(matches!(
        handle_ollama_chat(&with_images, &request, "m-1".to_string(), None, "t"),
        ChatAction::Forward { .. }
    ));
    let load = parsed("{\"model\": \"m\", \"messages\": [], \"keep_alive\": \"5m\"}");
    let request = validate_chat_request(&load).unwrap();
    match handle_ollama_chat(&load, &request, "m-1".to_string(), None, "t") {
        ChatAction::LoadThenRespond { model_id, response } => {
            assert_eq!(model_id, "m-1");
            assert_eq!(response.get("done_reason").and_then(|v| v.as_str()), Some("load"));
            assert_eq!(response.get("done").and_then(|v| v.as_bool()), Some(true));
        }
        other => panic!("expected a load hint, got {:?}", other),
    }
}

#[test]
fn chat_requests_are_refused_in_order() {
    let no_model = validate_chat_request(&parsed("{\"keep_alive\": \"x\"}")).unwrap_err();
    assert_eq!(no_model.message, "Missing 'model' field");
    let bad_keep_alive =
        validate_chat_request(&parsed("{\"model\": \"m\", \"keep_alive\": \"x\"}")).unwrap_err();
    assert!(bad_keep_alive.message.starts_with("Invalid keep_alive value"));
    let no_messages =
        validate_chat_request(&parsed("{\"model\": \"m\", \"messages\": \"hi\"}")).unwrap_err();
    assert_eq!(no_messages.message, "Missing 'messages' field");
    assert_eq!(no_messages.status_code, 400);
}

#[test]
fn an_alias_brings_its_system_prompt_to_a_chat() {
    let mut store = VirtualModelStore::new();
    let create = parsed("{\"model\": \"my-mistral\", \"from\": \"mistral\", \"system\": \"be terse\"}");
    let created = validate_create_request(&create).unwrap();
    assert_eq!(created.source, "mistral");
    assert!(resolve_model_target(&store, &created.source).is_none());
    store
        .create_from_request(
            &created.model,
            &created.source,
            &create,
            "mistral-7b-instruct".to_string(),
            None,
            "t0",
        )
        .unwrap();

    let body = parsed("{\"model\": \"my-mistral\", \"messages\": [{\"role\": \"user\", \"content\": \"hi\"}]}");
    let request = validate_chat_request(&body).unwrap();
    let (id, alias) = resolve_model_target(&store, &request.model).unwrap();
    assert_eq!(id, "mistral-7b-instruct");
    match handle_ollama_chat(&body, &request, id, Some(&alias), "t1") {
        ChatAction::Forward { request, .. } => {
            let messages = request.get("messages").and_then(|m| m.as_array()).unwrap();
            assert_eq!(messages[0].to_text(), "{\"content\":\"be terse\",\"role\":\"system\"}");
            assert_eq!(messages[1].to_text(), "{\"content\":\"hi\",\"role\":\"user\"}");
            assert_eq!(request.get("model").and_then(|v| v.as_str()), Some("mistral-7b-instruct"));
        }
        other => panic!("expected a forward, got {:?}", other),
    }
}

#[test]
fn the_request_goes_over_the_alias() {
    let metadata = VirtualModelMetadata {
        system_prompt: Some("alias system".to_string()),
        template: None,
        parameters: Some(parsed("{\"temperature\": 0.1, \"top_k\": 5, \"format\": \"text\"}")),
        license: None,
        adapters: None,
        messages: None,
    };
    let mut store = VirtualModelStore::new();
    let alias = store.create_alias("a", "s".to_string(), "t".to_string(), metadata, "now").unwrap();
    let body = parsed(
        "{\"model\": \"a\", \"options\": {\"temperature\": 0.9, \"system\": \"option system\"}, \
         \"format\": \"json\"}",
    );
    let context = resolve_model_with_context("t".to_string(), Some(&alias), &body);
    assert_eq!(
        context.effective_options.map(|v| v.to_text()),
        Some("{\"format\":\"text\",\"system\":\"option system\",\"temperature\":0.9,\"top_k\":5}".to_string())
    );
    assert_eq!(context.effective_format.map(|v| v.to_text()), Some("\"json\"".to_string()));
    assert_eq!(context.system_prompt.as_deref(), Some("option system"));

    let bare = resolve_model_with_context("t".to_string(), Some(&alias), &parsed("{}"));
    assert_eq!(bare.effective_format.map(|v| v.to_text()), Some("\"text\"".to_string()));
    assert_eq!(bare.system_prompt.as_deref(), Some("alias system"));

    assert!(merge_option_maps(None, None).is_none());
    assert_eq!(
        merge_option_maps(Some(&parsed("{\"a\": 1}")), Some(&parsed("[2]"))).map(|v| v.to_text()),
        Some("[2]".to_string())
    );
    assert_eq!(extract_system_prompt(&parsed("{\"system\": \"top\", \"options\": {\"system\": \"o\"}}")).as_deref(), Some("top"));
    assert_eq!(extract_system_prompt(&parsed("{\"system\": 1}")), None);
}

#[test]
fn a_generate_request_with_images_becomes_a_chat() {
    let body = parsed(
        "{\"model\": \"llava\", \"prompt\": \"What is this?\", \"images\": [\"QUJD\"], \
         \"stream\": false}",
    );
    let request = validate_generate_request(&body).unwrap();
    match handle_ollama_generate(&body, &request, "llava-1.5".to_string(), None, "t") {
        GenerateAction::Forward { endpoint, request, stream, prompt_for_estimation } => {
            assert_eq!(endpoint, "/v1/chat/completions");
            assert!(!stream);
            assert_eq!(prompt_for_estimation, "What is this?");
            assert_eq!(
                request.to_text(),
                "{\"messages\":[{\"content\":[{\"text\":\"What is this?\",\"type\":\"text\"},\
                 {\"image_url\":{\"url\":\"data:image/jpeg;base64,QUJD\"},\"type\":\"image_url\"}],\
                 \"role\":\"user\"}],\"model\":\"llava-1.5\",\"stream\":false}"
            );
        }
        other => panic!("expected a forward, got {:?}", other),
    }
}

#[test]
fn a_generate_request_becomes_a_completion_with_the_system_prompt_first() {
    let body = parsed(
        "{\"model\": \"m\", \"prompt\": \"Why?\", \"system\": \"  be brief \", \"keep_alive\": -1, \
         \"stream\": true, \"options\": {\"num_predict\": 9}}",
    );
    let request = validate_generate_request(&body).unwrap();
    match handle_ollama_generate(&body, &request, "m-1".to_string(), None, "t") {
        GenerateAction::Forward { endpoint, request, stream, prompt_for_estimation } => {
            assert_eq!(endpoint, "/v1/completions");
            assert!(stream);
            assert_eq!(prompt_for_estimation, "be brief\n\nWhy?");
            assert_eq!(
                request.to_text(),
                "{\"max_tokens\":9,\"model\":\"m-1\",\"prompt\":\"be brief\\n\\nWhy?\",\
                 \"stream\":true,\"ttl\":-1}"
            );
        }
        other => panic!("expected a forward, got {:?}", other),
    }
    assert_eq!(effective_prompt_exec(Some("  "), "p"), "p");
    assert_eq!(effective_prompt_exec(Some(" s "), ""), "s");
    assert_eq!(effective_prompt_exec(None, "p"), "p");
}

#[test]
fn a_generate_request_without_input_is_a_hint() {
    let unload = parsed("{\"model\": \"m\", \"prompt\": \"\", \"keep_alive\": 0, \"images\": []}");
    let request = validate_generate_request(&unload).unwrap();
    match handle_ollama_generate(&unload, &request, "m-1".to_string(), None, "t") {
        GenerateAction::Respond(body) => assert_eq!(
            body.to_text(),
            "{\"created_at\":\"t\",\"done\":true,\"done_reason\":\"unload\",\"model\":\"m\",\
             \"response\":\"\"}"
        ),
        other => panic!("expected an answer, got {:?}", other),
    }
    let load = parsed("{\"model\": \"m\", \"prompt\": \"\"}");
    let request = validate_generate_request(&load).unwrap();
    assert!(matches!(
        handle_ollama_generate(&load, &request, "m-1".to_string(), None, "t"),
        GenerateAction::LoadThenRespond { ref model_id, .. } if model_id == "m-1"
    ));
    let missing = validate_generate_request(&parsed("{\"model\": \"m\"}")).unwrap_err();
    assert_eq!(missing.message, "Missing 'prompt' field");
}

#[test]
fn images_go_into_the_last_user_message() {
    let messages = parsed(
        "[{\"role\": \"user\", \"content\": \"first\"}, {\"role\": \"user\", \"content\": \
         {\"k\": 1}}, {\"role\": \"assistant\", \"content\": \"reply\"}]",
    );
    let with = inject_images_into_messages(messages.clone(), &parsed("[\"AAA\", 7, \"BBB\"]"));
    let list = with.as_array().unwrap();
    assert_eq!(list[0].to_text(), "{\"content\":\"first\",\"role\":\"user\"}");
    assert_eq!(
        list[1].to_text(),
        "{\"content\":[{\"text\":\"{\\\"k\\\":1}\",\"type\":\"text\"},\
         {\"image_url\":{\"url\":\"data:image/jpeg;base64,AAA\"},\"type\":\"image_url\"},\
         {\"image_url\":{\"url\":\"data:image/jpeg;base64,BBB\"},\"type\":\"image_url\"}],\
         \"role\":\"user\"}"
    );
    assert_eq!(list[2].to_text(), "{\"content\":\"reply\",\"role\":\"assistant\"}");

    for images in ["[]", "[1, 2]", "\"AAA\"", "null"] {
        let same = inject_images_into_messages(messages.clone(), &parsed(images));
        assert_eq!(same.to_text(), messages.to_text());
    }
    let no_user = parsed("[{\"role\": \"assistant\", \"content\": \"x\"}]");
    assert_eq!(
        inject_images_into_messages(no_user.clone(), &parsed("[\"AAA\"]")).to_text(),
        no_user.to_text()
    );
    let vision = build_vision_chat_messages(Some("sys"), "look", None);
    assert_eq!(
        vision.to_text(),
        "[{\"content\":\"sys\",\"role\":\"system\"},{\"content\":\"look\",\"role\":\"user\"}]"
    );
}

#[test]
fn show_skips_the_trigger_for_a_keep_alive_of_zero() {
    let request = validate_show_request(&parsed("{\"model\": \"m\", \"keep_alive\": 0}")).unwrap();
    assert!(!request.trigger_loading);
    let request = validate_show_request(&parsed("{\"model\": \"m\", \"keep_alive\": \"0\"}")).unwrap();
    assert!(!request.trigger_loading);
    let request = validate_show_request(&parsed("{\"model\": \"m\"}")).unwrap();
    assert!(request.trigger_loading);
    let request = validate_show_request(&parsed("{\"model\": \"m\", \"keep_alive\": -1}")).unwrap();
    assert!(request.trigger_loading);
    assert!(validate_show_request(&parsed("{\"model\": \"m\", \"keep_alive\": {}}")).is_err());
}

#[test]
fn show_describes_the_model_and_its_alias() {
    let models = vec![model("phi-2", false), model("granite-3", true)];
    let mut store = VirtualModelStore::new();
    let mut metadata = VirtualModelMetadata::empty();
    metadata.system_prompt = Some("s".to_string());
    let alias = store.create_alias("mine", "granite".to_string(), "granite-3".to_string(), metadata, "t").unwrap();
    let shown = handle_ollama_show("mine", "granite-3", &models, Some(&alias), "now");
    assert_eq!(shown.get("virtual").and_then(|v| v.as_bool()), Some(true));
    assert_eq!(shown.get("alias_name").and_then(|v| v.as_str()), Some("mine"));
    assert_eq!(shown.get("system").and_then(|v| v.as_str()), Some("s"));
    assert_eq!(
        shown.get("template").and_then(|v| v.as_str()),
        Some("{{ if .System }}{{ .System }}\n{{ end }}{{ .Prompt }}")
    );
    assert_eq!(shown.get("modified_at").and_then(|v| v.as_str()), Some("now"));

    let missing = handle_ollama_show("x", "gone", &models, None, "now");
    assert_eq!(
        missing.to_text(),
        "{\"error\":\"Model 'gone' not found in LM Studio\",\"requested\":\"x\",\"resolved_to\":\"gone\"}"
    );
    assert_eq!(fetch_model_info_for_id(&models, "granite-3").unwrap().id, "granite-3");
    assert!(fetch_model_info_for_id(&models, "GRANITE-3").is_none());
}

#[test]
fn tags_list_models_aliases_and_orphans() {
    let models = vec![model("phi-2", false), model("granite-3", true)];
    let mut store = VirtualModelStore::new();
    store.create_alias("mine", "granite".to_string(), "granite-3".to_string(), VirtualModelMetadata::empty(), "t1").unwrap();
    store.create_alias("lost", "old".to_string(), "gone-1".to_string(), VirtualModelMetadata::empty(), "t2").unwrap();
    let tags = handle_ollama_tags(&models, &store.list(), "now");
    let listed: Vec<String> = tags
        .get("models")
        .and_then(|m| m.as_array())
        .unwrap()
        .iter()
        .map(|m| m.get("name").and_then(|v| v.as_str()).unwrap().to_string())
        .collect();
    assert_eq!(listed, vec!["phi-2:latest", "granite-3:latest", "mine", "lost"]);
    let orphan = &tags.get("models").and_then(|m| m.as_array()).unwrap()[3];
    assert_eq!(
        orphan.to_text(),
        "{\"details\":{\"families\":[\"unknown\"],\"family\":\"unknown\",\"format\":\"virtual\",\
         \"parameter_size\":\"unknown\",\"parent_model\":\"old\",\"quantization_level\":\"unknown\"},\
         \"digest\":\"1c9a44eb2e8eaf3da1eb551da310cce7\",\"model\":\"lost\",\"modified_at\":\"t2\",\
         \"name\":\"lost\",\"size\":0}"
    );

    let loaded = ModelResolver::get_loaded_models(&models);
    let ps = handle_ollama_ps(&loaded, &store.list(), "later");
    let running: Vec<String> = ps
        .get("models")
        .and_then(|m| m.as_array())
        .unwrap()
        .iter()
        .map(|m| m.get("name").and_then(|v| v.as_str()).unwrap().to_string())
        .collect();
    assert_eq!(running, vec!["granite-3:latest", "mine"]);
    assert_eq!(handle_ollama_tags(&Vec::new(), &Vec::new(), "t").to_text(), "{\"models\":[]}");
}

#[test]
fn aliases_are_created_copied_and_deleted() {
    let mut store = VirtualModelStore::new();
    let create = parsed("{\"model\": \"a\", \"stream\": false}");
    let request = validate_create_request(&create).unwrap();
    assert_eq!(request.source, "a");
    assert!(!request.stream);
    let entry = store.create_from_request("a", "a", &create, "a-1".to_string(), None, "t0").unwrap();
    let answer = handle_ollama_create(&request, &entry);
    assert_eq!(answer.len(), 1);
    assert_eq!(answer[0].get("status").and_then(|v| v.as_str()), Some("success"));
    let streamed = validate_create_request(&parsed("{\"model\": \"a\", \"from\": \"b\"}")).unwrap();
    let lines: Vec<String> = handle_ollama_create(&streamed, &entry).iter().map(|l| l.to_text()).collect();
    assert_eq!(
        lines,
        vec![
            "{\"model\":\"a\",\"status\":\"reading model metadata\"}",
            "{\"model\":\"a\",\"source\":\"b\",\"status\":\"creating alias\",\"target_model_id\":\"a-1\"}",
            "{\"model\":\"a\",\"status\":\"writing manifest\"}",
            "{\"model\":\"a\",\"status\":\"success\",\"virtual\":true}",
        ]
    );

    let (source, destination) =
        validate_copy_request(&parsed("{\"source\": \"a\", \"destination\": \"b\"}")).unwrap();
    match handle_ollama_copy(&mut store, &source, &destination, None, "t1").unwrap() {
        CopyOutcome::Copied(body) => {
            assert_eq!(body.get("model").and_then(|v| v.as_str()), Some("b"));
            assert_eq!(body.get("target_model_id").and_then(|v| v.as_str()), Some("a-1"));
            assert_eq!(body.get("created_at").and_then(|v| v.as_str()), Some("t1"));
        }
        other => panic!("expected a copy, got {:?}", other),
    }
    assert!(matches!(
        handle_ollama_copy(&mut store, "backend", "c", None, "t2").unwrap(),
        CopyOutcome::NeedsResolution
    ));
    assert!(matches!(
        handle_ollama_copy(&mut store, "backend", "c", Some("backend-1".to_string()), "t2").unwrap(),
        CopyOutcome::Copied(_)
    ));
    assert_eq!(store.get("c").unwrap().source_model, "backend");
    let taken = handle_ollama_copy(&mut store, "a", "b", None, "t3").unwrap_err();
    assert_eq!(taken.message, "model 'b' already exists");
    assert_eq!(
        validate_copy_request(&parsed("{\"destination\": \"b\"}")).unwrap_err().message,
        "Missing 'source' field"
    );
    assert_eq!(
        validate_copy_request(&parsed("{\"source\": \"a\"}")).unwrap_err().message,
        "Missing 'destination' field"
    );

    let deleted = handle_ollama_delete(&mut store, &parsed("{\"model\": \"b:latest\"}")).unwrap();
    assert_eq!(deleted.to_text(), "{\"model\":\"b\",\"status\":\"success\",\"virtual\":true}");
    let unknown = handle_ollama_delete(&mut store, &parsed("{\"model\": \"b\"}")).unwrap_err();
    assert_eq!(unknown.status_code, 404);
    assert_eq!(unknown.message, "Model 'b' not managed by this proxy");
    assert!(handle_ollama_delete(&mut store, &parsed("{}")).is_err());
    assert_eq!(store.list().len(), 2);
}

#[test]
fn a_push_does_nothing_and_says_so() {
    let (model, stream) = validate_push_request(&parsed("{\"model\": \"m\"}")).unwrap();
    assert!(stream);
    let lines = handle_ollama_push(&model, "m-1", stream);
    assert_eq!(lines.len(), 4);
    assert_eq!(
        lines[1].to_text(),
        "{\"model\":\"m\",\"status\":\"starting upload\",\"target_model_id\":\"m-1\"}"
    );
    assert_eq!(
        lines[3].to_text(),
        "{\"detail\":\"Push is a no-op when targeting LM Studio\",\"model\":\"m\",\"status\":\"success\"}"
    );
    let single = handle_ollama_push("m", "m-1", false);
    assert_eq!(
        single[0].to_text(),
        "{\"detail\":\"Push is a no-op when targeting LM Studio\",\"model\":\"m\",\
         \"status\":\"success\",\"target_model_id\":\"m-1\"}"
    );
}

#[test]
fn health_is_reported_in_the_body() {
    let clock = HealthClock { response_time_ms: 12, timestamp: "now".to_string() };
    let healthy = handle_health_check(
        HealthProbe::Answered { status: 200, body: Some(parsed("{\"data\": [1, 2, 3]}")) },
        "http://localhost:1234",
        &clock,
        "1.2.3",
    )
    .unwrap();
    assert_eq!(
        healthy.to_text(),
        "{\"http_status\":200,\"lmstudio_url\":\"http://localhost:1234\",\
         \"models_known_to_lmstudio\":3,\"proxy_version\":\"1.2.3\",\"response_time_ms\":12,\
         \"status\":\"healthy\",\"timestamp\":\"now\"}"
    );
    let unhealthy = handle_health_check(
        HealthProbe::Answered { status: 500, body: Some(parsed("{\"models\": [1]}")) },
        "u",
        &clock,
        "v",
    )
    .unwrap();
    assert_eq!(unhealthy.get("status").and_then(|v| v.as_str()), Some("unhealthy"));
    assert_eq!(unhealthy.get("models_known_to_lmstudio").and_then(|v| v.as_u64()), Some(0));
    let unreachable = handle_health_check(
        HealthProbe::Failed(ProxyError::internal_server_error("request failed")),
        "u",
        &clock,
        "v",
    )
    .unwrap();
    assert_eq!(
        unreachable.to_text(),
        "{\"error_details\":\"LM Studio not available\",\"error_message\":\"request failed\",\
         \"lmstudio_url\":\"u\",\"proxy_version\":\"v\",\"response_time_ms\":12,\
         \"status\":\"unreachable\",\"timestamp\":\"now\"}"
    );
    let cancelled =
        handle_health_check(HealthProbe::Failed(ProxyError::request_cancelled()), "u", &clock, "v")
            .unwrap_err();
    assert!(cancelled.is_cancelled());
    assert_eq!(handle_ollama_version().to_text(), "{\"version\":\"0.13.0\"}");
    let unsupported = handle_unsupported("/api/pull");
    assert_eq!(unsupported.status_code, 501);
    assert_eq!(
        unsupported.message,
        "Model pulling not supported via proxy. Suggestion: Download models through LM Studio interface."
    );
    assert!(handle_unsupported("/other").message.starts_with("Endpoint requires direct Ollama"));
}

#[test]
fn passthrough_requests_are_read_and_rewritten() {
    let request = LmStudioPassthroughRequest {
        method: "POST".to_string(),
        endpoint: "/v1/chat/completions".to_string(),
        body: b"  {\"model\": \"granite\", \"stream\": true}".to_vec(),
        content_type: None,
        query: Some("a=1".to_string()),
    };
    let plan = handle_lmstudio_passthrough(&request).unwrap();
    assert_eq!(plan.model.as_deref(), Some("granite"));
    assert!(plan.stream);
    let rewritten = rewrite_model(plan.json_body.unwrap(), "granite-3.0-2b-instruct");
    assert_eq!(rewritten.to_text(), "{\"model\":\"granite-3.0-2b-instruct\",\"stream\":true}");
    assert!(is_streaming_request(&rewritten));
    assert_eq!(
        determine_passthrough_endpoint_url("http://localhost:1234", &request.endpoint, request.query.as_deref()),
        "http://localhost:1234/v1/chat/completions?a=1"
    );
    assert_eq!(
        determine_passthrough_endpoint_url("http://h", "/v1/models?x=1", Some("y=2")),
        "http://h/v1/models?x=1&y=2"
    );

    let raw = LmStudioPassthroughRequest {
        method: "POST".to_string(),
        endpoint: "/v1/audio".to_string(),
        body: vec![0, 1, 2],
        content_type: Some("application/octet-stream".to_string()),
        query: None,
    };
    let plan = handle_lmstudio_passthrough(&raw).unwrap();
    assert!(plan.json_body.is_none());
    assert!(plan.model.is_none());
    assert!(!plan.stream);

    let broken = LmStudioPassthroughRequest {
        method: "POST".to_string(),
        endpoint: "/v1/chat/completions".to_string(),
        body: b"{not json".to_vec(),
        content_type: Some("Application/JSON".to_string()),
        query: None,
    };
    let err = handle_lmstudio_passthrough(&broken).unwrap_err();
    assert_eq!(err.status_code, 400);
    assert!(err.message.starts_with("Failed to parse JSON body: "));

    assert_eq!(forward_raw_response(true, true, true), PassthroughAnswer::Stream);
    assert_eq!(forward_raw_response(true, false, true), PassthroughAnswer::Json);
    assert_eq!(forward_raw_response(true, false, false), PassthroughAnswer::Raw);
    assert_eq!(forward_raw_response(false, true, true), PassthroughAnswer::Raw);
    assert_eq!(
        handle_passthrough_streaming_response(&PassthroughStop::Cancelled),
        "data: {\"error\": \"Request cancelled by client\", \"cancelled\": true}\n\n"
    );
    assert_eq!(
        handle_passthrough_streaming_response(&PassthroughStop::UpstreamError("eof".to_string())),
        "data: {\"error\": \"streaming error: eof\"}\n\n"
    );
    assert_eq!(
        handle_passthrough_streaming_response(&PassthroughStop::IdleTimeout),
        "data: {\"error\": \"Stream timeout\"}\n\n"
    );
    let context = RequestContext { lmstudio_url: "http://h".to_string() };
    assert_eq!(context.endpoint_url("/v1/models"), "http://h/v1/models");
    assert_eq!(context.append_query_params("http://h/x".to_string(), Some("q")), "http://h/x?q");
    assert_eq!(context.append_query_params("http://h/x?a".to_string(), Some("q")), "http://h/x?a&q");
    assert_eq!(context.append_query_params("http://h/x".to_string(), None), "http://h/x");
}
