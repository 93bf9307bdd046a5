use ollama_lmstudio_proxy::error::ProxyError;
use ollama_lmstudio_proxy::model::resolver::{
    calculate_match_score, find_best_match, find_best_match_index, list_refused, ModelResolver,
    ResolveStep,
};
use ollama_lmstudio_proxy::model::types::{
    ModelInfo, NativeCapabilities, NativeLoadedInstance, NativeModelData, NativeQuantization,
};
use ollama_lmstudio_proxy::model::utils::{clean_model_name, extract_required_model_name};
use ollama_lmstudio_proxy::json::Json;

fn model(id: &str, kind: &str, arch: &str, loaded: bool) -> ModelInfo {
    ModelInfo {
        id: id.to_string(),
        ollama_name: format!("{}:latest", id),
        model_type: kind.to_string(),
        publisher: "acme".to_string(),
        arch: arch.to_string(),
        compatibility_type: "gguf".to_string(),
        quantization: "Q4_K_M".to_string(),
        state: if loaded { "loaded".to_string() } else { "not-loaded".to_string() },
        max_context_length: 4096,
        is_loaded: loaded,
        supports_vision: false,
        supports_tools: false,
    }
}

#[test]
fn canonical_names_lose_latest_and_numeric_tags() {
    assert_eq!(clean_model_name("llama2:latest"), "llama2");
    assert_eq!(clean_model_name("llama2"), "llama2");
    assert_eq!(clean_model_name("model:2"), "model");
    assert_eq!(clean_model_name("model:2:latest"), "model");
    assert_eq!(clean_model_name("mistral:7b-instruct"), "mistral:7b-instruct");
    assert_eq!(clean_model_name(":7"), ":7");
    assert_eq!(clean_model_name("name:"), "name:");
    assert_eq!(clean_model_name(""), "");
    assert_eq!(clean_model_name("a:latest-b"), "a:latest-b");
    assert_eq!(clean_model_name("a:latest:latest"), "a:latest");
    assert_eq!(clean_model_name(":latest"), "");
    assert_eq!(clean_model_name("hf.co/org/Model-7B:latest"), "hf.co/org/Model-7B");
}

#[test]
fn canonical_names_of_the_usual_shape_are_fixed_points() {
    for name in ["llama2:latest", "llama2", "model:42", "granite:3b", "org/model:latest", ""] {
        let once = clean_model_name(name).to_string();
        assert_eq!(clean_model_name(&once), once, "for {}", name);
    }
}

#[test]
fn a_name_with_two_numeric_tags_needs_two_passes() {
    let once = clean_model_name("a:1:2").to_string();
    assert_eq!(once, "a:1");
    assert_eq!(clean_model_name(&once), "a");
}

#[test]
fn model_names_are_required() {
    let body = Json::parse("{\"model\": \"llama2\"}").unwrap();
    assert_eq!(extract_required_model_name(&body).unwrap(), "llama2");
    for bad in ["{}", "{\"model\": \"\"}", "{\"model\": 7}", "[]"] {
        let err = extract_required_model_name(&Json::parse(bad).unwrap()).unwrap_err();
        assert_eq!(err.message, "Missing 'model' field");
        assert_eq!(err.status_code, 400);
    }
}

#[test]
fn scores_add_up_as_stated() {
    let candidate = model("granite-3.0-2b-instruct", "llm", "granite", true);
    assert_eq!(calculate_match_score("granite", &candidate), 14 + 5 + 2 + 7);

    let unloaded = model("granite-3.0-2b-instruct", "llm", "other", false);
    assert_eq!(calculate_match_score("granite", &unloaded), 14 + 7);

    let chatty = model("meta-llama-3", "llm", "llama", false);
    assert_eq!(calculate_match_score("chat", &chatty), 3);

    let vision = model("qwen2-vl", "vlm", "qwen2_vl", false);
    assert_eq!(calculate_match_score("llava", &vision), 3);

    let embedder = model("nomic-embed-text", "embeddings", "bert", false);
    assert_eq!(calculate_match_score("embed", &embedder), 10 + 3);

    let overlap = model("codellama-7b", "llm", "llama", false);
    assert_eq!(calculate_match_score("llama", &overlap), 5 + 5);

    let nothing = model("phi-2", "llm", "phi", false);
    assert_eq!(calculate_match_score("zz", &nothing), 0);
}

#[test]
fn the_first_exact_match_wins() {
    let models = vec![
        model("granite-3.0-2b-instruct", "llm", "granite", true),
        model("Granite", "llm", "granite", false),
        model("granite", "llm", "granite", false),
    ];
    assert_eq!(find_best_match_index("GRANITE", &models), Some(1));
}

#[test]
fn a_long_enough_substring_matches_next() {
    let models = vec![
        model("meta-llama-3.1-8b-instruct-with-a-long-name", "llm", "llama", false),
        model("llama-3.1-8b", "llm", "llama", false),
    ];
    assert_eq!(find_best_match_index("llama-3.1", &models), Some(1));
    assert_eq!(find_best_match_index("llama-3.1-8b-instruct", &models), Some(0));
}

#[test]
fn the_best_score_wins_and_ties_go_to_the_first() {
    let models = vec![
        model("mistral-7b", "llm", "mistral", false),
        model("granite-3.0-2b-instruct", "llm", "granite", false),
        model("granite-3.0-8b-instruct", "llm", "granite", false),
    ];
    assert_eq!(find_best_match_index("granite", &models), Some(1));
    let found = find_best_match("granite", &models).unwrap();
    assert_eq!(found.id, "granite-3.0-2b-instruct");

    let loaded_later = vec![
        model("granite-3.0-2b-instruct", "llm", "granite", false),
        model("granite-3.0-8b-instruct", "llm", "granite", true),
    ];
    assert_eq!(find_best_match_index("granite", &loaded_later), Some(1));
}

#[test]
fn nothing_matches_below_a_score_of_three() {
    let models = vec![model("phi-2", "llm", "phi", true)];
    assert_eq!(find_best_match_index("zz", &models), None);
    assert!(find_best_match("zz", &models).is_none());
    assert_eq!(find_best_match_index("anything", &Vec::new()), None);
}

#[test]
fn a_cached_id_is_the_answer() {
    let resolver = ModelResolver::new("http://localhost:1234".to_string());
    match resolver.resolve_model_name("granite:latest", Some("granite-3.0".to_string())) {
        ResolveStep::Cached(id) => assert_eq!(id, "granite-3.0"),
        other => panic!("expected the cached id, got {:?}", other),
    }
    match resolver.resolve_model_name("granite:latest", None) {
        ResolveStep::FetchModels { canonical, url } => {
            assert_eq!(canonical, "granite");
            assert_eq!(url, "http://localhost:1234/api/v1/models");
        }
        other => panic!("expected a fetch, got {:?}", other),
    }
    assert_eq!(ModelResolver::cache_key("granite:latest"), "granite");
}

#[test]
fn a_resolved_id_is_one_of_the_fetched_models() {
    let models = vec![
        model("mistral-7b", "llm", "mistral", false),
        model("granite-3.0-2b-instruct", "llm", "granite", true),
    ];
    let ids: Vec<String> = models.iter().map(|m| m.id.clone()).collect();
    let resolution = ModelResolver::resolve_from_models("granite", Ok(models)).unwrap();
    assert!(ids.contains(&resolution.id));
    assert_eq!(resolution.id, "granite-3.0-2b-instruct");
    assert_eq!(resolution.cache_key, "granite");
    assert!(resolution.is_loaded);
}

#[test]
fn an_unknown_name_fails_and_is_not_cached() {
    let models = vec![model("phi-2", "llm", "phi", true)];
    let err = ModelResolver::resolve_from_models("zz", Ok(models)).unwrap_err();
    assert_eq!(err.status_code, 404);
    assert_eq!(
        err.message,
        "model 'zz' not found in LM Studio. Available models can be listed via /api/tags"
    );
}

#[test]
fn a_backend_without_the_native_api_is_reported_as_unavailable() {
    let refused = list_refused(404, "404 Not Found");
    assert_eq!(refused.status_code, 404);
    assert_eq!(
        refused.message,
        "native API error (404 Not Found): LM Studio not available. Ensure LM Studio 0.3.6+ is installed"
    );
    let err = ModelResolver::resolve_from_models("granite", Err(refused)).unwrap_err();
    assert_eq!(err.status_code, 503);
    assert!(err.message.starts_with(
        "LM Studio native API not available. Please update to LM Studio 0.3.6+. Original error: native API error (404"
    ));

    let other = ModelResolver::resolve_from_models(
        "granite",
        Err(ProxyError::internal_server_error("boom")),
    )
    .unwrap_err();
    assert_eq!(other.message, "boom");
    assert_eq!(other.status_code, 500);
}

#[test]
fn models_are_made_from_the_backend_list() {
    let native = vec![
        NativeModelData {
            key: "granite-3.0-2b-instruct".to_string(),
            model_type: "llm".to_string(),
            publisher: "ibm".to_string(),
            architecture: Some("granite".to_string()),
            format: None,
            quantization: Some(NativeQuantization { name: Some("Q4_K_M".to_string()) }),
            max_context_length: 8192,
            loaded_instances: vec![NativeLoadedInstance { id: "i1".to_string() }],
            capabilities: Some(NativeCapabilities { vision: None, trained_for_tool_use: Some(true) }),
        },
        NativeModelData {
            key: "org:tagged".to_string(),
            model_type: "vlm".to_string(),
            publisher: "org".to_string(),
            architecture: None,
            format: Some("gguf".to_string()),
            quantization: None,
            max_context_length: 1,
            loaded_instances: Vec::new(),
            capabilities: None,
        },
    ];
    let models = ModelResolver::get_all_models(&native);
    assert_eq!(models.len(), 2);
    assert_eq!(models[0].id, "granite-3.0-2b-instruct");
    assert_eq!(models[0].ollama_name, "granite-3.0-2b-instruct:latest");
    assert_eq!(models[0].arch, "granite");
    assert_eq!(models[0].compatibility_type, "unknown");
    assert_eq!(models[0].quantization, "Q4_K_M");
    assert_eq!(models[0].state, "loaded");
    assert!(models[0].is_loaded);
    assert!(!models[0].supports_vision);
    assert!(models[0].supports_tools);
    assert_eq!(models[1].ollama_name, "org:tagged");
    assert_eq!(models[1].arch, "unknown");
    assert_eq!(models[1].quantization, "unknown");
    assert_eq!(models[1].state, "not-loaded");

    let loaded = ModelResolver::get_loaded_models(&models);
    assert_eq!(loaded.len(), 1);
    assert_eq!(loaded[0].id, "granite-3.0-2b-instruct");
}

#[test]
fn models_describe_themselves() {
    let m = model("Granite-3.0-2B-instruct", "llm", "granite", true);
    assert_eq!(m.determine_capabilities(), vec!["completion".to_string(), "chat".to_string()]);
    assert_eq!(m.calculate_estimated_size(), 1_100_000_000);
    assert_eq!(m.parse_parameters().size_string, "2B");
    let aliased = m.with_alias_name("my-granite");
    assert_eq!(aliased.ollama_name, "my-granite");
    assert_eq!(aliased.id, m.id);

    let mut vision = model("llava-13b", "vlm", "llava", false);
    vision.supports_tools = true;
    vision.quantization = "F16".to_string();
    assert_eq!(
        vision.determine_capabilities(),
        vec![
            "completion".to_string(),
            "chat".to_string(),
            "vision".to_string(),
            "tools".to_string()
        ]
    );
    assert_eq!(vision.calculate_estimated_size(), 26_000_000_000);

    let embedder = model("nomic", "embeddings", "bert", false);
    assert_eq!(embedder.determine_capabilities(), vec!["embedding".to_string()]);
    assert_eq!(embedder.calculate_estimated_size(), 2_200_000_000);
    assert_eq!(embedder.parse_parameters().size_string, "unknown");

    let mut other = model("thing-0.5b", "custom", "x", false);
    other.supports_vision = true;
    other.quantization = "q8_0".to_string();
    assert_eq!(
        other.determine_capabilities(),
        vec!["completion".to_string(), "vision".to_string()]
    );
    assert_eq!(other.calculate_estimated_size(), 500_000_000);
}

#[test]
fn listings_carry_the_digest_of_the_name() {
    let m = model("llama2", "llm", "llama", false);
    let listing = m.to_ollama_tags_model("2025-01-01T00:00:00Z");
    assert_eq!(
        listing.get("digest").and_then(|v| v.as_str()),
        Some("e4f7eb2576f6fe0cd58f517468f9812f")
    );
    assert_eq!(
        listing.to_text(),
        "{\"details\":{\"families\":[\"llama\"],\"family\":\"llama\",\"format\":\"gguf\",\
         \"parameter_size\":\"unknown\",\"parent_model\":\"\",\"quantization_level\":\"Q4_K_M\"},\
         \"digest\":\"e4f7eb2576f6fe0cd58f517468f9812f\",\"model\":\"llama2:latest\",\
         \"modified_at\":\"2025-01-01T00:00:00Z\",\"name\":\"llama2:latest\",\"size\":2200000000}"
    );
    let running = m.to_ollama_ps_model("2025-01-01T00:05:00Z");
    assert_eq!(running.get("size_vram").and_then(|v| v.as_u64()), Some(2_200_000_000));
    assert_eq!(
        running.get("expires_at").and_then(|v| v.as_str()),
        Some("2025-01-01T00:05:00Z")
    );
    let shown = m.to_show_response("2025-01-01T00:00:00Z");
    assert_eq!(
        shown.get("parameters").and_then(|v| v.as_str()),
        Some("temperature 0.7\ntop_p 0.9\ntop_k 40\nrepeat_penalty 1.1")
    );
    assert_eq!(
        shown.get("modelfile").and_then(|v| v.as_str()),
        Some(
            "# Modelfile for llama2:latest\nFROM llama2:latest # (Real data from LM Studio)\n\n\
             PARAMETER temperature 0.7\nPARAMETER top_p 0.9\nPARAMETER top_k 40\n\n\
             TEMPLATE \"\"\"{ if .System }{ .System } { end }{ .Prompt }\"\"\""
        )
    );
    assert_eq!(
        shown.get("model_info").and_then(|i| i.get("lmstudio.max_context_length")).and_then(|v| v.as_u64()),
        Some(4096)
    );
    assert_eq!(shown.get("capabilities").map(|v| v.to_text()), Some("[\"completion\"]".to_string()));
}
