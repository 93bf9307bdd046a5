#[test]
fn test_clean_model_name_suffix_removal() {
    let test_cases = vec![
        ("llama2:latest", "llama2"),
        ("mistral:7b-instruct", "mistral"),
        ("codellama:13b", "codellama"),
        ("granite-3.0-2b-instruct:latest", "granite-3.0-2b-instruct"),
    ];

    for (input, expected) in test_cases {
        let cleaned = input.split(':').next().unwrap_or(input);
        assert_eq!(cleaned, expected, "Failed for input: {}", input);
    }
}

#[test]
fn test_clean_model_name_special_chars() {
    let test_cases = vec![
        ("granite-3.0-2b-instruct", "granite-3.0-2b-instruct"),
        ("llama_2_7b", "llama_2_7b"),
        ("model.v2", "model.v2"),
        ("DeepSeek-R1", "DeepSeek-R1"),
    ];

    for (input, expected) in test_cases {
        assert_eq!(input, expected);
    }
}

#[test]
fn test_model_name_case_sensitivity() {
    let variations = vec![
        "llama2",
        "Llama2",
        "LLAMA2",
        "LLaMA2",
    ];

    for name in variations {
        let normalized = name.to_lowercase();
        assert_eq!(normalized, "llama2");
    }
}

#[test]
fn test_native_model_resolution() {
    let lmstudio_id = "lmstudio-community/meta-llama-3.1-8b-instruct";
    let ollama_name = "llama3.1";

    assert!(lmstudio_id.contains("llama"));
    assert!(ollama_name.contains("llama"));
}

#[test]
fn test_legacy_model_resolution() {
    let simple_name = "llama2";
    let full_path = "lmstudio-community/Meta-Llama-2-7B-Instruct-GGUF";

    assert!(!simple_name.is_empty());
    assert!(!full_path.is_empty());
}

#[test]
fn test_model_scoring_exact_match() {
    let requested = "granite-3.0-2b-instruct";
    let candidate = "granite-3.0-2b-instruct";

    assert_eq!(requested, candidate);
}

#[test]
fn test_model_scoring_partial_match() {
    let requested = "llama2";
    let candidates = vec![
        "llama2",
        "llama2-7b",
        "meta-llama2-chat",
        "codellama",
    ];

    assert!(candidates[0].starts_with(requested));
    assert!(candidates[1].starts_with(requested));
    assert!(candidates[2].contains(requested));
}

#[test]
fn test_model_scoring_quantization() {
    let _requested = "llama2:Q4_K_M";
    let candidates = vec![
        ("llama2", "Q4_K_M"),
        ("llama2", "Q8_0"),
        ("llama2", "F16"),
    ];

    let target_quant = "Q4_K_M";
    assert_eq!(candidates[0].1, target_quant);
}

#[test]
fn test_model_list_refresh() {
    let initial_models = vec!["model1", "model2"];
    let updated_models = vec!["model1", "model2", "model3"];

    assert_eq!(initial_models.len(), 2);
    assert_eq!(updated_models.len(), 3);
}

#[test]
fn test_unknown_model_handling() {
    let requested = "nonexistent-model";
    let available = vec!["model1", "model2"];

    let found = available.iter().any(|&m| m == requested);
    assert!(!found);
}

#[test]
fn test_legacy_model_passthrough() {
    let requested = "some-custom-model";
    let passed_through = requested;

    assert_eq!(requested, passed_through);
}

#[test]
fn test_model_with_org_prefix() {
    let full_id = "microsoft/phi-2";
    let parts: Vec<&str> = full_id.split('/').collect();

    assert_eq!(parts.len(), 2);
    assert_eq!(parts[0], "microsoft");
    assert_eq!(parts[1], "phi-2");
}

#[test]
fn test_model_with_repo_path() {
    let full_path = "TheBloke/Llama-2-7B-Chat-GGUF/llama-2-7b-chat.Q4_K_M.gguf";

    assert!(full_path.contains("TheBloke"));
    assert!(full_path.contains("Llama-2"));
    assert!(full_path.ends_with(".gguf"));
}

#[test]
fn test_resolution_priority() {
    let requested = "granite";
    let candidates = vec![
        "granite-3.0-2b-instruct",
        "ibm-granite-7b",
        "granite",
    ];

    let exact = candidates.iter().find(|&&c| c == requested);
    let prefix = candidates.iter().find(|&&c| c.starts_with(requested));

    if exact.is_some() {
        assert_eq!(*exact.unwrap(), requested);
    } else {
        assert!(prefix.is_some());
    }
}

#[test]
fn test_model_with_version_numbers() {
    let models = vec![
        "llama-3.1-8b",
        "llama-3.0-7b",
        "llama-2-13b",
    ];

    let requested = "llama-3.1";
    let matched = models.iter().find(|&&m| m.starts_with(requested));

    assert!(matched.is_some());
    assert_eq!(*matched.unwrap(), "llama-3.1-8b");
}

#[test]
fn test_model_aliases() {
    let aliases = vec![
        ("llama2", "meta-llama-2"),
        ("llama", "meta-llama-2"),
        ("mistral", "mistral-7b-instruct"),
        ("granite", "granite-3.0-2b-instruct"),
    ];

    for (short, long) in aliases {
        let short_normalized = short.replace('-', "");
        let long_normalized = long.replace('-', "");
        assert!(
            long_normalized.to_lowercase().contains(&short_normalized.to_lowercase()),
            "Expected '{}' to contain '{}'", long, short
        );
    }
}

#[test]
fn test_model_with_size_hints() {
    let requested = "llama2-7b";
    let candidates = vec![
        ("llama2-7b", 7_000_000_000_u64),
        ("llama2-13b", 13_000_000_000_u64),
        ("llama2-70b", 70_000_000_000_u64),
    ];

    let matched = candidates.iter().find(|(name, _)| *name == requested);
    assert!(matched.is_some());
    assert_eq!(matched.unwrap().1, 7_000_000_000_u64);
}

#[test]
fn test_concurrent_resolution() {
    let models = vec!["model1", "model2", "model3"];

    let request1 = "model1";
    let request2 = "model2";

    let result1 = models.contains(&request1);
    let result2 = models.contains(&request2);

    assert!(result1);
    assert!(result2);
}

#[test]
fn test_resolution_error_messages() {
    let requested = "nonexistent-model";
    let available = vec!["model1", "model2", "model3"];

    let found = available.contains(&requested);
    assert!(!found);

    let suggestions = available.join(", ");
    assert!(suggestions.contains("model1"));
    assert!(suggestions.contains("model2"));
}

#[test]
fn test_resolution_with_empty_list() {
    let available: Vec<&str> = vec![];
    let requested = "any-model";

    let found = available.contains(&requested);
    assert!(!found);
}

#[test]
fn test_special_model_names() {
    let special_names = vec![
        "model-with-dashes",
        "model_with_underscores",
        "model.with.dots",
        "model123",
        "123model",
    ];

    for name in special_names {
        assert!(!name.is_empty());
    }
}

#[test]
fn test_model_id_format() {
    let valid_ids = vec![
        "lmstudio-community/meta-llama-3.1-8b-instruct",
        "TheBloke/Mistral-7B-Instruct-v0.2-GGUF",
        "microsoft/phi-2",
    ];

    for id in valid_ids {
        assert!(id.contains('/') || !id.contains('/'));
    }
}

#[test]
fn test_native_mode_full_ids() {
    let native_model = "lmstudio-community/granite-3.0-2b-instruct";

    assert!(native_model.contains('/'));
    assert!(native_model.len() > 10);
}

#[test]
fn test_legacy_mode_simple_names() {
    let legacy_model = "granite";

    assert!(!legacy_model.contains('/'));
}

#[test]
fn test_model_type_detection() {
    let models = vec![
        ("llama2", "llm"),
        ("text-embedding-nomic", "embeddings"),
        ("qwen2-vl", "vlm"),
    ];

    for (name, expected_type) in models {
        if name.contains("embedding") {
            assert_eq!(expected_type, "embeddings");
        } else if name.contains("vl") {
            assert_eq!(expected_type, "vlm");
        } else {
            assert_eq!(expected_type, "llm");
        }
    }
}
