#[test]
fn test_finish_reason_mapping() {
    let mappings = vec![
        ("stop", "stop"),
        ("length", "length"),
        ("tool_calls", "tool_calls"),
        ("content_filter", "content_filter"),
    ];

    for (openai_reason, ollama_reason) in mappings {
        assert_eq!(openai_reason, ollama_reason);
    }
}

#[test]
fn test_prompt_eval_duration_calculation() {
    let prompt_tokens = 100;
    let tokens_per_second = 50.0;

    let duration_secs = prompt_tokens as f64 / tokens_per_second;
    let duration_ns = (duration_secs * 1_000_000_000.0) as u64;

    assert_eq!(duration_ns, 2_000_000_000);
}

#[test]
fn test_eval_duration_calculation() {
    let completion_tokens = 75;
    let tokens_per_second = 50.0;

    let duration_secs = completion_tokens as f64 / tokens_per_second;
    let duration_ns = (duration_secs * 1_000_000_000.0) as u64;

    assert_eq!(duration_ns, 1_500_000_000);
}

#[test]
fn test_total_duration_calculation() {
    let load_duration = 100_000_000_u64;
    let prompt_eval_duration = 200_000_000_u64;
    let eval_duration = 300_000_000_u64;

    let total = load_duration + prompt_eval_duration + eval_duration;
    assert_eq!(total, 600_000_000);
}

#[test]
fn test_model_name_preservation() {
    let lmstudio_model = "granite-3.0-2b-instruct";
    let ollama_model = "granite-3.0-2b-instruct";

    assert_eq!(lmstudio_model, ollama_model);
}

#[test]
fn test_timestamp_formatting() {
    let lmstudio_created = 1731990317_u64;

    let ollama_created_at = "2024-11-18T20:31:57.111706Z";

    assert!(lmstudio_created > 0);
    assert!(ollama_created_at.ends_with('Z'));
    assert!(ollama_created_at.contains('T'));
}

#[test]
fn test_context_array_handling() {
    let context = vec![101, 2023, 2003, 1037, 3231];

    assert!(!context.is_empty());
    assert!(context.len() > 0);
}
