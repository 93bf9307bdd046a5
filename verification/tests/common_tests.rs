use ollama_lmstudio_proxy::http::request::{
    convert_structured_format, map_ollama_to_lmstudio_params,
};
use ollama_lmstudio_proxy::json::Json;

fn value(text: &str) -> Json {
    Json::parse(text).expect("test value is JSON")
}

#[test]
fn prefers_explicit_max_tokens_over_num_predict() {
    let options = value("{\"num_predict\": 256, \"max_tokens\": 42}");

    let params = map_ollama_to_lmstudio_params(Some(&options), None);
    assert_eq!(params.get("max_tokens").map(|v| v.to_text()), Some("42".to_string()));
}

#[test]
fn forwards_logit_bias_when_present() {
    let options = value("{\"logit_bias\": {\"123\": -10}, \"temperature\": 0.2}");

    let params = map_ollama_to_lmstudio_params(Some(&options), None);
    assert_eq!(
        params.get("logit_bias").map(|v| v.to_text()),
        Some("{\"123\":-10}".to_string())
    );
}

#[test]
fn converts_schema_format_into_response_format() {
    let schema =
        value("{\"type\": \"object\", \"properties\": {\"answer\": {\"type\": \"string\"}}}");
    let params = map_ollama_to_lmstudio_params(None, Some(&schema));

    let response_format = params.get("response_format").expect("missing response_format");
    assert_eq!(response_format.get("type").and_then(|v| v.as_str()), Some("json_schema"));
    assert_eq!(
        response_format
            .get("json_schema")
            .and_then(|s| s.get("schema"))
            .map(|v| v.to_text()),
        Some(schema.to_text())
    );
}

#[test]
fn maps_json_mode_string_to_json_object_response_format() {
    let params = map_ollama_to_lmstudio_params(None, Some(&Json::string("json")));
    assert_eq!(
        params.get("response_format").map(|v| v.to_text()),
        Some("{\"type\":\"json_object\"}".to_string())
    );
}

#[test]
fn direct_parameters_pass_unchanged() {
    let options = value(
        "{\"temperature\": 0.7, \"top_p\": 0.9, \"top_k\": 40, \"seed\": 42, \"stop\": [\"\\n\"], \
         \"truncate\": true, \"dimensions\": 256, \"system\": \"s\", \"mirostat\": 2}",
    );
    let params = map_ollama_to_lmstudio_params(Some(&options), None);
    assert_eq!(
        params.to_text(),
        "{\"dimensions\":256,\"seed\":42,\"stop\":[\"\\n\"],\"system\":\"s\",\"temperature\":0.7,\
         \"top_k\":40,\"top_p\":0.9,\"truncate\":true}"
    );
}

#[test]
fn num_predict_becomes_max_tokens() {
    let params = map_ollama_to_lmstudio_params(Some(&value("{\"num_predict\": 100}")), None);
    assert_eq!(params.to_text(), "{\"max_tokens\":100}");
}

#[test]
fn first_token_limit_that_is_not_null_wins() {
    let params = map_ollama_to_lmstudio_params(
        Some(&value("{\"max_tokens\": null, \"num_predict\": 7}")),
        None,
    );
    assert_eq!(params.to_text(), "{\"max_tokens\":7}");

    let none = map_ollama_to_lmstudio_params(
        Some(&value("{\"max_tokens\": null, \"num_predict\": null}")),
        None,
    );
    assert_eq!(none.to_text(), "{}");
}

#[test]
fn repeat_penalty_passes() {
    let params = map_ollama_to_lmstudio_params(Some(&value("{\"repeat_penalty\": 1.1}")), None);
    assert_eq!(params.to_text(), "{\"repeat_penalty\":1.1}");
}

#[test]
fn format_among_options_is_used_without_structured_format() {
    let params = map_ollama_to_lmstudio_params(Some(&value("{\"format\": \"JSON\"}")), None);
    assert_eq!(params.to_text(), "{\"response_format\":{\"type\":\"json_object\"}}");

    let overridden = map_ollama_to_lmstudio_params(
        Some(&value("{\"format\": \"json\"}")),
        Some(&Json::string("text")),
    );
    assert_eq!(overridden.to_text(), "{\"response_format\":{\"type\":\"text\"}}");
}

#[test]
fn options_that_are_no_object_map_to_nothing() {
    let params = map_ollama_to_lmstudio_params(Some(&value("[1, 2]")), None);
    assert_eq!(params.to_text(), "{}");
    assert_eq!(map_ollama_to_lmstudio_params(None, None).to_text(), "{}");
}

#[test]
fn structured_format_conversion_by_kind() {
    assert_eq!(
        convert_structured_format(&Json::string("text")).map(|v| v.to_text()),
        Some("{\"type\":\"text\"}".to_string())
    );
    assert!(convert_structured_format(&Json::string("yaml")).is_none());
    assert!(convert_structured_format(&value("3")).is_none());
    assert!(convert_structured_format(&value("[]")).is_none());
    assert_eq!(
        convert_structured_format(&value("{\"type\": \"object\"}")).map(|v| v.to_text()),
        Some(
            "{\"json_schema\":{\"name\":\"ollama_format\",\"schema\":{\"type\":\"object\"},\
             \"strict\":true},\"type\":\"json_schema\"}"
                .to_string()
        )
    );
}

#[test]
fn mapping_twice_gives_what_mapping_once_gives() {
    let options = value(
        "{\"temperature\": 0.2, \"num_predict\": 12, \"repeat_penalty\": 1.2, \"stop\": \"x\", \
         \"num_ctx\": 4096}",
    );
    let schema = value("{\"type\": \"object\"}");
    let once = map_ollama_to_lmstudio_params(Some(&options), Some(&schema));
    let twice = map_ollama_to_lmstudio_params(Some(&once), Some(&schema));
    assert_eq!(once.to_text(), twice.to_text());

    let plain_once = map_ollama_to_lmstudio_params(Some(&options), None);
    let plain_twice = map_ollama_to_lmstudio_params(Some(&plain_once), None);
    assert_eq!(plain_once.to_text(), plain_twice.to_text());
}

#[test]
fn a_format_among_the_options_is_lost_by_a_second_mapping() {
    let options = value("{\"format\": \"json\"}");
    let once = map_ollama_to_lmstudio_params(Some(&options), None);
    let twice = map_ollama_to_lmstudio_params(Some(&once), None);
    assert_eq!(once.to_text(), "{\"response_format\":{\"type\":\"json_object\"}}");
    assert_eq!(twice.to_text(), "{}");
}

#[test]
fn converting_a_converted_format_changes_nothing() {
    let json_mode = convert_structured_format(&Json::string("json")).unwrap();
    assert_eq!(json_mode.to_text(), "{\"type\":\"json_object\"}");
    assert_eq!(convert_structured_format(&json_mode).unwrap().to_text(), json_mode.to_text());

    let text_mode = convert_structured_format(&Json::string("TEXT")).unwrap();
    assert_eq!(text_mode.to_text(), "{\"type\":\"text\"}");
    assert_eq!(convert_structured_format(&text_mode).unwrap().to_text(), text_mode.to_text());

    let schema = value("{\"type\": \"object\", \"required\": [\"a\"]}");
    let wrapped = convert_structured_format(&schema).unwrap();
    assert_eq!(
        wrapped.to_text(),
        "{\"json_schema\":{\"name\":\"ollama_format\",\"schema\":{\"required\":[\"a\"],\
         \"type\":\"object\"},\"strict\":true},\"type\":\"json_schema\"}"
    );
    assert_eq!(convert_structured_format(&wrapped).unwrap().to_text(), wrapped.to_text());

    let given = value("{\"type\": \"json_schema\", \"json_schema\": {\"schema\": {}}}");
    assert_eq!(convert_structured_format(&given).unwrap().to_text(), given.to_text());

    let never = convert_structured_format(&Json::Bool(true));
    assert!(never.is_none());
}

#[test]
fn an_object_that_only_resembles_a_backend_format_is_wrapped() {
    let more_than_a_mode = value("{\"type\": \"text\", \"maxLength\": 3}");
    assert_eq!(
        convert_structured_format(&more_than_a_mode).unwrap().to_text(),
        "{\"json_schema\":{\"name\":\"ollama_format\",\"schema\":{\"maxLength\":3,\
         \"type\":\"text\"},\"strict\":true},\"type\":\"json_schema\"}"
    );
    let no_schema_inside = value("{\"type\": \"json_schema\"}");
    assert_eq!(
        convert_structured_format(&no_schema_inside).unwrap().to_text(),
        "{\"json_schema\":{\"name\":\"ollama_format\",\"schema\":{\"type\":\"json_schema\"},\
         \"strict\":true},\"type\":\"json_schema\"}"
    );
    let other_mode = value("{\"type\": \"xml\"}");
    assert!(convert_structured_format(&other_mode).unwrap().get("json_schema").is_some());
}

#[test]
fn a_converted_format_among_mapped_parameters_stays() {
    let format = value("{\"type\": \"json_object\"}");
    let params = map_ollama_to_lmstudio_params(None, Some(&format));
    assert_eq!(params.to_text(), "{\"response_format\":{\"type\":\"json_object\"}}");
}

#[test]
fn repeat_penalty_goes_on_as_frequency_penalty_beside_another_penalty() {
    let with_presence = value("{\"repeat_penalty\": 1.1, \"presence_penalty\": 0.3}");
    let params = map_ollama_to_lmstudio_params(Some(&with_presence), None);
    assert_eq!(params.to_text(), "{\"frequency_penalty\":1.1}");
    assert!(params.get("repeat_penalty").is_none());

    let with_null_presence = value("{\"repeat_penalty\": 2, \"presence_penalty\": null}");
    let params = map_ollama_to_lmstudio_params(Some(&with_null_presence), None);
    assert_eq!(params.to_text(), "{\"frequency_penalty\":2}");
}

#[test]
fn repeat_penalty_is_dropped_beside_a_frequency_penalty() {
    let with_frequency = value("{\"repeat_penalty\": 1.1, \"frequency_penalty\": 0.5}");
    assert_eq!(map_ollama_to_lmstudio_params(Some(&with_frequency), None).to_text(), "{}");

    let with_both = value(
        "{\"repeat_penalty\": 1.1, \"frequency_penalty\": 0.5, \"presence_penalty\": 0.3}",
    );
    assert_eq!(map_ollama_to_lmstudio_params(Some(&with_both), None).to_text(), "{}");

    let without_repeat = value("{\"presence_penalty\": 0.3, \"temperature\": 1}");
    assert_eq!(
        map_ollama_to_lmstudio_params(Some(&without_repeat), None).to_text(),
        "{\"temperature\":1}"
    );
}

#[test]
fn a_mirrored_penalty_is_lost_by_a_second_mapping() {
    let options = value("{\"repeat_penalty\": 1.1, \"presence_penalty\": 0.3}");
    let once = map_ollama_to_lmstudio_params(Some(&options), None);
    let twice = map_ollama_to_lmstudio_params(Some(&once), None);
    assert_eq!(once.to_text(), "{\"frequency_penalty\":1.1}");
    assert_eq!(twice.to_text(), "{}");
}
