use ollama_lmstudio_proxy::config::{check_config, validate_config, Config, RuntimeConfig};
use ollama_lmstudio_proxy::error::{is_loading_text_exec, ProxyError, ProxyErrorKind};
use ollama_lmstudio_proxy::http::client::{handle_json_response, make_request};
use ollama_lmstudio_proxy::http::error::{map_reqwest_error, TransportFailure};
use ollama_lmstudio_proxy::http::parsing::{
    body_looks_like_json, contains_json_content_type, parse_json_body_template,
    should_parse_as_json,
};
use ollama_lmstudio_proxy::http::request::{prepare_request_body, RequestBuilder};
use ollama_lmstudio_proxy::http::response::{
    build_forward_headers, is_json_response, json_response, Header,
};
use ollama_lmstudio_proxy::json::{Json, JsonNumber};
use ollama_lmstudio_proxy::constants::{
    LOG_PREFIX_ERROR, LOG_PREFIX_SUCCESS, LOG_PREFIX_WARNING,
};
use ollama_lmstudio_proxy::logging::{log_request, log_timed, sanitize_log_message, LogLevel};
use ollama_lmstudio_proxy::server::rejection::{handle_rejection, Rejection};
use ollama_lmstudio_proxy::server::routes::{
    native_passthrough_endpoint, openai_passthrough_endpoint, tolerant_json_body,
};
use ollama_lmstudio_proxy::text::{
    chars_of, contains_str, decimal_string, eq_ignore_ascii_case_exec,
    find_chars, parse_i64_exec, replace_exec, rfind_chars, split_class_exec, str_byte_len, str_eq,
    char_is_whitespace, count_class_exec, string_of, trim_str, utf8_text_exec, CharClass,
};

fn parsed(text: &str) -> Json {
    Json::parse(text).expect("test value is JSON")
}

fn chars(text: &str) -> Vec<char> {
    text.chars().collect()
}

fn header(name: &str, value: &str) -> Header {
    Header { name: name.to_string(), value: value.to_string() }
}

#[test]
fn errors_carry_their_status_and_kind() {
    let cases = [
        (ProxyError::internal_server_error("a"), 500, ProxyErrorKind::InternalServerError),
        (ProxyError::bad_request("a"), 400, ProxyErrorKind::BadRequest),
        (ProxyError::not_found("a"), 404, ProxyErrorKind::NotFound),
        (ProxyError::not_implemented("a"), 501, ProxyErrorKind::NotImplemented),
        (ProxyError::lm_studio_unavailable("a"), 503, ProxyErrorKind::LMStudioUnavailable),
        (ProxyError::new("a".to_string(), 418), 418, ProxyErrorKind::Custom),
    ];
    for (error, status, kind) in cases {
        assert_eq!(error.status_code, status);
        assert_eq!(error.kind, kind);
        assert_eq!(error.message, "a");
        assert!(!error.is_cancelled());
        assert_eq!(error.is_lm_studio_unavailable(), status == 503);
        assert_eq!(error.clone().to_text(), format!("ProxyError {}: a", status));
    }
    let cancelled = ProxyError::request_cancelled();
    assert!(cancelled.is_cancelled());
    assert_eq!(cancelled.status_code, 499);
    assert_eq!(cancelled.to_text(), "ProxyError 499: Request cancelled by client");
    assert!(is_loading_text_exec("warming up model"));
    assert!(!is_loading_text_exec("WARMING UP MODEL"));
}

#[test]
fn log_lines_are_sanitized() {
    assert_eq!(sanitize_log_message("a\u{0}b\u{7f}c\u{9f}\t\n\r\u{a0}"), "a?b?c?\t\n\r\u{a0}");
    assert_eq!(log_request("GET", "/api/tags\u{1b}", None), "GET /api/tags?");
    assert_eq!(log_request("POST", "/api/chat", Some("m\u{7}")), "POST /api/chat (model: m?)");
    assert_eq!(log_timed(LOG_PREFIX_SUCCESS, "op", "1.00ms"), (LogLevel::Info, "op | 1.00ms".to_string()));
    assert_eq!(log_timed(LOG_PREFIX_ERROR, "op", "d").0, LogLevel::Error);
    assert_eq!(log_timed(LOG_PREFIX_WARNING, "op", "d").0, LogLevel::Warn);
    assert_eq!(log_timed("other", "op", "d").0, LogLevel::Info);
}

#[test]
fn settings_are_checked() {
    let mut config = Config::default();
    assert_eq!(config.listen, "0.0.0.0:11434");
    assert_eq!(config.load_timeout_seconds, 15);
    assert_eq!(config.model_resolution_cache_ttl_seconds, 300);
    assert!(validate_config(&config, true).is_ok());
    assert_eq!(
        validate_config(&config, false).unwrap_err(),
        "invalid listen address: 0.0.0.0:11434"
    );
    config.lmstudio_url = "ftp://localhost".to_string();
    assert_eq!(
        validate_config(&config, true).unwrap_err(),
        "invalid LM Studio URL (must start with http:// or https://): ftp://localhost"
    );
    config.lmstudio_url = "http://".to_string();
    assert_eq!(validate_config(&config, true).unwrap_err(), "invalid LM Studio URL format: empty host");
    assert_eq!(
        check_config(&config, true, Some("why".to_string())).unwrap_err(),
        "invalid LM Studio URL format: why"
    );
    assert!(check_config(&config, true, None).is_ok());

    let runtime = RuntimeConfig::default();
    assert_eq!(runtime.max_buffer_size, usize::MAX);
    assert!(runtime.enable_chunk_recovery);
    assert_eq!(runtime.initial_buffer_capacity(), 1024 * 1024);
    let from = RuntimeConfig::from_config(&Config::default());
    assert_eq!(from.initial_buffer_capacity(), 262144);
    assert!(!from.enable_chunk_recovery);
}

#[test]
fn backend_answers_become_values_or_errors() {
    let ok = handle_json_response(200, "200 OK", Ok(parsed("{\"a\": 1}"))).unwrap();
    assert_eq!(ok.to_text(), "{\"a\":1}");
    let nested = handle_json_response(
        404,
        "404 Not Found",
        Ok(parsed("{\"error\": {\"message\": \"model not loaded\"}}")),
    )
    .unwrap_err();
    assert_eq!(nested.message, "model not loaded");
    assert_eq!(nested.status_code, 404);
    assert_eq!(nested.kind, ProxyErrorKind::Custom);
    let flat = handle_json_response(400, "400 Bad Request", Ok(parsed("{\"error\": \"no\"}"))).unwrap_err();
    assert_eq!(flat.message, "no");
    let bare = handle_json_response(502, "502 Bad Gateway", Ok(parsed("{\"error\": {\"code\": 1}}"))).unwrap_err();
    assert_eq!(bare.message, "LM Studio error: 502 Bad Gateway");
    assert_eq!(bare.status_code, 502);
    let garbled = handle_json_response(200, "200 OK", Err("expected value".to_string())).unwrap_err();
    assert_eq!(garbled.message, "invalid JSON from LM Studio: expected value");
    assert_eq!(garbled.status_code, 500);

    assert!(make_request(true, TransportFailure::Connect, "x").is_cancelled());
    let refused = make_request(false, TransportFailure::Connect, "x");
    assert_eq!((refused.status_code, refused.message.as_str()), (503, "LM Studio not available"));
    assert!(refused.is_lm_studio_unavailable());
    let late = make_request(false, TransportFailure::Timeout, "x");
    assert_eq!((late.status_code, late.message.as_str()), (503, "Stream timeout"));
    let wrong = make_request(false, TransportFailure::Request, "bad url");
    assert_eq!((wrong.status_code, wrong.message.as_str()), (500, "LM Studio request failed: bad url"));

    let connect = map_reqwest_error(TransportFailure::Connect, "x");
    assert_eq!((connect.status_code, connect.message.as_str()), (503, "LM Studio not available"));
    let timeout = map_reqwest_error(TransportFailure::Timeout, "x");
    assert_eq!((timeout.status_code, timeout.message.as_str()), (503, "Stream timeout"));
    let other = map_reqwest_error(TransportFailure::Other, "broken pipe");
    assert_eq!((other.status_code, other.message.as_str()), (500, "LM Studio request failed: broken pipe"));
}

#[test]
fn bodies_are_json_by_type_or_by_shape() {
    assert!(contains_json_content_type(Some("application/json; charset=utf-8")));
    assert!(contains_json_content_type(Some("Application/Vnd.Api+JSON")));
    assert!(!contains_json_content_type(Some("text/plain")));
    assert!(!contains_json_content_type(None));
    assert!(is_json_response(Some("application/json")));
    assert!(body_looks_like_json(b" \n\t{\"a\": 1}"));
    assert!(body_looks_like_json(b"[1]"));
    assert!(!body_looks_like_json(b"x{}"));
    assert!(!body_looks_like_json(b""));
    assert!(!body_looks_like_json(b"   "));
    assert!(!body_looks_like_json(&[0xff, b'{']));
    assert!(!should_parse_as_json(Some("application/json"), b""));
    assert!(should_parse_as_json(Some("application/json"), b"x"));
    assert!(should_parse_as_json(None, b"{"));
    assert!(!should_parse_as_json(Some("text/plain"), b"hello"));
    assert_eq!(
        parse_json_body_template(None, b"{\"a\": [1, 2]}").unwrap().map(|v| v.to_text()),
        Some("{\"a\":[1,2]}".to_string())
    );
    assert!(parse_json_body_template(Some("text/plain"), b"hello").unwrap().is_none());
    assert_eq!(
        parse_json_body_template(Some("application/json"), b"hello").unwrap_err(),
        "Failed to parse JSON body: expected value at line 1 column 1"
    );
    assert_eq!(
        parse_json_body_template(None, b"{\"a\": }").unwrap_err(),
        "Failed to parse JSON body: expected value at line 1 column 7"
    );
    assert!(parse_json_body_template(Some("application/json"), &[b'{', 0xff, b'}']).is_err());
    assert!(parse_json_body_template(None, &[b'{', 0xff, b'}']).unwrap().is_none());
}

#[test]
fn bodies_and_headers_go_on_to_the_backend() {
    let prepared = prepare_request_body(Some(b"{}".to_vec()), b"original");
    assert_eq!(prepared.bytes, Some(b"{}".to_vec()));
    assert!(prepared.is_json);
    let raw = prepare_request_body(None, b"original");
    assert_eq!(raw.bytes, Some(b"original".to_vec()));
    assert!(!raw.is_json);
    let none = prepare_request_body(None, b"");
    assert_eq!(none.bytes, None);
    assert!(!none.is_json);

    let original = vec![
        header("Host", "proxy"),
        header("Authorization", "Bearer x"),
        header("content-length", "12"),
        header("Transfer-Encoding", "chunked"),
        header("Content-Type", "text/plain"),
        header("X-Custom", "1"),
    ];
    let kept: Vec<(String, String)> = build_forward_headers(&original, false)
        .into_iter()
        .map(|h| (h.name, h.value))
        .collect();
    assert_eq!(
        kept,
        vec![
            ("Authorization".to_string(), "Bearer x".to_string()),
            ("Content-Type".to_string(), "text/plain".to_string()),
            ("X-Custom".to_string(), "1".to_string()),
        ]
    );
    let forced: Vec<(String, String)> = build_forward_headers(&original, true)
        .into_iter()
        .map(|h| (h.name, h.value))
        .collect();
    assert_eq!(
        forced,
        vec![
            ("Authorization".to_string(), "Bearer x".to_string()),
            ("X-Custom".to_string(), "1".to_string()),
            ("content-type".to_string(), "application/json; charset=utf-8".to_string()),
        ]
    );
    let answer: Vec<(String, String)> =
        json_response(1234).into_iter().map(|h| (h.name, h.value)).collect();
    assert_eq!(answer[0], ("Content-Type".to_string(), "application/json; charset=utf-8".to_string()));
    assert_eq!(answer[1], ("Content-Length".to_string(), "1234".to_string()));
    assert_eq!(answer[2], ("Cache-Control".to_string(), "no-cache".to_string()));
    assert_eq!(answer[3], ("Access-Control-Allow-Origin".to_string(), "*".to_string()));
    assert_eq!(answer.len(), 6);
    let builder = RequestBuilder::new().add_required("a", Json::unsigned(1)).add_required("a", Json::unsigned(2));
    assert_eq!(builder.build().to_text(), "{\"a\":2}");
}

#[test]
fn rejections_have_their_status_and_message() {
    let cases = [
        (Rejection::Proxy { message: "nope".to_string(), status_code: 404 }, 404, "nope"),
        (Rejection::Proxy { message: "odd".to_string(), status_code: 99 }, 500, "odd"),
        (Rejection::NotFound, 404, "endpoint not found"),
        (Rejection::MethodNotAllowed, 405, "method not allowed"),
        (Rejection::InvalidHeader, 400, "invalid header"),
        (Rejection::MissingHeader, 400, "missing required header"),
        (Rejection::PayloadTooLarge, 413, "request body too large"),
        (Rejection::InvalidBody("eof".to_string()), 400, "invalid request body: eof"),
        (Rejection::UnsupportedMediaType, 415, "unsupported media type"),
        (Rejection::Other, 500, "internal server error"),
    ];
    for (rejection, status, message) in cases {
        let (got, body) = handle_rejection(&rejection);
        assert_eq!(got, status);
        assert_eq!(body.get("error").and_then(|v| v.as_str()), Some(message));
        assert_eq!(body.get("status").and_then(|v| v.as_u64()), Some(status as u64));
    }
}

#[test]
fn only_versioned_paths_pass_through() {
    assert_eq!(native_passthrough_endpoint("v1", "models"), Some("/api/v1/models".to_string()));
    assert_eq!(native_passthrough_endpoint("v0", ""), Some("/api/v0".to_string()));
    assert_eq!(native_passthrough_endpoint("v12", "a/b"), Some("/api/v12/a/b".to_string()));
    for version in ["tags", "v", "version", "V1", "v1x", "1", ""] {
        assert_eq!(native_passthrough_endpoint(version, "x"), None, "for {}", version);
    }
    assert_eq!(openai_passthrough_endpoint("chat/completions"), "/v1/chat/completions");
}

#[test]
fn json_values_are_read_and_changed() {
    let mut value = parsed("{\"b\": [1, -2, 2.5, 18446744073709551615], \"a\": {\"x\": null}, \"s\": \"t\"}");
    assert_eq!(value.to_text(), "{\"a\":{\"x\":null},\"b\":[1,-2,2.5,18446744073709551615],\"s\":\"t\"}");
    let items = value.get("b").and_then(|b| b.as_array()).unwrap();
    assert_eq!(items[0].as_u64(), Some(1));
    assert_eq!(items[0].as_i64(), Some(1));
    assert_eq!(items[1].as_i64(), Some(-2));
    assert_eq!(items[1].as_u64(), None);
    assert_eq!(items[2].as_i64(), None);
    assert!(matches!(items[2], Json::Number(JsonNumber::Real(ref t)) if t == "2.5"));
    assert_eq!(items[3].as_u64(), Some(u64::MAX));
    assert_eq!(items[3].as_i64(), None);
    assert!(value.get("a").unwrap().get("x").unwrap().is_null());
    assert!(value.has("s"));
    assert!(!value.has("t"));
    assert_eq!(value.get_str("s"), Some("t"));
    assert_eq!(value.get_str("a"), None);
    assert!(value.is_object());

    value.insert("s", Json::Bool(true));
    value.insert("z", Json::signed(-7));
    value.insert("d", Json::decimal("0.25"));
    value.remove("a");
    value.remove("missing");
    assert_eq!(value.to_text(), "{\"b\":[1,-2,2.5,18446744073709551615],\"d\":0.25,\"s\":true,\"z\":-7}");

    let doubled = Json::Object(vec![
        ("k".to_string(), Json::unsigned(1)),
        ("k".to_string(), Json::unsigned(2)),
    ]);
    assert_eq!(doubled.get("k").and_then(|v| v.as_u64()), Some(2));
    assert_eq!(doubled.to_text(), "{\"k\":2}");
    let mut cleared = doubled.clone();
    cleared.remove("k");
    assert_eq!(cleared.to_text(), "{}");

    let mut base = parsed("{\"a\": 1, \"b\": 2}");
    base.merge_from(&parsed("{\"b\": 3, \"c\": 4}"));
    assert_eq!(base.to_text(), "{\"a\":1,\"b\":3,\"c\":4}");
    base.merge_from(&parsed("[1]"));
    assert_eq!(base.to_text(), "{\"a\":1,\"b\":3,\"c\":4}");
    let mut list = parsed("[1]");
    list.insert("a", Json::Null);
    list.merge_from(&parsed("{\"a\": 1}"));
    assert_eq!(list.to_text(), "[1]");

    assert!(Json::parse("{not json").is_none());
    assert!(Json::parse("").is_none());
    assert_eq!(Json::string("a\"b").to_text(), "\"a\\\"b\"");
    assert_eq!(Json::array(vec![Json::Null, Json::object()]).to_text(), "[null,{}]");
}

#[test]
fn texts_are_searched_split_and_joined() {
    let hay = chars("one two one");
    assert_eq!(find_chars(&hay, &chars("one")), Some(0));
    assert_eq!(rfind_chars(&hay, &chars("one")), Some(8));
    assert_eq!(find_chars(&hay, &chars("three")), None);
    assert_eq!(find_chars(&hay, &chars("")), Some(0));
    assert_eq!(rfind_chars(&hay, &chars("")), Some(11));
    assert!(contains_str(&hay, "e t"));
    assert!(!contains_str(&chars("ab"), "abc"));
    assert_eq!(chars_of("h\u{e9}"), vec!['h', '\u{e9}']);
    assert_eq!(string_of(&chars("h\u{e9}llo")), "h\u{e9}llo");
    assert_eq!(str_byte_len("h\u{e9}"), 3);
    assert!(str_eq("a", "a"));
    assert!(!str_eq("a", "A"));
    assert!(eq_ignore_ascii_case_exec("JSON", "json"));
    assert!(!eq_ignore_ascii_case_exec("\u{c9}", "\u{e9}"));
    assert_eq!(trim_str(" \u{a0}\t x y \n"), chars("x y"));
    assert_eq!(trim_str(" \n "), chars(""));
    assert_eq!(
        split_class_exec(&chars("a-b__c:"), CharClass::IdSeparator),
        vec![chars("a"), chars("b"), chars(""), chars("c"), chars("")]
    );
    assert_eq!(replace_exec(&chars("aaa"), "aa", "b"), chars("ba"));
    assert_eq!(replace_exec(&chars("x,\n}y,\n}"), ",\n}", "\n}"), chars("x\n}y\n}"));
    assert_eq!(decimal_string(0), "0");
    assert_eq!(decimal_string(907), "907");
    assert_eq!(decimal_string(u64::MAX), "18446744073709551615");
    assert_eq!(parse_i64_exec(&chars("-9223372036854775808")), Some(i64::MIN));
    assert_eq!(parse_i64_exec(&chars("9223372036854775807")), Some(i64::MAX));
    assert_eq!(parse_i64_exec(&chars("9223372036854775808")), None);
    assert_eq!(parse_i64_exec(&chars("-9223372036854775809")), None);
    assert_eq!(parse_i64_exec(&chars("007")), Some(7));
    assert_eq!(parse_i64_exec(&chars("")), None);
    assert_eq!(parse_i64_exec(&chars("-")), None);
    assert_eq!(parse_i64_exec(&chars("1 ")), None);
    assert_eq!(parse_i64_exec(&chars("99999999999999999999999999")), None);
    assert_eq!(utf8_text_exec(b"ok"), Some("ok"));
    assert_eq!(utf8_text_exec(&[0xc3, 0xa9]), Some("\u{e9}"));
    assert_eq!(utf8_text_exec(&[0xc3]), None);
}

#[test]
fn bytes_are_read_as_json_or_refused_with_the_reason() {
    assert_eq!(Json::parse_bytes(b" [1, {\"a\": null}] ").unwrap().to_text(), "[1,{\"a\":null}]");
    assert_eq!(Json::parse_bytes(b"").unwrap_err(), "EOF while parsing a value at line 1 column 0");
    assert_eq!(Json::parse_bytes(b"[1,]").unwrap_err(), "trailing comma at line 1 column 4");
    assert!(Json::parse_bytes(&[b'"', 0xff, b'"']).is_err());
}

#[test]
fn whitespace_is_what_the_standard_library_takes_for_it() {
    let mut code: u32 = 0;
    while code <= 0x10ffff {
        if let Some(c) = char::from_u32(code) {
            assert_eq!(char_is_whitespace(c), c.is_whitespace(), "U+{:04X}", code);
        }
        code += 1;
    }
}

#[test]
fn trimming_takes_every_kind_of_whitespace() {
    let trimmed: String = trim_str("\u{3000}\t a\u{a0}b \u{2028}\u{85}\r\n").into_iter().collect();
    assert_eq!(trimmed, "a\u{a0}b");
    let kept: String = trim_str("\u{200b}a\u{feff}").into_iter().collect();
    assert_eq!(kept, "\u{200b}a\u{feff}");
}

#[test]
fn characters_of_a_class_are_counted() {
    let text: Vec<char> = "1h 30m, 07".chars().collect();
    assert_eq!(count_class_exec(&text, CharClass::Digit), 5);
    assert_eq!(count_class_exec(&text, CharClass::Whitespace), 2);
    assert_eq!(count_class_exec(&text, CharClass::Only('0')), 2);
    assert_eq!(count_class_exec(&Vec::new(), CharClass::Digit), 0);
}

#[test]
fn tolerant_json_accepts_missing_content_type() {
    let value = tolerant_json_body(b"{\"model\":\"demo\"}").expect("JSON should parse without header");
    assert_eq!(value.get("model").and_then(|m| m.as_str()), Some("demo"));
}

#[test]
fn tolerant_json_rejects_invalid_payload() {
    let result = tolerant_json_body(b"not-json");
    assert!(result.is_err());
    let refused = result.unwrap_err();
    assert_eq!(refused.status_code, 400);
    assert_eq!(refused.message, "Invalid JSON payload: expected ident at line 1 column 2");
}

#[test]
fn an_empty_body_is_a_missing_body() {
    let refused = tolerant_json_body(b"").unwrap_err();
    assert_eq!(refused.status_code, 400);
    assert_eq!(refused.message, "Missing JSON body");
}
