use ollama_lmstudio_proxy::handlers::ollama::blobs::{
    blob_head_status, handle_blob_head, handle_blob_upload,
};
use ollama_lmstudio_proxy::json::Json;
use ollama_lmstudio_proxy::storage::blob::{validated_blob_hex, BlobStore, UploadOutcome};
use ollama_lmstudio_proxy::storage::virtual_models::{
    VirtualModelEntry, VirtualModelMetadata, VirtualModelStore,
};

const HELLO_WORLD: &str = "b94d27b9934d3e08a52e52d7da7dabfac484efe37a5380ee9088f7ace2efcde9";

fn parsed(text: &str) -> Json {
    Json::parse(text).expect("test value is JSON")
}

fn metadata_text(metadata: &VirtualModelMetadata) -> String {
    format!(
        "{:?}|{:?}|{:?}|{:?}|{:?}|{:?}",
        metadata.system_prompt,
        metadata.template,
        metadata.parameters.as_ref().map(|v| v.to_text()),
        metadata.license.as_ref().map(|v| v.to_text()),
        metadata.adapters.as_ref().map(|v| v.to_text()),
        metadata.messages.as_ref().map(|m| m.iter().map(|v| v.to_text()).collect::<Vec<_>>()),
    )
}

fn entry_text(entry: &VirtualModelEntry) -> String {
    format!(
        "{}|{}|{}|{}|{}|{}",
        entry.name,
        entry.source_model,
        entry.target_model_id,
        entry.created_at,
        entry.updated_at,
        metadata_text(&entry.metadata)
    )
}

#[test]
fn an_alias_that_was_made_is_found_until_it_is_deleted() {
    let mut store = VirtualModelStore::new();
    let mut metadata = VirtualModelMetadata::empty();
    metadata.system_prompt = Some("be terse".to_string());
    metadata.parameters = Some(parsed("{\"temperature\": 0.1}"));
    let made = store
        .create_alias("my-mistral:latest", "mistral".to_string(), "mistral-7b".to_string(), metadata, "t0")
        .unwrap();
    assert_eq!(made.name, "my-mistral:latest");
    assert_eq!(made.created_at, "t0");
    assert_eq!(made.updated_at, "t0");

    let other = store
        .create_alias("other", "phi".to_string(), "phi-2".to_string(), VirtualModelMetadata::empty(), "t1")
        .unwrap();
    assert!(store.delete("missing").is_err());
    assert_eq!(entry_text(&store.delete("other:latest").unwrap()), entry_text(&other));

    for name in ["my-mistral", "my-mistral:latest", "my-mistral:7"] {
        let found = store.get(name).expect("the alias is there");
        assert_eq!(entry_text(&found), entry_text(&made));
        assert_eq!(found.target_model_id, "mistral-7b");
    }

    let removed = store.delete("my-mistral").unwrap();
    assert_eq!(entry_text(&removed), entry_text(&made));
    assert!(store.get("my-mistral").is_none());
    assert!(store.list().is_empty());
}

#[test]
fn a_taken_name_is_refused_and_the_store_stays() {
    let mut store = VirtualModelStore::new();
    store
        .create_alias("a", "x".to_string(), "x-1".to_string(), VirtualModelMetadata::empty(), "t0")
        .unwrap();
    let err = store
        .create_alias("a:latest", "y".to_string(), "y-1".to_string(), VirtualModelMetadata::empty(), "t1")
        .unwrap_err();
    assert_eq!(err.status_code, 400);
    assert_eq!(err.message, "model 'a:latest' already exists");
    assert_eq!(store.get("a").unwrap().target_model_id, "x-1");
    assert_eq!(store.list().len(), 1);

    let gone = store.delete("b").unwrap_err();
    assert_eq!(gone.status_code, 404);
    assert_eq!(gone.message, "model 'b' not managed by proxy");
    assert_eq!(store.list().len(), 1);
}

#[test]
fn a_store_that_is_saved_and_loaded_is_the_same_store() {
    let mut store = VirtualModelStore::new();
    for (name, target) in [("b", "t-b"), ("a", "t-a"), ("c:latest", "t-c")] {
        store
            .create_alias(name, name.to_string(), target.to_string(), VirtualModelMetadata::empty(), "t0")
            .unwrap();
    }
    let saved = store.snapshot();
    let mut keys: Vec<String> = saved.iter().map(|(k, _)| k.clone()).collect();
    keys.sort();
    assert_eq!(keys, vec!["a".to_string(), "b".to_string(), "c".to_string()]);

    let mut loaded = VirtualModelStore::load(saved);
    let _ = loaded.get("a");
    assert!(loaded.delete("missing").is_err());
    assert!(loaded
        .create_alias("a", "z".to_string(), "z".to_string(), VirtualModelMetadata::empty(), "t9")
        .is_err());
    let mut again: Vec<String> =
        loaded.snapshot().iter().map(|(k, e)| format!("{}={}", k, entry_text(e))).collect();
    let mut before: Vec<String> =
        store.snapshot().iter().map(|(k, e)| format!("{}={}", k, entry_text(e))).collect();
    again.sort();
    before.sort();
    assert_eq!(again, before);
}

#[test]
fn loading_keeps_the_later_of_two_entries_under_one_key() {
    let entry = |target: &str| VirtualModelEntry {
        name: "a".to_string(),
        source_model: "s".to_string(),
        target_model_id: target.to_string(),
        created_at: "t".to_string(),
        updated_at: "t".to_string(),
        metadata: VirtualModelMetadata::empty(),
    };
    let store = VirtualModelStore::load(vec![
        ("a".to_string(), entry("first")),
        ("b".to_string(), entry("other")),
        ("a".to_string(), entry("second")),
    ]);
    assert_eq!(store.get("a").unwrap().target_model_id, "second");
    assert_eq!(store.list().len(), 2);
}

#[test]
fn metadata_comes_from_the_request_and_then_from_the_source() {
    let base = VirtualModelMetadata {
        system_prompt: Some("base system".to_string()),
        template: Some("base template".to_string()),
        parameters: Some(parsed("{\"a\": 1}")),
        license: None,
        adapters: None,
        messages: None,
    };
    let body = parsed(
        "{\"system\": \"be terse\", \"template\": 5, \"license\": \"MIT\", \"messages\": \
         [{\"role\": \"user\"}], \"adapters\": null}",
    );
    let built = VirtualModelStore::build_metadata_from_request(&body, Some(base));
    assert_eq!(
        metadata_text(&built),
        "Some(\"be terse\")|Some(\"base template\")|Some(\"{\\\"a\\\":1}\")|Some(\"\\\"MIT\\\"\")|Some(\"null\")|Some([\"{\\\"role\\\":\\\"user\\\"}\"])"
    );
    let plain = VirtualModelStore::build_metadata_from_request(&parsed("{}"), None);
    assert_eq!(metadata_text(&plain), "None|None|None|None|None|None");
}

#[test]
fn create_requests_with_files_or_quantize_are_not_implemented() {
    for body in [
        "{\"files\": {\"a\": \"sha256:1\"}}",
        "{\"files\": [\"x\"]}",
        "{\"files\": \"x\"}",
        "{\"files\": 1}",
    ] {
        let err = VirtualModelStore::validate_create_request(&parsed(body)).unwrap_err();
        assert_eq!(err.status_code, 501);
        assert_eq!(
            err.message,
            "creating models from custom blobs is not supported via LM Studio proxy"
        );
    }
    let err =
        VirtualModelStore::validate_create_request(&parsed("{\"quantize\": \"q4\"}")).unwrap_err();
    assert_eq!(err.status_code, 501);
    assert_eq!(err.message, "quantization is not available via LM Studio proxy");
    for body in ["{}", "{\"files\": {}}", "{\"files\": []}", "{\"files\": null}"] {
        assert!(VirtualModelStore::validate_create_request(&parsed(body)).is_ok());
    }

    let mut store = VirtualModelStore::new();
    let refused = store.create_from_request(
        "a",
        "b",
        &parsed("{\"quantize\": true}"),
        "b-1".to_string(),
        None,
        "t",
    );
    assert!(refused.is_err());
    assert!(store.list().is_empty());
}

#[test]
fn an_alias_is_made_from_a_request() {
    let mut store = VirtualModelStore::new();
    let made = store
        .create_from_request(
            "my-mistral",
            "mistral",
            &parsed("{\"model\": \"my-mistral\", \"from\": \"mistral\", \"system\": \"be terse\"}"),
            "mistral-7b-instruct".to_string(),
            None,
            "2025-01-01T00:00:00Z",
        )
        .unwrap();
    assert_eq!(made.metadata.system_prompt.as_deref(), Some("be terse"));
    assert_eq!(
        made.to_response().to_text(),
        "{\"created_at\":\"2025-01-01T00:00:00Z\",\"model\":\"my-mistral\",\
         \"source_model\":\"mistral\",\"status\":\"success\",\
         \"target_model_id\":\"mistral-7b-instruct\",\"updated_at\":\"2025-01-01T00:00:00Z\",\
         \"virtual\":true}"
    );
    assert_eq!(VirtualModelStore::canonical("my-mistral:latest"), "my-mistral");
}

#[test]
fn digests_have_to_be_sha256_and_64_hex_digits() {
    let store = BlobStore::new("/state/blobs".to_string());
    let good = format!("sha256:{}", HELLO_WORLD);
    assert_eq!(
        store.validated_blob_path(&good).unwrap(),
        format!("/state/blobs/sha256/{}", HELLO_WORLD)
    );
    assert_eq!(handle_blob_head(&store, &good).unwrap(), format!("/state/blobs/sha256/{}", HELLO_WORLD));
    assert_eq!(validated_blob_hex(&good.to_uppercase().replace("SHA256", "sha256")).unwrap().len(), 64);

    let cases = [
        ("abc", "invalid digest format. Expected algo:hex (e.g. sha256:abc)"),
        ("", "invalid digest format. Expected algo:hex (e.g. sha256:abc)"),
        ("md5:abc", "only sha256 digests are supported"),
        ("SHA256:abc", "only sha256 digests are supported"),
        ("sha256:abc", "invalid sha256 digest"),
        ("sha256:", "invalid sha256 digest"),
        (
            "sha256:g94d27b9934d3e08a52e52d7da7dabfac484efe37a5380ee9088f7ace2efcde9",
            "invalid sha256 digest",
        ),
        (
            "sha256:b94d27b9934d3e08a52e52d7da7dabfac484efe37a5380ee9088f7ace2efcde9:",
            "invalid sha256 digest",
        ),
        (
            "sha256:b94d27b9934d3e08a52e52d7da7dabfac484efe37a5380ee9088f7ace2efcde90",
            "invalid sha256 digest",
        ),
    ];
    for (digest, message) in cases {
        let err = store.validated_blob_path(digest).unwrap_err();
        assert_eq!(err.status_code, 400, "for {}", digest);
        assert_eq!(err.message, message, "for {}", digest);
        assert!(store.begin_upload(digest).is_err());
    }
}

#[test]
fn an_upload_is_committed_only_with_the_declared_digest() {
    let store = BlobStore::new("/state/blobs".to_string());
    let mut upload = store.begin_upload(&format!("sha256:{}", HELLO_WORLD)).unwrap();
    upload.update(b"hello ");
    upload.update(b"");
    upload.update(b"world");
    assert_eq!(upload.total_bytes, 11);
    match upload.finish().unwrap() {
        UploadOutcome::Commit { final_path, total_bytes } => {
            assert_eq!(final_path, format!("/state/blobs/sha256/{}", HELLO_WORLD));
            assert_eq!(total_bytes, 11);
        }
    }
    assert_eq!(handle_blob_upload(), 201);
    assert_eq!(blob_head_status(true), 200);
    assert_eq!(blob_head_status(false), 404);
}

#[test]
fn an_upload_with_other_bytes_fails_as_a_bad_request() {
    let store = BlobStore::new("/state/blobs".to_string());
    let mut upload = store.begin_upload(&format!("sha256:{}", HELLO_WORLD)).unwrap();
    upload.update(b"hello world!");
    let err = upload.finish().unwrap_err();
    assert_eq!(err.status_code, 400);
    assert_eq!(
        err.message,
        format!(
            "digest mismatch. Expected {}, computed 7509e5bda0c762d2bac7f90d758b5b2263fa01ccbc542ab5e3df163be08e6ca9",
            HELLO_WORLD
        )
    );
    let empty = store.begin_upload(&format!("sha256:{}", HELLO_WORLD)).unwrap();
    let err = empty.finish().unwrap_err();
    assert!(err.message.ends_with(
        "computed e3b0c44298fc1c149afbf4c8996fb92427ae41e4649b934ca495991b7852b855"
    ));
}
