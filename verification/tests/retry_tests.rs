use ollama_lmstudio_proxy::error::{is_model_loading_error, ProxyError};
use ollama_lmstudio_proxy::handlers::retry::{
    build_trigger_request, execute_request_with_retry, trigger_model_loading,
    trigger_model_loading_for_ollama, trigger_url, with_retry_and_cancellation, with_simple_retry,
    RetryAction, RetryController, RetryEvent, RetryPhase,
};

fn loading() -> ProxyError {
    ProxyError::new("Model is loading, please wait".to_string(), 400)
}

#[test]
fn a_loading_error_is_retried_once_after_a_trigger_and_a_wait() {
    let mut controller = execute_request_with_retry("mistral-7b", true, 15);
    let mut attempts = 0;
    let mut triggers = 0;
    let mut action: RetryAction<&str> =
        with_retry_and_cancellation(&mut controller, RetryEvent::Begin { cancelled: false });
    let result = loop {
        action = match action {
            RetryAction::RunOperation => {
                attempts += 1;
                let outcome = if attempts == 1 { Err(loading()) } else { Ok("streamed") };
                with_retry_and_cancellation(&mut controller, RetryEvent::OperationDone(outcome))
            }
            RetryAction::SendTrigger { model } => {
                triggers += 1;
                assert_eq!(model, "mistral-7b");
                with_retry_and_cancellation(&mut controller, RetryEvent::TriggerDone(Ok(200)))
            }
            RetryAction::Wait { seconds } => {
                assert_eq!(seconds, 15);
                with_retry_and_cancellation(
                    &mut controller,
                    RetryEvent::WaitOver { cancelled: false },
                )
            }
            RetryAction::Finish(result) => break result,
        };
    };
    assert_eq!(result.unwrap(), "streamed");
    assert_eq!(attempts, 2);
    assert_eq!(triggers, 1);
    assert!(matches!(controller.phase, RetryPhase::Finished));
}

fn after_first_failure(error: ProxyError) -> (RetryController, RetryAction<u8>) {
    let mut controller = RetryController::new("m", 3, true);
    let begin: RetryAction<u8> =
        with_retry_and_cancellation(&mut controller, RetryEvent::Begin { cancelled: false });
    assert!(matches!(begin, RetryAction::RunOperation));
    let next = with_retry_and_cancellation(&mut controller, RetryEvent::OperationDone(Err(error)));
    (controller, next)
}

#[test]
fn a_failed_retry_gives_the_original_error() {
    let (mut controller, action) = after_first_failure(loading());
    assert!(matches!(action, RetryAction::SendTrigger { .. }));
    let wait: RetryAction<u8> =
        with_retry_and_cancellation(&mut controller, RetryEvent::TriggerDone(Ok(404)));
    assert!(matches!(wait, RetryAction::Wait { seconds: 3 }));
    let again: RetryAction<u8> =
        with_retry_and_cancellation(&mut controller, RetryEvent::WaitOver { cancelled: false });
    assert!(matches!(again, RetryAction::RunOperation));
    let end: RetryAction<u8> = with_retry_and_cancellation(
        &mut controller,
        RetryEvent::OperationDone(Err(ProxyError::internal_server_error("second"))),
    );
    match end {
        RetryAction::Finish(Err(e)) => {
            assert_eq!(e.message, "Model is loading, please wait");
            assert_eq!(e.status_code, 400);
        }
        other => panic!("expected the original error, got {:?}", other),
    }
}

#[test]
fn failures_that_are_no_loading_errors_are_not_retried() {
    let (_, cancelled) = after_first_failure(ProxyError::request_cancelled());
    assert!(matches!(cancelled, RetryAction::Finish(Err(ref e)) if e.is_cancelled()));
    let (_, down) = after_first_failure(ProxyError::lm_studio_unavailable("model not loaded"));
    assert!(matches!(down, RetryAction::Finish(Err(ref e)) if e.is_lm_studio_unavailable()));
    let (_, plain) = after_first_failure(ProxyError::bad_request("bad field"));
    assert!(matches!(plain, RetryAction::Finish(Err(ref e)) if e.message == "bad field"));

    let mut off = RetryController::new("m", 3, false);
    let _: RetryAction<u8> =
        with_retry_and_cancellation(&mut off, RetryEvent::Begin { cancelled: false });
    let end: RetryAction<u8> =
        with_retry_and_cancellation(&mut off, RetryEvent::OperationDone(Err(loading())));
    assert!(matches!(end, RetryAction::Finish(Err(_))));
}

#[test]
fn a_trigger_that_is_not_accepted_ends_with_the_original_error() {
    let (mut controller, _) = after_first_failure(loading());
    let end: RetryAction<u8> =
        with_retry_and_cancellation(&mut controller, RetryEvent::TriggerDone(Ok(500)));
    assert!(matches!(end, RetryAction::Finish(Err(ref e)) if e.status_code == 400));

    let (mut controller, _) = after_first_failure(loading());
    let end: RetryAction<u8> = with_retry_and_cancellation(
        &mut controller,
        RetryEvent::TriggerDone(Err(ProxyError::lm_studio_unavailable("down"))),
    );
    assert!(
        matches!(end, RetryAction::Finish(Err(ref e)) if e.status_code == 503 && e.message == "LM Studio not available")
    );

    let (mut controller, _) = after_first_failure(loading());
    let end: RetryAction<u8> = with_retry_and_cancellation(
        &mut controller,
        RetryEvent::TriggerDone(Err(ProxyError::internal_server_error("x"))),
    );
    assert!(matches!(end, RetryAction::Finish(Err(ref e)) if e.status_code == 400));
}

#[test]
fn cancellation_ends_a_request_at_the_beginning_and_after_the_wait() {
    let mut controller = RetryController::new("m", 3, true);
    let end: RetryAction<u8> =
        with_retry_and_cancellation(&mut controller, RetryEvent::Begin { cancelled: true });
    assert!(matches!(end, RetryAction::Finish(Err(ref e)) if e.status_code == 499));

    let (mut controller, _) = after_first_failure(loading());
    let _: RetryAction<u8> =
        with_retry_and_cancellation(&mut controller, RetryEvent::TriggerDone(Ok(200)));
    let end: RetryAction<u8> =
        with_retry_and_cancellation(&mut controller, RetryEvent::WaitOver { cancelled: true });
    assert!(matches!(end, RetryAction::Finish(Err(ref e)) if e.is_cancelled()));

    let simple: RetryAction<u8> = with_simple_retry(true);
    assert!(matches!(simple, RetryAction::Finish(Err(_))));
    let run: RetryAction<u8> = with_simple_retry(false);
    assert!(matches!(run, RetryAction::RunOperation));
}

#[test]
fn a_report_out_of_turn_ends_the_request() {
    let mut controller = RetryController::new("m", 3, true);
    let end: RetryAction<u8> =
        with_retry_and_cancellation(&mut controller, RetryEvent::WaitOver { cancelled: false });
    assert!(
        matches!(end, RetryAction::Finish(Err(ref e)) if e.message == "retry controller: report out of turn")
    );
    let after: RetryAction<u8> =
        with_retry_and_cancellation(&mut controller, RetryEvent::Begin { cancelled: false });
    assert!(matches!(after, RetryAction::Finish(Err(_))));
}

#[test]
fn triggers_are_minimal_chats() {
    assert_eq!(
        build_trigger_request("mistral-7b").to_text(),
        "{\"max_tokens\":1,\"messages\":[{\"content\":\"ping\",\"role\":\"user\"}],\
         \"model\":\"mistral-7b\",\"stream\":false}"
    );
    assert_eq!(trigger_url("http://localhost:1234"), "http://localhost:1234/v1/chat/completions");
    assert_eq!(trigger_model_loading(Ok(204)).unwrap(), true);
    assert_eq!(trigger_model_loading(Ok(422)).unwrap(), true);
    assert_eq!(trigger_model_loading(Ok(302)).unwrap(), false);
    assert_eq!(trigger_model_loading(Ok(503)).unwrap(), false);
    assert!(trigger_model_loading(Err(ProxyError::request_cancelled())).unwrap_err().is_cancelled());
    assert_eq!(trigger_model_loading(Err(ProxyError::bad_request("x"))).unwrap(), false);
    assert!(trigger_model_loading_for_ollama(Ok(500)).is_ok());
    assert!(trigger_model_loading_for_ollama(Err(ProxyError::request_cancelled())).is_err());
}

#[test]
fn loading_errors_are_known_by_their_words() {
    for message in [
        "Model is loading",
        "MODEL NOT LOADED",
        "failed to load",
        "No model found",
        "the resource is not ready",
        "Service Unavailable",
        "upstream returned 503",
        "connection refused",
        "request timeout",
        "unknown loader",
    ] {
        assert!(is_model_loading_error(message), "for {}", message);
    }
    for message in ["", "bad request", "model is great", "invalid field", "401 unauthorized"] {
        assert!(!is_model_loading_error(message), "for {}", message);
    }
}
