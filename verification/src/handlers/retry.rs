//! The retry controller: a request that fails because its model is still
//! loading is tried once more, after a trigger and a wait.
//!
//! The controller is a state machine. Its caller runs the operation, sends
//! the trigger and sleeps; the controller decides what comes next.

use crate::constants::{ERROR_LM_STUDIO_UNAVAILABLE, LM_STUDIO_NATIVE_CHAT};
use crate::error::{
    cancelled, is_loading_text, is_model_loading_error, unavailable, ProxyError, ProxyErrorKind,
    ProxyErrorV,
};
use crate::json::{empty_object, jint, jstr, singleton_array, Json, JsonV};
use crate::text::{concat, lowercase};
use vstd::prelude::*;

verus! {

/// The minimal chat request that makes the backend load a model.
pub open spec fn trigger_request(model: Seq<char>) -> JsonV {
    empty_object().with("model"@, jstr(model)).with(
        "messages"@,
        JsonV::Array(seq![empty_object().with("role"@, jstr("user"@)).with("content"@, jstr("ping"@))]),
    ).with("max_tokens"@, jint(1)).with("stream"@, JsonV::Bool(false))
}

/// The minimal chat request that makes the backend load a model.
pub fn build_trigger_request(model: &str) -> (r: Json)
    ensures
        r@ == trigger_request(model@),
{
    let mut message = Json::object();
    message.insert("role", Json::string("user"));
    message.insert("content", Json::string("ping"));
    let mut request = Json::object();
    request.insert("model", Json::string(model));
    request.insert("messages", singleton_array(message));
    request.insert("max_tokens", Json::unsigned(1));
    request.insert("stream", Json::Bool(false));
    request
}

/// The address that the trigger goes to.
pub fn trigger_url(lmstudio_url: &str) -> (r: String)
    ensures
        r@ == lmstudio_url@ + LM_STUDIO_NATIVE_CHAT@,
{
    concat(lmstudio_url, LM_STUDIO_NATIVE_CHAT)
}

/// Whether a status is one of success or of a client's error.
pub open spec fn accepts_trigger(status: u16) -> bool {
    (200 <= status < 300) || (400 <= status < 500)
}

/// How a trigger went: the status of the backend's answer, or the error of
/// the request.
pub open spec fn trigger_outcome(sent: Result<u16, ProxyErrorV>) -> Result<bool, ProxyErrorV> {
    match sent {
        Ok(status) => Ok(accepts_trigger(status)),
        Err(e) => if e.kind == ProxyErrorKind::RequestCancelled {
            Err(cancelled())
        } else if e.kind == ProxyErrorKind::LMStudioUnavailable {
            Err(unavailable(ERROR_LM_STUDIO_UNAVAILABLE@))
        } else {
            Ok(false)
        },
    }
}

/// The view of a result with an error of the proxy.
pub open spec fn result_view<T>(r: Result<T, ProxyError>) -> Result<T, ProxyErrorV> {
    match r {
        Ok(v) => Ok(v),
        Err(e) => Err(e@),
    }
}

/// Whether a trigger was accepted: an answer of success or of a client's
/// error accepts it; a cancellation and an unavailable backend are passed
/// on; any other failure means that it was not.
pub fn trigger_model_loading(sent: Result<u16, ProxyError>) -> (r: Result<bool, ProxyError>)
    ensures
        result_view(r) == trigger_outcome(result_view(sent)),
{
    match sent {
        Ok(status) => Ok((200 <= status && status < 300) || (400 <= status && status < 500)),
        Err(e) => {
            if e.is_cancelled() {
                Err(ProxyError::request_cancelled())
            } else if e.is_lm_studio_unavailable() {
                Err(ProxyError::lm_studio_unavailable(ERROR_LM_STUDIO_UNAVAILABLE))
            } else {
                Ok(false)
            }
        },
    }
}

/// How a trigger that is only a hint went: that it was not accepted is no
/// failure.
pub fn trigger_model_loading_for_ollama(sent: Result<u16, ProxyError>) -> (r: Result<
    (),
    ProxyError,
>)
    ensures
        match trigger_outcome(result_view(sent)) {
            Ok(_) => r is Ok,
            Err(e) => r matches Err(got) && got@ == e,
        },
{
    match trigger_model_loading(sent) {
        Ok(_) => Ok(()),
        Err(e) => Err(e),
    }
}

/// Where a request stands.
#[derive(Debug)]
pub enum RetryPhase {
    /// Nothing was done yet.
    Start,
    /// The operation runs for the first time.
    FirstAttempt,
    /// The trigger is on its way; `original` is why the first attempt
    /// failed.
    Trigger { original: ProxyError },
    /// The model is given time to load.
    Wait { original: ProxyError },
    /// The operation runs for the second time.
    SecondAttempt { original: ProxyError },
    /// The request has its result.
    Finished,
}

/// What a contract says of a `RetryPhase`.
pub enum RetryPhaseV {
    Start,
    FirstAttempt,
    Trigger { original: ProxyErrorV },
    Wait { original: ProxyErrorV },
    SecondAttempt { original: ProxyErrorV },
    Finished,
}

impl View for RetryPhase {
    type V = RetryPhaseV;

    open spec fn view(&self) -> RetryPhaseV {
        match self {
            RetryPhase::Start => RetryPhaseV::Start,
            RetryPhase::FirstAttempt => RetryPhaseV::FirstAttempt,
            RetryPhase::Trigger { original } => RetryPhaseV::Trigger { original: original@ },
            RetryPhase::Wait { original } => RetryPhaseV::Wait { original: original@ },
            RetryPhase::SecondAttempt { original } => RetryPhaseV::SecondAttempt {
                original: original@,
            },
            RetryPhase::Finished => RetryPhaseV::Finished,
        }
    }
}

/// What the caller reports to the controller.
#[derive(Debug)]
pub enum RetryEvent<T> {
    /// The request begins; `cancelled` says whether it is cancelled
    /// already.
    Begin { cancelled: bool },
    /// The operation has run.
    OperationDone(Result<T, ProxyError>),
    /// The trigger was sent: the status of the answer, or the error.
    TriggerDone(Result<u16, ProxyError>),
    /// The wait is over; `cancelled` says whether the request was
    /// cancelled meanwhile.
    WaitOver { cancelled: bool },
}

/// What a contract says of a `RetryEvent`.
pub enum RetryEventV<T> {
    Begin { cancelled: bool },
    OperationDone(Result<T, ProxyErrorV>),
    TriggerDone(Result<u16, ProxyErrorV>),
    WaitOver { cancelled: bool },
}

/// The view of an event.
pub open spec fn event_view<T>(event: RetryEvent<T>) -> RetryEventV<T> {
    match event {
        RetryEvent::Begin { cancelled } => RetryEventV::Begin { cancelled },
        RetryEvent::OperationDone(r) => RetryEventV::OperationDone(result_view(r)),
        RetryEvent::TriggerDone(r) => RetryEventV::TriggerDone(result_view(r)),
        RetryEvent::WaitOver { cancelled } => RetryEventV::WaitOver { cancelled },
    }
}

/// What the controller asks of its caller.
#[derive(Debug)]
pub enum RetryAction<T> {
    /// Run the operation and report `OperationDone`.
    RunOperation,
    /// Send the trigger for `model` and report `TriggerDone`.
    SendTrigger { model: String },
    /// Sleep for `seconds`, or until the request is cancelled, and report
    /// `WaitOver`.
    Wait { seconds: u64 },
    /// The request is over: this is its result.
    Finish(Result<T, ProxyError>),
}

/// What a contract says of a `RetryAction`.
pub enum RetryActionV<T> {
    RunOperation,
    SendTrigger { model: Seq<char> },
    Wait { seconds: u64 },
    Finish(Result<T, ProxyErrorV>),
}

/// The view of an action.
pub open spec fn action_view<T>(action: RetryAction<T>) -> RetryActionV<T> {
    match action {
        RetryAction::RunOperation => RetryActionV::RunOperation,
        RetryAction::SendTrigger { model } => RetryActionV::SendTrigger { model: model@ },
        RetryAction::Wait { seconds } => RetryActionV::Wait { seconds },
        RetryAction::Finish(r) => RetryActionV::Finish(result_view(r)),
    }
}

/// The error for a report that does not fit the phase.
pub open spec fn out_of_turn() -> ProxyErrorV {
    crate::error::internal_error("retry controller: report out of turn"@)
}

/// What the settings of a request say of retries.
pub struct RetryPolicy {
    /// The model that a trigger names.
    pub model: Seq<char>,
    /// The seconds that a model is given to load.
    pub load_timeout_seconds: u64,
    /// Whether a failure may be retried at all.
    pub use_model_retry: bool,
}

/// One step of the controller: the phase after a report, and what is asked
/// next.
///
/// At the beginning a cancelled request ends as cancelled; else the
/// operation runs. A first attempt that succeeds ends the request with its
/// result. One that fails ends it with the error where retries are off,
/// where the error is a cancellation (which ends as cancelled) or an
/// unavailable backend, and where the message does not read as a loading
/// error; else a trigger is sent. A trigger that was accepted is followed
/// by the wait; one that was not ends the request with the original error;
/// one that failed by cancellation or unavailability ends it with that.
/// After the wait a cancelled request ends as cancelled; else the operation
/// runs once more, and the request ends with its result where it succeeds
/// and with the original error where it fails.
pub open spec fn retry_step<T>(phase: RetryPhaseV, event: RetryEventV<T>, policy: RetryPolicy) -> (
    RetryPhaseV,
    RetryActionV<T>,
) {
    match (phase, event) {
        (RetryPhaseV::Start, RetryEventV::Begin { cancelled: is_cancelled }) => if is_cancelled {
            (RetryPhaseV::Finished, RetryActionV::Finish(Err(cancelled())))
        } else {
            (RetryPhaseV::FirstAttempt, RetryActionV::RunOperation)
        },
        (RetryPhaseV::FirstAttempt, RetryEventV::OperationDone(result)) => match result {
            Ok(value) => (RetryPhaseV::Finished, RetryActionV::Finish(Ok(value))),
            Err(e) => if !policy.use_model_retry {
                (RetryPhaseV::Finished, RetryActionV::Finish(Err(e)))
            } else if e.kind == ProxyErrorKind::RequestCancelled {
                (RetryPhaseV::Finished, RetryActionV::Finish(Err(cancelled())))
            } else if e.kind == ProxyErrorKind::LMStudioUnavailable || !is_loading_text(
                lowercase(e.message),
            ) {
                (RetryPhaseV::Finished, RetryActionV::Finish(Err(e)))
            } else {
                (
                    RetryPhaseV::Trigger { original: e },
                    RetryActionV::SendTrigger { model: policy.model },
                )
            },
        },
        (RetryPhaseV::Trigger { original }, RetryEventV::TriggerDone(sent)) => match trigger_outcome(
            sent,
        ) {
            Ok(accepted) => if accepted {
                (
                    RetryPhaseV::Wait { original },
                    RetryActionV::Wait { seconds: policy.load_timeout_seconds },
                )
            } else {
                (RetryPhaseV::Finished, RetryActionV::Finish(Err(original)))
            },
            Err(e) => (RetryPhaseV::Finished, RetryActionV::Finish(Err(e))),
        },
        (RetryPhaseV::Wait { original }, RetryEventV::WaitOver { cancelled: is_cancelled }) => if is_cancelled {
            (RetryPhaseV::Finished, RetryActionV::Finish(Err(cancelled())))
        } else {
            (RetryPhaseV::SecondAttempt { original }, RetryActionV::RunOperation)
        },
        (RetryPhaseV::SecondAttempt { original }, RetryEventV::OperationDone(result)) => match result {
            Ok(value) => (RetryPhaseV::Finished, RetryActionV::Finish(Ok(value))),
            Err(_) => (RetryPhaseV::Finished, RetryActionV::Finish(Err(original))),
        },
        _ => (RetryPhaseV::Finished, RetryActionV::Finish(Err(out_of_turn()))),
    }
}

/// The controller of one request.
#[derive(Debug)]
pub struct RetryController {
    pub model: String,
    pub load_timeout_seconds: u64,
    pub use_model_retry: bool,
    pub phase: RetryPhase,
}

impl RetryController {
    /// The settings of this controller.
    pub open spec fn policy(&self) -> RetryPolicy {
        RetryPolicy {
            model: self.model@,
            load_timeout_seconds: self.load_timeout_seconds,
            use_model_retry: self.use_model_retry,
        }
    }

    /// The controller of a request that has not begun.
    pub fn new(model: &str, load_timeout_seconds: u64, use_model_retry: bool) -> (r: RetryController)
        ensures
            r.phase@ == RetryPhaseV::Start,
            r.policy() == (RetryPolicy { model: model@, load_timeout_seconds, use_model_retry }),
    {
        RetryController {
            model: model.to_owned(),
            load_timeout_seconds,
            use_model_retry,
            phase: RetryPhase::Start,
        }
    }
}

/// One step of the controller: takes a report and says what is asked next.
pub fn with_retry_and_cancellation<T>(controller: &mut RetryController, event: RetryEvent<T>) -> (r:
    RetryAction<T>)
    ensures
        final(controller).policy() == old(controller).policy(),
        (final(controller).phase@, action_view(r)) == retry_step(
            old(controller).phase@,
            event_view(event),
            old(controller).policy(),
        ),
{
    let mut phase = RetryPhase::Finished;
    std::mem::swap(&mut controller.phase, &mut phase);
    match (phase, event) {
        (RetryPhase::Start, RetryEvent::Begin { cancelled }) => {
            if cancelled {
                RetryAction::Finish(Err(ProxyError::request_cancelled()))
            } else {
                controller.phase = RetryPhase::FirstAttempt;
                RetryAction::RunOperation
            }
        },
        (RetryPhase::FirstAttempt, RetryEvent::OperationDone(result)) => match result {
            Ok(value) => RetryAction::Finish(Ok(value)),
            Err(e) => {
                if !controller.use_model_retry {
                    RetryAction::Finish(Err(e))
                } else if e.is_cancelled() {
                    RetryAction::Finish(Err(ProxyError::request_cancelled()))
                } else if e.is_lm_studio_unavailable() || !is_model_loading_error(
                    e.message.as_str(),
                ) {
                    RetryAction::Finish(Err(e))
                } else {
                    controller.phase = RetryPhase::Trigger { original: e };
                    RetryAction::SendTrigger { model: controller.model.clone() }
                }
            },
        },
        (RetryPhase::Trigger { original }, RetryEvent::TriggerDone(sent)) => {
            match trigger_model_loading(sent) {
                Ok(accepted) => {
                    if accepted {
                        controller.phase = RetryPhase::Wait { original };
                        RetryAction::Wait { seconds: controller.load_timeout_seconds }
                    } else {
                        RetryAction::Finish(Err(original))
                    }
                },
                Err(e) => RetryAction::Finish(Err(e)),
            }
        },
        (RetryPhase::Wait { original }, RetryEvent::WaitOver { cancelled }) => {
            if cancelled {
                RetryAction::Finish(Err(ProxyError::request_cancelled()))
            } else {
                controller.phase = RetryPhase::SecondAttempt { original };
                RetryAction::RunOperation
            }
        },
        (RetryPhase::SecondAttempt { original }, RetryEvent::OperationDone(result)) => match result {
            Ok(value) => RetryAction::Finish(Ok(value)),
            Err(_) => RetryAction::Finish(Err(original)),
        },
        _ => RetryAction::Finish(
            Err(ProxyError::internal_server_error("retry controller: report out of turn")),
        ),
    }
}

/// The first step of a request without retries: a cancelled request ends
/// as cancelled; else the operation runs, once.
pub fn with_simple_retry<T>(cancelled: bool) -> (r: RetryAction<T>)
    ensures
        action_view(r) == if cancelled {
            RetryActionV::<T>::Finish(Err(crate::error::cancelled()))
        } else {
            RetryActionV::<T>::RunOperation
        },
{
    if cancelled {
        RetryAction::Finish(Err(ProxyError::request_cancelled()))
    } else {
        RetryAction::RunOperation
    }
}

/// The controller for a request, with retries on or off.
pub fn execute_request_with_retry(
    model_name_for_retry_logic: &str,
    use_model_retry: bool,
    load_timeout_seconds: u64,
) -> (r: RetryController)
    ensures
        r.phase@ == RetryPhaseV::Start,
        r.policy() == (RetryPolicy {
            model: model_name_for_retry_logic@,
            load_timeout_seconds,
            use_model_retry,
        }),
{
    RetryController::new(model_name_for_retry_logic, load_timeout_seconds, use_model_retry)
}


/// The number of triggers that are sent for a list of reports, from a
/// phase on.
pub open spec fn triggers_sent<T>(
    phase: RetryPhaseV,
    reports: Seq<RetryEventV<T>>,
    policy: RetryPolicy,
) -> nat
    decreases reports.len(),
{
    if reports.len() == 0 {
        0
    } else {
        let (next, action) = retry_step(phase, reports[0], policy);
        (if action is SendTrigger {
            1nat
        } else {
            0nat
        }) + triggers_sent(next, reports.drop_first(), policy)
    }
}

/// The number of times that the operation is run for a list of reports,
/// from a phase on.
pub open spec fn operations_run<T>(
    phase: RetryPhaseV,
    reports: Seq<RetryEventV<T>>,
    policy: RetryPolicy,
) -> nat
    decreases reports.len(),
{
    if reports.len() == 0 {
        0
    } else {
        let (next, action) = retry_step(phase, reports[0], policy);
        (if action is RunOperation {
            1nat
        } else {
            0nat
        }) + operations_run(next, reports.drop_first(), policy)
    }
}

/// The triggers that a phase can still send.
spec fn triggers_left(phase: RetryPhaseV) -> nat {
    match phase {
        RetryPhaseV::Start => 1,
        RetryPhaseV::FirstAttempt => 1,
        _ => 0,
    }
}

/// The runs of the operation that a phase can still ask for.
spec fn runs_left(phase: RetryPhaseV) -> nat {
    match phase {
        RetryPhaseV::Start => 2,
        RetryPhaseV::FirstAttempt => 1,
        RetryPhaseV::Trigger { .. } => 1,
        RetryPhaseV::Wait { .. } => 1,
        _ => 0,
    }
}

/// From any phase on, no more is sent or run than the phase has left.
proof fn lemma_within_what_is_left<T>(
    phase: RetryPhaseV,
    reports: Seq<RetryEventV<T>>,
    policy: RetryPolicy,
)
    ensures
        triggers_sent(phase, reports, policy) <= triggers_left(phase),
        operations_run(phase, reports, policy) <= runs_left(phase),
    decreases reports.len(),
{
    if reports.len() > 0 {
        let (next, action) = retry_step(phase, reports[0], policy);
        lemma_within_what_is_left(next, reports.drop_first(), policy);
    }
}

/// Whatever is reported to the controller of a request, it sends at most
/// one trigger and runs the operation at most twice: once, and once more
/// as the retry.
pub proof fn lemma_one_trigger_one_retry<T>(reports: Seq<RetryEventV<T>>, policy: RetryPolicy)
    ensures
        triggers_sent(RetryPhaseV::Start, reports, policy) <= 1,
        operations_run(RetryPhaseV::Start, reports, policy) <= 2,
{
    lemma_within_what_is_left(RetryPhaseV::Start, reports, policy);
}

} // verus!
