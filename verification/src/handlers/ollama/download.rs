//! The status of a download job of the backend, and what a pull makes of
//! it.

use crate::constants::{LM_STUDIO_NATIVE_DOWNLOAD, LM_STUDIO_NATIVE_DOWNLOAD_STATUS};
use crate::error::{internal_error, ProxyError, ProxyErrorV};
use crate::handlers::ollama::chat::required_model;
use crate::handlers::ollama::download_utils::pull_needs_resolution;
use crate::handlers::ollama::utils::{stream_flag, stream_flag_exec};
use crate::json::{empty_object, jint, jstr, number_view, Json, JsonNumber, JsonV};
use crate::model::utils::extract_required_model_name;
use crate::storage::virtual_models::opt_text;
use crate::text::{chars_of, concat, push_str, str_eq, string_of};
use vstd::prelude::*;

verus! {

/// What the backend says of a download job.
#[derive(Debug)]
pub struct LmStudioDownloadStatus {
    pub job_id: Option<String>,
    pub status: String,
    pub total_size_bytes: Option<u64>,
    pub downloaded_bytes: Option<u64>,
    pub bytes_per_second: Option<JsonNumber>,
    pub estimated_completion: Option<String>,
    pub started_at: Option<String>,
    pub completed_at: Option<String>,
    pub error: Option<String>,
}

/// What a contract says of an `LmStudioDownloadStatus`.
pub struct LmStudioDownloadStatusV {
    pub job_id: Option<Seq<char>>,
    pub status: Seq<char>,
    pub total_size_bytes: Option<u64>,
    pub downloaded_bytes: Option<u64>,
    pub bytes_per_second: Option<JsonV>,
    pub estimated_completion: Option<Seq<char>>,
    pub started_at: Option<Seq<char>>,
    pub completed_at: Option<Seq<char>>,
    pub error: Option<Seq<char>>,
}

impl View for LmStudioDownloadStatus {
    type V = LmStudioDownloadStatusV;

    open spec fn view(&self) -> LmStudioDownloadStatusV {
        LmStudioDownloadStatusV {
            job_id: opt_text(self.job_id),
            status: self.status@,
            total_size_bytes: self.total_size_bytes,
            downloaded_bytes: self.downloaded_bytes,
            bytes_per_second: match self.bytes_per_second {
                Some(n) => Some(number_view(n)),
                None => None,
            },
            estimated_completion: opt_text(self.estimated_completion),
            started_at: opt_text(self.started_at),
            completed_at: opt_text(self.completed_at),
            error: opt_text(self.error),
        }
    }
}

/// Whether a status says that the model is there.
pub open spec fn is_success_status(status: Seq<char>) -> bool {
    status == "completed"@ || status == "already_downloaded"@
}

/// The status as Ollama names it: `success` for a model that is there,
/// else the backend's word.
pub open spec fn translated(status: Seq<char>) -> Seq<char> {
    if is_success_status(status) {
        "success"@
    } else {
        status
    }
}

/// Whether a job is over.
pub open spec fn is_terminal_status(status: Seq<char>) -> bool {
    is_success_status(status) || status == "failed"@
}

/// `target` with the text under `key`, where there is a text.
pub open spec fn with_text(target: JsonV, key: Seq<char>, text: Option<Seq<char>>) -> JsonV {
    match text {
        Some(t) => target.with(key, jstr(t)),
        None => target,
    }
}

/// `target` with the count under `key`, where there is a count.
pub open spec fn with_count(target: JsonV, key: Seq<char>, count: Option<u64>) -> JsonV {
    match count {
        Some(n) => target.with(key, jint(n as int)),
        None => target,
    }
}

/// The line of a pull stream for a status.
pub open spec fn status_chunk(status: LmStudioDownloadStatusV, model: Seq<char>) -> JsonV {
    let head = empty_object().with("status"@, jstr(translated(status.status))).with(
        "model"@,
        jstr(model),
    ).with("detail"@, jstr(status.status));
    let counted = with_count(
        with_count(with_text(head, "job_id"@, status.job_id), "total"@, status.total_size_bytes),
        "completed"@,
        status.downloaded_bytes,
    );
    let rated = match status.bytes_per_second {
        Some(rate) => counted.with("bytes_per_second"@, rate),
        None => counted,
    };
    with_text(
        with_text(
            with_text(
                with_text(rated, "estimated_completion"@, status.estimated_completion),
                "started_at"@,
                status.started_at,
            ),
            "completed_at"@,
            status.completed_at,
        ),
        "error"@,
        status.error,
    )
}

/// The answer of a pull that does not stream, for the last status of its
/// job: the job's counts for a model that is there; the job's error, or a
/// word for it, for a failed job; a complaint for any other status.
pub open spec fn final_response(status: LmStudioDownloadStatusV, model: Seq<char>) -> Result<
    JsonV,
    ProxyErrorV,
> {
    if is_success_status(status.status) {
        let head = empty_object().with("status"@, jstr("success"@)).with("model"@, jstr(model)).with(
            "detail"@,
            jstr(status.status),
        );
        Ok(
            with_text(
                with_count(
                    with_count(
                        with_text(head, "job_id"@, status.job_id),
                        "total"@,
                        status.total_size_bytes,
                    ),
                    "completed"@,
                    status.downloaded_bytes,
                ),
                "completed_at"@,
                status.completed_at,
            ),
        )
    } else if status.status == "failed"@ {
        Err(
            internal_error(
                match status.error {
                    Some(e) => e,
                    None => "LM Studio reported download failure"@,
                },
            ),
        )
    } else {
        Err(internal_error("Unexpected download status: "@ + status.status))
    }
}

/// Puts a text under `key`, where there is one.
fn insert_text(target: &mut Json, key: &str, text: &Option<String>)
    ensures
        final(target)@ == with_text(old(target)@, key@, opt_text(*text)),
{
    match text {
        Some(t) => {
            target.insert(key, Json::string(t.as_str()));
        },
        None => {},
    }
}

/// Puts a count under `key`, where there is one.
fn insert_count(target: &mut Json, key: &str, count: Option<u64>)
    ensures
        final(target)@ == with_count(old(target)@, key@, count),
{
    match count {
        Some(n) => {
            target.insert(key, Json::unsigned(n));
        },
        None => {},
    }
}

impl LmStudioDownloadStatus {
    /// The status as Ollama names it.
    pub fn translated_status(&self) -> (r: String)
        ensures
            r@ == translated(self.status@),
    {
        let status = self.status.as_str();
        if str_eq(status, "completed") || str_eq(status, "already_downloaded") {
            "success".to_owned()
        } else {
            self.status.clone()
        }
    }

    /// Whether the job is over.
    pub fn is_terminal(&self) -> (r: bool)
        ensures
            r == is_terminal_status(self.status@),
    {
        let status = self.status.as_str();
        str_eq(status, "completed") || str_eq(status, "already_downloaded") || str_eq(
            status,
            "failed",
        )
    }

    /// Whether the job failed.
    pub fn is_failure(&self) -> (r: bool)
        ensures
            r == (self.status@ == "failed"@),
    {
        str_eq(self.status.as_str(), "failed")
    }

    /// The id of the job, which a status that is polled has to carry.
    pub fn job_id(&self) -> (r: Result<&str, ProxyError>)
        ensures
            match r {
                Ok(id) => opt_text(self.job_id) == Some(id@),
                Err(e) => self.job_id is None && e@ == internal_error(
                    "LM Studio download response missing job identifier"@,
                ),
            },
    {
        match &self.job_id {
            Some(id) => Ok(id.as_str()),
            None => Err(
                ProxyError::internal_server_error(
                    "LM Studio download response missing job identifier",
                ),
            ),
        }
    }

    /// The line of a pull stream for this status.
    pub fn to_chunk(&self, model: &str) -> (r: Json)
        ensures
            r@ == status_chunk(self@, model@),
    {
        let mut chunk = Json::object();
        chunk.insert("status", Json::Str(self.translated_status()));
        chunk.insert("model", Json::string(model));
        chunk.insert("detail", Json::string(self.status.as_str()));
        insert_text(&mut chunk, "job_id", &self.job_id);
        insert_count(&mut chunk, "total", self.total_size_bytes);
        insert_count(&mut chunk, "completed", self.downloaded_bytes);
        match &self.bytes_per_second {
            Some(rate) => {
                chunk.insert("bytes_per_second", Json::Number(rate.clone()));
            },
            None => {},
        }
        insert_text(&mut chunk, "estimated_completion", &self.estimated_completion);
        insert_text(&mut chunk, "started_at", &self.started_at);
        insert_text(&mut chunk, "completed_at", &self.completed_at);
        insert_text(&mut chunk, "error", &self.error);
        chunk
    }

    /// The answer of a pull that does not stream, for the last status of
    /// its job.
    pub fn into_final_response(self, model: &str) -> (r: Result<Json, ProxyError>)
        ensures
            match (r, final_response(self@, model@)) {
                (Ok(body), Ok(expected)) => body@ == expected,
                (Err(e), Err(expected)) => e@ == expected,
                _ => false,
            },
    {
        let status = self.status.as_str();
        if str_eq(status, "completed") || str_eq(status, "already_downloaded") {
            let mut map = Json::object();
            map.insert("status", Json::string("success"));
            map.insert("model", Json::string(model));
            map.insert("detail", Json::string(status));
            insert_text(&mut map, "job_id", &self.job_id);
            insert_count(&mut map, "total", self.total_size_bytes);
            insert_count(&mut map, "completed", self.downloaded_bytes);
            insert_text(&mut map, "completed_at", &self.completed_at);
            Ok(map)
        } else if str_eq(status, "failed") {
            match &self.error {
                Some(e) => Err(ProxyError::internal_server_error(e.as_str())),
                None => Err(
                    ProxyError::internal_server_error("LM Studio reported download failure"),
                ),
            }
        } else {
            let message = concat("Unexpected download status: ", status);
            Err(ProxyError::internal_server_error(message.as_str()))
        }
    }
}

/// What a pull request says before any backend is asked.
#[derive(Debug)]
pub struct PullRequest {
    pub model: String,
    pub stream: bool,
    pub quantization: Option<String>,
    pub source: Option<String>,
    /// Whether the model has to be resolved before the download is asked
    /// for.
    pub needs_resolution: bool,
}

/// What a contract says of a `PullRequest`.
pub struct PullRequestV {
    pub model: Seq<char>,
    pub stream: bool,
    pub quantization: Option<Seq<char>>,
    pub source: Option<Seq<char>>,
    pub needs_resolution: bool,
}

impl View for PullRequest {
    type V = PullRequestV;

    open spec fn view(&self) -> PullRequestV {
        PullRequestV {
            model: self.model@,
            stream: self.stream,
            quantization: opt_text(self.quantization),
            source: opt_text(self.source),
            needs_resolution: self.needs_resolution,
        }
    }
}

/// The text under `key` of a body, where it has one.
pub open spec fn text_member(body: JsonV, key: Seq<char>) -> Option<Seq<char>> {
    match body.get(key) {
        Some(JsonV::Str(text)) => Some(text),
        _ => None,
    }
}

/// What a pull request says, or why it is refused. A pull streams unless
/// it says otherwise.
pub open spec fn pull_request(body: JsonV) -> Result<PullRequestV, ProxyErrorV> {
    match required_model(body) {
        Err(e) => Err(e),
        Ok(model) => Ok(
            PullRequestV {
                model,
                stream: stream_flag(body, true),
                quantization: text_member(body, "quantization"@),
                source: text_member(body, "source"@),
                needs_resolution: pull_needs_resolution(model, text_member(body, "source"@)),
            },
        ),
    }
}

/// The text under `key` of a body, where it has one.
pub fn text_member_exec(body: &Json, key: &str) -> (r: Option<String>)
    ensures
        opt_text(r) == text_member(body@, key@),
{
    match body.get_str(key) {
        Some(text) => Some(text.to_owned()),
        None => None,
    }
}

/// Reads a pull request, before any backend is asked.
pub fn validate_pull_request(body: &Json) -> (r: Result<PullRequest, ProxyError>)
    ensures
        match (r, pull_request(body@)) {
            (Ok(request), Ok(expected)) => request@ == expected,
            (Err(e), Err(expected)) => e@ == expected,
            _ => false,
        },
{
    let model = match extract_required_model_name(body) {
        Ok(name) => name,
        Err(e) => {
            return Err(e);
        },
    };
    let source = text_member_exec(body, "source");
    let needs_resolution = source.is_none()
        && !crate::handlers::ollama::download_utils::looks_like_remote_identifier(model);
    Ok(
        PullRequest {
            model: model.to_owned(),
            stream: stream_flag_exec(body, true),
            quantization: text_member_exec(body, "quantization"),
            source,
            needs_resolution,
        },
    )
}

/// What asks the backend for a download: the model, and the quantization
/// where one is named.
pub open spec fn download_payload(identifier: Seq<char>, quantization: Option<Seq<char>>) -> JsonV {
    with_text(empty_object().with("model"@, jstr(identifier)), "quantization"@, quantization)
}

/// The request that begins a download: its address and its body.
pub fn initiate_lmstudio_download(
    base_url: &str,
    model_identifier: &str,
    quantization: Option<&str>,
) -> (r: (String, Json))
    ensures
        r.0@ == base_url@ + LM_STUDIO_NATIVE_DOWNLOAD@,
        r.1@ == download_payload(
            model_identifier@,
            match quantization {
                Some(q) => Some(q@),
                None => None,
            },
        ),
{
    let mut payload = Json::object();
    payload.insert("model", Json::string(model_identifier));
    match quantization {
        Some(q) => {
            payload.insert("quantization", Json::string(q));
        },
        None => {},
    }
    (concat(base_url, LM_STUDIO_NATIVE_DOWNLOAD), payload)
}

/// The address at which the status of a job is asked for.
pub fn fetch_lmstudio_download_status(base_url: &str, job_id: &str) -> (r: String)
    ensures
        r@ == base_url@ + LM_STUDIO_NATIVE_DOWNLOAD_STATUS@ + "/"@ + job_id@,
{
    let mut url = chars_of(base_url);
    push_str(&mut url, LM_STUDIO_NATIVE_DOWNLOAD_STATUS);
    push_str(&mut url, "/");
    push_str(&mut url, job_id);
    string_of(&url)
}

/// What comes after a status of a job that is waited for.
#[derive(Debug)]
pub enum PollStep {
    /// The job is over.
    Done,
    /// Sleep, then ask for the status of this job again.
    Poll { job_id: String },
}

/// What comes after a status of a job that is waited for: a job that is
/// over is done; any other is polled, and has to name its job.
pub fn wait_for_download_completion(status: &LmStudioDownloadStatus) -> (r: Result<
    PollStep,
    ProxyError,
>)
    ensures
        match r {
            Ok(PollStep::Done) => is_terminal_status(status.status@),
            Ok(PollStep::Poll { job_id }) => !is_terminal_status(status.status@) && opt_text(
                status.job_id,
            ) == Some(job_id@),
            Err(e) => !is_terminal_status(status.status@) && status.job_id is None && e@
                == internal_error("LM Studio download response missing job identifier"@),
        },
{
    if status.is_terminal() {
        return Ok(PollStep::Done);
    }
    match status.job_id() {
        Ok(id) => Ok(PollStep::Poll { job_id: id.to_owned() }),
        Err(e) => Err(e),
    }
}

/// What the stream of a pull does for a status: the line for it, and what
/// comes next.
#[derive(Debug)]
pub struct StatusUpdate {
    pub chunk: Json,
    pub next: Result<PollStep, ProxyError>,
}

/// What comes after the line of a status: a failed job ends the stream
/// with its error, or a word for it; a job that is over ends it; any other
/// is polled, and has to name its job.
pub open spec fn update_next(status: LmStudioDownloadStatusV) -> Result<Option<Seq<char>>, ProxyErrorV> {
    if status.status == "failed"@ {
        Err(
            internal_error(
                match status.error {
                    Some(e) => e,
                    None => "LM Studio download failed"@,
                },
            ),
        )
    } else if is_terminal_status(status.status) {
        Ok(None)
    } else {
        match status.job_id {
            Some(id) => Ok(Some(id)),
            None => Err(internal_error("LM Studio download response missing job identifier"@)),
        }
    }
}

/// The view of what comes next.
pub open spec fn next_view(next: Result<PollStep, ProxyError>) -> Result<Option<Seq<char>>, ProxyErrorV> {
    match next {
        Ok(PollStep::Done) => Ok(None),
        Ok(PollStep::Poll { job_id }) => Ok(Some(job_id@)),
        Err(e) => Err(e@),
    }
}

/// What the stream of a pull does for a status.
pub fn stream_download_status_updates(status: &LmStudioDownloadStatus, model_name: &str) -> (r:
    StatusUpdate)
    ensures
        r.chunk@ == status_chunk(status@, model_name@),
        next_view(r.next) == update_next(status@),
{
    let chunk = status.to_chunk(model_name);
    if status.is_failure() {
        let error = match &status.error {
            Some(e) => ProxyError::internal_server_error(e.as_str()),
            None => ProxyError::internal_server_error("LM Studio download failed"),
        };
        return StatusUpdate { chunk, next: Err(error) };
    }
    if status.is_terminal() {
        return StatusUpdate { chunk, next: Ok(PollStep::Done) };
    }
    match status.job_id() {
        Ok(id) => StatusUpdate { chunk, next: Ok(PollStep::Poll { job_id: id.to_owned() }) },
        Err(e) => StatusUpdate { chunk, next: Err(e) },
    }
}

} // verus!
