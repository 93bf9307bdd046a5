//! The producer of an Ollama stream: a state machine that takes what comes
//! from the backend, piece by piece, and says which lines go to the client.
//!
//! The caller reads the backend's response, watches the clock and the
//! cancellation, and hands each happening to `handle_streaming_response`;
//! it writes the lines that come back, in order, and stops after the step
//! that finishes the stream.

use crate::constants::{ERROR_TIMEOUT, SSE_DATA_PREFIX, SSE_DONE_MESSAGE, SSE_MESSAGE_BOUNDARY};
use crate::handlers::transform::first_choice;
use crate::json::{items_view, json_parse, lemma_items_push, opt_view, Json, JsonV};
use crate::storage::virtual_models::opt_text;
use crate::streaming::chunks::{
    cancellation_line, choice_emits, choice_text, choice_tool_calls, create_cancellation_chunk,
    create_error_chunk, create_final_chunk, create_ollama_streaming_chunk, error_line,
    extract_first_choice, final_line, finish_after, process_choice_delta, stream_line,
    ChunkProcessingState,
};
use crate::streaming::recovery::{recover_json_from_chunk, recovered_json};
use crate::text::{
    chars_eq_str, chars_of, chars_range, concat, find, find_chars, lemma_find_from, occurs_at,
    occurs_at_exec, push_chars, push_str, starts_with, string_of, trim, trim_class_exec, utf8_text,
    utf8_text_exec, CharClass,
};
use vstd::prelude::*;

verus! {

/// The state of one streamed response.
#[derive(Debug)]
pub struct StreamContext {
    /// The model name that the lines carry.
    pub model: String,
    /// Whether the lines are those of the chat endpoint.
    pub is_chat: bool,
    /// Whether data lines that are no JSON are to be recovered.
    pub enable_chunk_recovery: bool,
    /// What has come from the backend and is no whole message yet.
    pub sse_buffer: Vec<char>,
    /// The number of lines that were sent.
    pub chunk_count: u64,
    /// The last finish reason that the backend gave.
    pub chunk_state: ChunkProcessingState,
    /// The data lines that could not be recovered, kept for the end.
    pub recovery_buffer: Vec<char>,
    /// Whether the last line has been said.
    pub finished: bool,
}

/// What a contract says of a `StreamContext`.
pub struct StreamContextV {
    pub model: Seq<char>,
    pub is_chat: bool,
    pub enable_chunk_recovery: bool,
    pub sse_buffer: Seq<char>,
    pub chunk_count: u64,
    pub finish_reason: Option<Seq<char>>,
    pub recovery_buffer: Seq<char>,
    pub finished: bool,
}

impl View for StreamContext {
    type V = StreamContextV;

    open spec fn view(&self) -> StreamContextV {
        StreamContextV {
            model: self.model@,
            is_chat: self.is_chat,
            enable_chunk_recovery: self.enable_chunk_recovery,
            sse_buffer: self.sse_buffer@,
            chunk_count: self.chunk_count,
            finish_reason: opt_text(self.chunk_state.last_finish_reason),
            recovery_buffer: self.recovery_buffer@,
            finished: self.finished,
        }
    }
}

/// What can happen to a stream.
#[derive(Debug)]
pub enum StreamEvent {
    /// Bytes came from the backend.
    Chunk(Vec<u8>),
    /// Reading from the backend failed, with this message.
    UpstreamError(String),
    /// The backend closed the stream.
    End,
    /// Nothing came for the time that a stream may idle.
    IdleTimeout,
    /// The client's request was cancelled.
    Cancelled,
}

/// What a contract says of a `StreamEvent`.
pub enum StreamEventV {
    Chunk(Seq<u8>),
    UpstreamError(Seq<char>),
    End,
    IdleTimeout,
    Cancelled,
}

impl View for StreamEvent {
    type V = StreamEventV;

    open spec fn view(&self) -> StreamEventV {
        match self {
            StreamEvent::Chunk(bytes) => StreamEventV::Chunk(bytes@),
            StreamEvent::UpstreamError(message) => StreamEventV::UpstreamError(message@),
            StreamEvent::End => StreamEventV::End,
            StreamEvent::IdleTimeout => StreamEventV::IdleTimeout,
            StreamEvent::Cancelled => StreamEventV::Cancelled,
        }
    }
}

/// The time at which something happens to a stream: as a time stamp, and
/// as the nanoseconds since the request began.
#[derive(Debug)]
pub struct StreamClock {
    pub created_at: String,
    pub elapsed_ns: u64,
}

/// What a contract says of a `StreamClock`.
pub struct StreamClockV {
    pub created_at: Seq<char>,
    pub elapsed_ns: u64,
}

impl View for StreamClock {
    type V = StreamClockV;

    open spec fn view(&self) -> StreamClockV {
        StreamClockV { created_at: self.created_at@, elapsed_ns: self.elapsed_ns }
    }
}

/// The state of a stream that has not begun.
pub open spec fn fresh_context(model: Seq<char>, is_chat: bool, enable_chunk_recovery: bool)
    -> StreamContextV {
    StreamContextV {
        model,
        is_chat,
        enable_chunk_recovery,
        sse_buffer: Seq::empty(),
        chunk_count: 0,
        finish_reason: None,
        recovery_buffer: Seq::empty(),
        finished: false,
    }
}

/// A count and one more, held to 64 bits.
pub open spec fn one_more(count: u64) -> u64 {
    if count < u64::MAX {
        (count + 1) as u64
    } else {
        count
    }
}

/// The state after a backend chunk, and the line that it adds where it
/// adds one: the first choice gives its finish reason, and its text or
/// tool calls make a line.
pub open spec fn after_chunk(ctx: StreamContextV, chunk: JsonV, created_at: Seq<char>) -> (
    StreamContextV,
    Option<JsonV>,
) {
    match first_choice(chunk) {
        Some(choice) => {
            let noted = StreamContextV {
                finish_reason: finish_after(ctx.finish_reason, choice),
                ..ctx
            };
            if choice_emits(choice) {
                (
                    StreamContextV { chunk_count: one_more(ctx.chunk_count), ..noted },
                    Some(
                        stream_line(
                            ctx.model,
                            choice_text(choice),
                            ctx.is_chat,
                            false,
                            choice_tool_calls(choice),
                            created_at,
                        ),
                    ),
                )
            } else {
                (noted, None)
            }
        },
        None => (ctx, None),
    }
}

/// The work on the messages of the buffer: the state, the lines so far,
/// and whether the end of the stream was read.
pub struct Drain {
    pub ctx: StreamContextV,
    pub lines: Seq<JsonV>,
    pub done: bool,
}

/// `lines` with `line` at its end, where there is a line.
pub open spec fn with_line(lines: Seq<JsonV>, line: Option<JsonV>) -> Seq<JsonV> {
    match line {
        Some(l) => lines.push(l),
        None => lines,
    }
}

/// The value of a data payload: what it is as JSON, or else what is
/// recovered from it where recovery is on.
pub open spec fn payload_value(data: Seq<char>, enable_chunk_recovery: bool) -> Option<JsonV> {
    match json_parse(data) {
        Some(value) => Some(value),
        None => if enable_chunk_recovery {
            recovered_json(data)
        } else {
            None
        },
    }
}

/// The work after a data payload: its value goes through `after_chunk`; a
/// payload without a value is kept for the end where recovery is on, and
/// dropped where it is off.
pub open spec fn after_payload(d: Drain, data: Seq<char>, created_at: Seq<char>) -> Drain {
    match payload_value(data, d.ctx.enable_chunk_recovery) {
        Some(value) => {
            let (ctx, line) = after_chunk(d.ctx, value, created_at);
            Drain { ctx, lines: with_line(d.lines, line), done: d.done }
        },
        None => if d.ctx.enable_chunk_recovery {
            Drain {
                ctx: StreamContextV {
                    recovery_buffer: d.ctx.recovery_buffer + data + SSE_MESSAGE_BOUNDARY@,
                    ..d.ctx
                },
                ..d
            }
        } else {
            d
        },
    }
}

/// The work on every whole message of the buffer, in order. A message ends
/// at an empty line. One that is blank is passed over; one that begins with
/// `data: ` carries a payload, and the payload `[DONE]` ends the stream;
/// any other message is passed over.
pub open spec fn drain(d: Drain, created_at: Seq<char>) -> Drain
    decreases d.ctx.sse_buffer.len(),
{
    match find(d.ctx.sse_buffer, SSE_MESSAGE_BOUNDARY@) {
        Some(at) => if 0 <= at && at + 2 <= d.ctx.sse_buffer.len() {
            let message = d.ctx.sse_buffer.subrange(0, at);
            let rest = d.ctx.sse_buffer.subrange(at + 2, d.ctx.sse_buffer.len() as int);
            let next = Drain { ctx: StreamContextV { sse_buffer: rest, ..d.ctx }, ..d };
            if trim(message).len() == 0 {
                drain(next, created_at)
            } else if starts_with(message, SSE_DATA_PREFIX@) {
                let data = message.subrange(SSE_DATA_PREFIX@.len() as int, message.len() as int);
                if trim(data) == SSE_DONE_MESSAGE@ {
                    Drain { done: true, ..next }
                } else {
                    drain(after_payload(next, data, created_at), created_at)
                }
            } else {
                drain(next, created_at)
            }
        } else {
            d
        },
        None => d,
    }
}

/// The state of a stream whose last line has been said.
pub open spec fn finished(ctx: StreamContextV) -> StreamContextV {
    StreamContextV { finished: true, ..ctx }
}

/// The last line of a stream that ended in the state `ctx`.
pub open spec fn final_line_of(ctx: StreamContextV, clock: StreamClockV) -> JsonV {
    final_line(
        ctx.model,
        clock.elapsed_ns,
        ctx.chunk_count,
        ctx.is_chat,
        ctx.finish_reason,
        clock.created_at,
    )
}

/// The last line of a stream that failed in the state `ctx`.
pub open spec fn error_line_of(ctx: StreamContextV, message: Seq<char>, clock: StreamClockV)
    -> JsonV {
    error_line(ctx.model, message, ctx.is_chat, clock.created_at)
}

/// What text from the backend does to a stream: it joins the buffer, and
/// the whole messages of the buffer are worked on; the end of the stream
/// among them brings the last line.
pub open spec fn after_text(ctx: StreamContextV, text: Seq<char>, clock: StreamClockV) -> (
    StreamContextV,
    Seq<JsonV>,
) {
    let d = drain(
        Drain {
            ctx: StreamContextV { sse_buffer: ctx.sse_buffer + text, ..ctx },
            lines: Seq::empty(),
            done: false,
        },
        clock.created_at,
    );
    if d.done {
        (finished(d.ctx), d.lines.push(final_line_of(d.ctx, clock)))
    } else {
        (d.ctx, d.lines)
    }
}

/// What the close of the backend's stream does: where recovery is on and
/// data lines were kept, they are tried once more as one; then comes the
/// last line.
pub open spec fn after_end(ctx: StreamContextV, clock: StreamClockV) -> (
    StreamContextV,
    Seq<JsonV>,
) {
    let recovered = if ctx.enable_chunk_recovery && ctx.recovery_buffer.len() > 0 {
        recovered_json(ctx.recovery_buffer)
    } else {
        None
    };
    let (after, line) = match recovered {
        Some(value) => after_chunk(ctx, value, clock.created_at),
        None => (ctx, None),
    };
    (finished(after), with_line(Seq::empty(), line).push(final_line_of(after, clock)))
}

/// One step of a stream: the state after something happened, and the
/// lines that go to the client for it. A finished stream says nothing
/// more. A cancellation, a failure of the backend, bytes that are no UTF-8
/// and an idle timeout each bring one last line and finish the stream.
pub open spec fn stream_step(ctx: StreamContextV, event: StreamEventV, clock: StreamClockV) -> (
    StreamContextV,
    Seq<JsonV>,
) {
    if ctx.finished {
        (ctx, Seq::empty())
    } else {
        match event {
            StreamEventV::Cancelled => (
                finished(ctx),
                seq![
                    cancellation_line(
                        ctx.model,
                        clock.elapsed_ns,
                        ctx.chunk_count,
                        ctx.is_chat,
                        clock.created_at,
                    ),
                ],
            ),
            StreamEventV::Chunk(bytes) => match utf8_text(bytes) {
                Some(text) => after_text(ctx, text, clock),
                None => (finished(ctx), seq![error_line_of(ctx, "invalid UTF-8 in stream"@, clock)]),
            },
            StreamEventV::UpstreamError(message) => (
                finished(ctx),
                seq![error_line_of(ctx, "streaming error: "@ + message, clock)],
            ),
            StreamEventV::End => after_end(ctx, clock),
            StreamEventV::IdleTimeout => (
                finished(ctx),
                seq![error_line_of(ctx, ERROR_TIMEOUT@, clock)],
            ),
        }
    }
}

impl StreamContext {
    /// The state of a stream that has not begun.
    pub fn new(model: &str, is_chat: bool, enable_chunk_recovery: bool) -> (r: StreamContext)
        ensures
            r@ == fresh_context(model@, is_chat, enable_chunk_recovery),
    {
        StreamContext {
            model: model.to_owned(),
            is_chat,
            enable_chunk_recovery,
            sse_buffer: Vec::new(),
            chunk_count: 0,
            chunk_state: ChunkProcessingState::new(),
            recovery_buffer: Vec::new(),
            finished: false,
        }
    }

    /// Takes a backend chunk into the stream and gives the line that it
    /// adds, where it adds one.
    pub fn apply_chunk(&mut self, chunk: &Json, created_at: &str) -> (r: Option<Json>)
        ensures
            (final(self)@, opt_view(r)) == after_chunk(old(self)@, chunk@, created_at@),
    {
        match extract_first_choice(chunk) {
            Some(choice) => match process_choice_delta(choice, &mut self.chunk_state) {
                Some(payload) => {
                    let line = create_ollama_streaming_chunk(
                        self.model.as_str(),
                        payload.content.as_str(),
                        self.is_chat,
                        false,
                        payload.tool_calls_delta.as_ref(),
                        created_at,
                    );
                    if self.chunk_count < u64::MAX {
                        self.chunk_count = self.chunk_count + 1;
                    }
                    Some(line)
                },
                None => None,
            },
            None => None,
        }
    }
}

/// The value of a data payload.
fn payload_value_exec(data: &str, enable_chunk_recovery: bool) -> (r: Option<Json>)
    ensures
        opt_view(r) == payload_value(data@, enable_chunk_recovery),
{
    match Json::parse(data) {
        Some(value) => Some(value),
        None => if enable_chunk_recovery {
            recover_json_from_chunk(data)
        } else {
            None
        },
    }
}

/// Works on every whole message of the buffer.
fn drain_exec(ctx: &mut StreamContext, lines: &mut Vec<Json>, created_at: &str) -> (done: bool)
    ensures
        drain(Drain { ctx: old(ctx)@, lines: items_view(old(lines)@), done: false }, created_at@)
            == (Drain { ctx: final(ctx)@, lines: items_view(final(lines)@), done }),
{
    let boundary = chars_of(SSE_MESSAGE_BOUNDARY);
    let prefix = chars_of(SSE_DATA_PREFIX);
    let prefix_len = prefix.len();
    let ghost goal = drain(
        Drain { ctx: ctx@, lines: items_view(lines@), done: false },
        created_at@,
    );
    proof {
        reveal_strlit("\n\n");
    }
    let mut done = false;
    loop
        invariant_except_break
            !done,
            boundary@ == SSE_MESSAGE_BOUNDARY@,
            boundary@.len() == 2,
            prefix@ == SSE_DATA_PREFIX@,
            prefix_len == prefix@.len(),
            goal == drain(Drain { ctx: ctx@, lines: items_view(lines@), done: false }, created_at@),
        ensures
            goal == (Drain { ctx: ctx@, lines: items_view(lines@), done }),
        decreases ctx.sse_buffer.len(),
    {
        let at = match find_chars(&ctx.sse_buffer, &boundary) {
            Some(at) => at,
            None => {
                break ;
            },
        };
        proof {
            lemma_find_from(ctx.sse_buffer@, boundary@, 0);
            assert(occurs_at(ctx.sse_buffer@, boundary@, at as int));
        }
        let length = ctx.sse_buffer.len();
        assert(at + 2 <= length);
        let message = chars_range(&ctx.sse_buffer, 0, at);
        let rest = chars_range(&ctx.sse_buffer, at + 2, length);
        ctx.sse_buffer = rest;
        let trimmed = trim_class_exec(&message, CharClass::Whitespace);
        if trimmed.len() == 0 {
            continue ;
        }
        if !occurs_at_exec(&message, &prefix, 0) {
            continue ;
        }
        let data = chars_range(&message, prefix_len, message.len());
        let data_trimmed = trim_class_exec(&data, CharClass::Whitespace);
        if chars_eq_str(&data_trimmed, SSE_DONE_MESSAGE) {
            done = true;
            break ;
        }
        let data_text = string_of(&data);
        match payload_value_exec(data_text.as_str(), ctx.enable_chunk_recovery) {
            Some(value) => {
                match ctx.apply_chunk(&value, created_at) {
                    Some(line) => {
                        proof {
                            lemma_items_push(lines@, line);
                        }
                        lines.push(line);
                    },
                    None => {},
                }
            },
            None => {
                if ctx.enable_chunk_recovery {
                    push_chars(&mut ctx.recovery_buffer, &data);
                    push_str(&mut ctx.recovery_buffer, SSE_MESSAGE_BOUNDARY);
                }
            },
        }
    }
    done
}

/// One step of a stream: takes what happened and gives the lines that go
/// to the client for it, in order.
pub fn handle_streaming_response(ctx: &mut StreamContext, event: StreamEvent, clock: &StreamClock)
    -> (lines: Vec<Json>)
    ensures
        (final(ctx)@, items_view(lines@)) == stream_step(old(ctx)@, event@, clock@),
{
    let mut lines: Vec<Json> = Vec::new();
    if ctx.finished {
        return lines;
    }
    let created_at = clock.created_at.as_str();
    match event {
        StreamEvent::Cancelled => {
            let line = create_cancellation_chunk(
                ctx.model.as_str(),
                clock.elapsed_ns,
                ctx.chunk_count,
                ctx.is_chat,
                created_at,
            );
            proof {
                lemma_items_push(lines@, line);
            }
            lines.push(line);
            ctx.finished = true;
        },
        StreamEvent::Chunk(bytes) => {
            match utf8_text_exec(bytes.as_slice()) {
                Some(text) => {
                    push_str(&mut ctx.sse_buffer, text);
                    let done = drain_exec(ctx, &mut lines, created_at);
                    if done {
                        let line = create_final_chunk(
                            ctx.model.as_str(),
                            clock.elapsed_ns,
                            ctx.chunk_count,
                            ctx.is_chat,
                            ctx.chunk_state.finish_reason(),
                            created_at,
                        );
                        proof {
                            lemma_items_push(lines@, line);
                        }
                        lines.push(line);
                        ctx.finished = true;
                    }
                },
                None => {
                    let line = create_error_chunk(
                        ctx.model.as_str(),
                        "invalid UTF-8 in stream",
                        ctx.is_chat,
                        created_at,
                    );
                    proof {
                        lemma_items_push(lines@, line);
                    }
                    lines.push(line);
                    ctx.finished = true;
                },
            }
        },
        StreamEvent::UpstreamError(message) => {
            let text = concat("streaming error: ", message.as_str());
            let line = create_error_chunk(ctx.model.as_str(), text.as_str(), ctx.is_chat, created_at);
            proof {
                lemma_items_push(lines@, line);
            }
            lines.push(line);
            ctx.finished = true;
        },
        StreamEvent::End => {
            if ctx.enable_chunk_recovery && ctx.recovery_buffer.len() > 0 {
                let kept = string_of(&ctx.recovery_buffer);
                match recover_json_from_chunk(kept.as_str()) {
                    Some(value) => match ctx.apply_chunk(&value, created_at) {
                        Some(line) => {
                            proof {
                                lemma_items_push(lines@, line);
                            }
                            lines.push(line);
                        },
                        None => {},
                    },
                    None => {},
                }
            }
            let line = create_final_chunk(
                ctx.model.as_str(),
                clock.elapsed_ns,
                ctx.chunk_count,
                ctx.is_chat,
                ctx.chunk_state.finish_reason(),
                created_at,
            );
            proof {
                lemma_items_push(lines@, line);
            }
            lines.push(line);
            ctx.finished = true;
        },
        StreamEvent::IdleTimeout => {
            let line = create_error_chunk(ctx.model.as_str(), ERROR_TIMEOUT, ctx.is_chat, created_at);
            proof {
                lemma_items_push(lines@, line);
            }
            lines.push(line);
            ctx.finished = true;
        },
    }
    lines
}

/// Whether a line is the last of its stream: its `done` is `true`.
pub open spec fn is_last_line(line: JsonV) -> bool {
    line.get("done"@) == Some(JsonV::Bool(true))
}

/// The state and the lines after a list of happenings, in order.
pub open spec fn stream_run(ctx: StreamContextV, happenings: Seq<(StreamEventV, StreamClockV)>) -> (
    StreamContextV,
    Seq<JsonV>,
)
    decreases happenings.len(),
{
    if happenings.len() == 0 {
        (ctx, Seq::empty())
    } else {
        let (before, said) = stream_run(ctx, happenings.drop_last());
        let (after, more) = stream_step(before, happenings.last().0, happenings.last().1);
        (after, said + more)
    }
}

/// The members that come after `done` in a line have other names.
proof fn lemma_done_is_apart()
    ensures
        "done"@ != "error"@,
        "done"@ != "done_reason"@,
        "done"@ != "context"@,
        "done"@ != "total_duration"@,
        "done"@ != "load_duration"@,
        "done"@ != "prompt_eval_count"@,
        "done"@ != "prompt_eval_duration"@,
        "done"@ != "eval_count"@,
        "done"@ != "eval_duration"@,
{
    reveal_strlit("done");
    reveal_strlit("error");
    reveal_strlit("done_reason");
    reveal_strlit("context");
    reveal_strlit("total_duration");
    reveal_strlit("load_duration");
    reveal_strlit("prompt_eval_count");
    reveal_strlit("prompt_eval_duration");
    reveal_strlit("eval_count");
    reveal_strlit("eval_duration");
    assert("done"@.len() == 4);
    assert("error"@.len() == 5);
    assert("done_reason"@.len() == 11);
    assert("context"@.len() == 7);
    assert("total_duration"@.len() == 14);
    assert("load_duration"@.len() == 13);
    assert("prompt_eval_count"@.len() == 17);
    assert("prompt_eval_duration"@.len() == 20);
    assert("eval_count"@.len() == 10);
    assert("eval_duration"@.len() == 13);
}

/// A line that a backend chunk adds is no last line, and a chunk finishes
/// no stream.
proof fn lemma_after_chunk(ctx: StreamContextV, chunk: JsonV, created_at: Seq<char>)
    ensures
        after_chunk(ctx, chunk, created_at).0.finished == ctx.finished,
        after_chunk(ctx, chunk, created_at).1 matches Some(line) ==> !is_last_line(line),
{
}

/// The work on the buffer adds no last line and finishes no stream.
proof fn lemma_drain(d: Drain, created_at: Seq<char>)
    requires
        forall|i: int| 0 <= i < d.lines.len() ==> !is_last_line(d.lines[i]),
    ensures
        drain(d, created_at).ctx.finished == d.ctx.finished,
        forall|i: int|
            0 <= i < drain(d, created_at).lines.len() ==> !is_last_line(
                drain(d, created_at).lines[i],
            ),
    decreases d.ctx.sse_buffer.len(),
{
    match find(d.ctx.sse_buffer, SSE_MESSAGE_BOUNDARY@) {
        Some(at) => if 0 <= at && at + 2 <= d.ctx.sse_buffer.len() {
            let message = d.ctx.sse_buffer.subrange(0, at);
            let rest = d.ctx.sse_buffer.subrange(at + 2, d.ctx.sse_buffer.len() as int);
            let next = Drain { ctx: StreamContextV { sse_buffer: rest, ..d.ctx }, ..d };
            if trim(message).len() == 0 {
                lemma_drain(next, created_at);
            } else if starts_with(message, SSE_DATA_PREFIX@) {
                let data = message.subrange(SSE_DATA_PREFIX@.len() as int, message.len() as int);
                if trim(data) == SSE_DONE_MESSAGE@ {
                } else {
                    let after = after_payload(next, data, created_at);
                    match payload_value(data, next.ctx.enable_chunk_recovery) {
                        Some(value) => {
                            lemma_after_chunk(next.ctx, value, created_at);
                        },
                        None => {},
                    }
                    lemma_drain(after, created_at);
                }
            } else {
                lemma_drain(next, created_at);
            }
        },
        None => {},
    }
}

/// What one step says: of its lines none but the last is a last line; the
/// step that finishes the stream ends with a last line; a step that
/// leaves the stream unfinished says no last line.
proof fn lemma_step(ctx: StreamContextV, event: StreamEventV, clock: StreamClockV)
    requires
        !ctx.finished,
    ensures
        ({
            let (after, lines) = stream_step(ctx, event, clock);
            &&& forall|i: int| 0 <= i < lines.len() - 1 ==> !is_last_line(lines[i])
            &&& after.finished ==> lines.len() > 0 && is_last_line(lines.last())
            &&& !after.finished ==> forall|i: int| 0 <= i < lines.len() ==> !is_last_line(lines[i])
        }),
{
    lemma_done_is_apart();
    match event {
        StreamEventV::Chunk(bytes) => match utf8_text(bytes) {
            Some(text) => {
                let start = Drain {
                    ctx: StreamContextV { sse_buffer: ctx.sse_buffer + text, ..ctx },
                    lines: Seq::empty(),
                    done: false,
                };
                lemma_drain(start, clock.created_at);
            },
            None => {},
        },
        StreamEventV::End => {
            let recovered = if ctx.enable_chunk_recovery && ctx.recovery_buffer.len() > 0 {
                recovered_json(ctx.recovery_buffer)
            } else {
                None
            };
            match recovered {
                Some(value) => {
                    lemma_after_chunk(ctx, value, clock.created_at);
                },
                None => {},
            }
        },
        _ => {},
    }
}

/// Every stream ends with exactly one last line. Of the lines that a
/// stream has said, in order, none but the last is a last line (`done` is
/// `true`); a stream that is finished has said a last line, as the last of
/// its lines; a stream that is not finished has said none.
pub proof fn lemma_one_last_line(
    ctx: StreamContextV,
    happenings: Seq<(StreamEventV, StreamClockV)>,
)
    requires
        !ctx.finished,
    ensures
        ({
            let (after, lines) = stream_run(ctx, happenings);
            &&& forall|i: int| 0 <= i < lines.len() - 1 ==> !is_last_line(lines[i])
            &&& after.finished ==> lines.len() > 0 && is_last_line(lines.last())
            &&& !after.finished ==> forall|i: int| 0 <= i < lines.len() ==> !is_last_line(lines[i])
        }),
    decreases happenings.len(),
{
    if happenings.len() > 0 {
        lemma_one_last_line(ctx, happenings.drop_last());
        let (before, said) = stream_run(ctx, happenings.drop_last());
        let (after, more) = stream_step(before, happenings.last().0, happenings.last().1);
        if !before.finished {
            lemma_step(before, happenings.last().0, happenings.last().1);
            let lines = said + more;
            assert forall|i: int| 0 <= i < lines.len() - 1 implies !is_last_line(lines[i]) by {
                if i < said.len() {
                    assert(lines[i] == said[i]);
                } else {
                    assert(lines[i] == more[i - said.len()]);
                }
            }
            if after.finished {
                assert(lines.last() == more.last());
            } else {
                assert forall|i: int| 0 <= i < lines.len() implies !is_last_line(lines[i]) by {
                    if i < said.len() {
                        assert(lines[i] == said[i]);
                    } else {
                        assert(lines[i] == more[i - said.len()]);
                    }
                }
            }
        } else {
            assert(said + more =~= said);
        }
    }
}

} // verus!
