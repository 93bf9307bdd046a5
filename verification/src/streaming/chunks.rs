//! The lines of an Ollama stream, and what a backend delta adds to one.

use crate::constants::ERROR_CANCELLED;
use crate::handlers::transform::{
    assistant_message, estimated_timing, first_choice, insert_timing, with_timing, TimingInfo,
};
use crate::json::{
    empty_array, empty_object, find_key, jstr, lemma_items_view, lemma_key_index, opt_ref_view,
    opt_view, Json, JsonV,
};
use crate::storage::virtual_models::opt_text;
use crate::text::{chars_of, decimal, decimal_exec, push_chars, push_str, string_of};
use vstd::prelude::*;

verus! {

/// What a stream remembers from one delta to the next: the last finish
/// reason that the backend gave.
#[derive(Debug)]
pub struct ChunkProcessingState {
    pub last_finish_reason: Option<String>,
}

/// What a delta adds to the stream: text, tool calls, or both.
#[derive(Debug)]
pub struct ChoiceDeltaPayload {
    pub content: String,
    pub tool_calls_delta: Option<Json>,
}

/// The texts under `text` of the items of a content list, one after the
/// other.
pub open spec fn items_text(items: Seq<JsonV>) -> Seq<char>
    decreases items.len(),
{
    if items.len() == 0 {
        Seq::empty()
    } else {
        items_text(items.drop_last()) + (match items.last().get("text"@) {
            Some(JsonV::Str(t)) => t,
            _ => Seq::empty(),
        })
    }
}

/// The text that a content value of a delta carries: a text itself; of a
/// list the texts of its parts; of an object its `text`, or else the text
/// of its `content`.
pub open spec fn stream_text(value: JsonV) -> Seq<char>
    decreases value,
{
    match value {
        JsonV::Str(text) => text,
        JsonV::Array(items) => items_text(items),
        JsonV::Object(m) => if m.contains_key("text"@) && m["text"@] is Str {
            m["text"@]->Str_0
        } else if m.contains_key("content"@) {
            stream_text(m["content"@])
        } else {
            Seq::empty()
        },
        _ => Seq::empty(),
    }
}

/// The text of the member under `key`, where there is one.
pub open spec fn member_text(value: JsonV, key: Seq<char>) -> Seq<char> {
    match value.get(key) {
        Some(v) => stream_text(v),
        None => Seq::empty(),
    }
}

/// The text that a choice of a backend chunk carries: the content and the
/// reasoning of its delta; for a choice without delta its `text`, or else
/// the content of its message.
pub open spec fn choice_text(choice: JsonV) -> Seq<char> {
    match choice.get("delta"@) {
        Some(delta) => member_text(delta, "content"@) + member_text(delta, "reasoning"@),
        None => match choice.get("text"@) {
            Some(text) => stream_text(text),
            None => match choice.get2("message"@, "content"@) {
                Some(content) => stream_text(content),
                None => Seq::empty(),
            },
        },
    }
}

/// The tool calls that the delta of a choice carries, where it has some.
pub open spec fn choice_tool_calls(choice: JsonV) -> Option<JsonV> {
    match choice.get2("delta"@, "tool_calls"@) {
        Some(JsonV::Array(calls)) => if calls.len() > 0 {
            Some(JsonV::Array(calls))
        } else {
            None
        },
        _ => None,
    }
}

/// Whether a choice adds a line to the stream: it carries text or tool
/// calls.
pub open spec fn choice_emits(choice: JsonV) -> bool {
    choice_text(choice).len() > 0 || choice_tool_calls(choice) is Some
}

/// The finish reason after a choice: the one that the choice gives, else
/// the one before.
pub open spec fn finish_after(before: Option<Seq<char>>, choice: JsonV) -> Option<Seq<char>> {
    match choice.get("finish_reason"@) {
        Some(JsonV::Str(reason)) => Some(reason),
        _ => before,
    }
}

/// A line of the stream: for chat a message of the assistant, for generate
/// a response text.
pub open spec fn stream_line(
    model: Seq<char>,
    content: Seq<char>,
    is_chat: bool,
    done: bool,
    tool_calls: Option<JsonV>,
    created_at: Seq<char>,
) -> JsonV {
    let head = empty_object().with("model"@, jstr(model)).with("created_at"@, jstr(created_at));
    if is_chat {
        head.with("message"@, assistant_message(content, tool_calls)).with(
            "done"@,
            JsonV::Bool(done),
        )
    } else {
        head.with("response"@, jstr(content)).with("done"@, JsonV::Bool(done))
    }
}

/// The last line of a stream that failed.
pub open spec fn error_line(
    model: Seq<char>,
    message: Seq<char>,
    is_chat: bool,
    created_at: Seq<char>,
) -> JsonV {
    stream_line(model, Seq::empty(), is_chat, true, None, created_at).with("error"@, jstr(message))
}

/// What the last line of a cancelled stream says in place of content.
pub open spec fn cancellation_text(tokens: u64) -> Seq<char> {
    if tokens > 0 {
        "[Request cancelled after "@ + decimal(tokens as nat) + " tokens generated (estimated)]"@
    } else {
        ERROR_CANCELLED@
    }
}

/// The last line of a cancelled stream.
pub open spec fn cancellation_line(
    model: Seq<char>,
    duration_ns: u64,
    tokens: u64,
    is_chat: bool,
    created_at: Seq<char>,
) -> JsonV {
    with_timing(
        stream_line(model, cancellation_text(tokens), is_chat, true, None, created_at),
        estimated_timing(duration_ns, 10, tokens),
    ).with("done_reason"@, jstr("cancelled"@))
}

/// The last line of a stream that ended.
pub open spec fn final_line(
    model: Seq<char>,
    duration_ns: u64,
    chunk_count: u64,
    is_chat: bool,
    done_reason: Option<Seq<char>>,
    created_at: Seq<char>,
) -> JsonV {
    let timed = with_timing(
        stream_line(model, Seq::empty(), is_chat, true, None, created_at).with(
            "done_reason"@,
            jstr(
                match done_reason {
                    Some(r) => r,
                    None => "stop"@,
                },
            ),
        ),
        estimated_timing(duration_ns, 10, chunk_count),
    );
    if is_chat {
        timed
    } else {
        timed.with("context"@, JsonV::Array(Seq::empty()))
    }
}

impl ChunkProcessingState {
    /// The memory of a stream that has not begun.
    pub fn new() -> (r: ChunkProcessingState)
        ensures
            r.last_finish_reason is None,
    {
        ChunkProcessingState { last_finish_reason: None }
    }

    /// The last finish reason that the backend gave.
    pub fn finish_reason(&self) -> (r: Option<&str>)
        ensures
            match r {
                Some(s) => opt_text(self.last_finish_reason) == Some(s@),
                None => self.last_finish_reason is None,
            },
    {
        match &self.last_finish_reason {
            Some(reason) => Some(reason.as_str()),
            None => None,
        }
    }

    /// Takes the finish reason of a choice, where it gives one.
    pub fn update_finish_reason(&mut self, choice: &Json)
        ensures
            opt_text(final(self).last_finish_reason) == finish_after(
                opt_text(old(self).last_finish_reason),
                choice@,
            ),
    {
        match choice.get_str("finish_reason") {
            Some(reason) => {
                self.last_finish_reason = Some(reason.to_owned());
            },
            None => {},
        }
    }
}

/// The first of the `choices` of a backend chunk.
pub fn extract_first_choice(chunk: &Json) -> (r: Option<&Json>)
    ensures
        opt_ref_view(r) == first_choice(chunk@),
{
    crate::handlers::transform::extract_first_choice(chunk)
}

/// The texts under `text` of the items of a content list.
fn append_items_text(items: &Vec<Json>, buffer: &mut Vec<char>)
    ensures
        final(buffer)@ == old(buffer)@ + items_text(crate::json::items_view(items@)),
{
    let ghost views = crate::json::items_view(items@);
    let ghost before = buffer@;
    proof {
        lemma_items_view(items@);
        assert(views.take(0) =~= Seq::empty());
        assert(before + items_text(views.take(0)) =~= before);
    }
    let mut i: usize = 0;
    while i < items.len()
        invariant
            i <= items.len(),
            views == crate::json::items_view(items@),
            views.len() == items@.len(),
            forall|j: int| 0 <= j < items@.len() ==> #[trigger] views[j] == items@[j]@,
            buffer@ == before + items_text(views.take(i as int)),
        decreases items.len() - i,
    {
        proof {
            assert(views.take(i + 1).drop_last() == views.take(i as int));
            assert(views.take(i + 1).last() == views[i as int]);
        }
        let ghost so_far = buffer@;
        match items[i].get_str("text") {
            Some(text) => {
                push_str(buffer, text);
                assert(buffer@ =~= before + (items_text(views.take(i as int)) + text@));
            },
            None => {
                assert(buffer@ =~= before + (items_text(views.take(i as int))
                    + Seq::<char>::empty()));
            },
        }
        i = i + 1;
    }
    assert(views.take(items.len() as int) == views);
}

/// Appends the text that a content value carries.
pub fn append_stream_content(content_value: &Json, buffer: &mut Vec<char>)
    ensures
        final(buffer)@ == old(buffer)@ + stream_text(content_value@),
    decreases content_value,
{
    match content_value {
        Json::Str(text) => {
            push_str(buffer, text.as_str());
        },
        Json::Array(items) => {
            append_items_text(items, buffer);
        },
        Json::Object(entries) => {
            proof {
                lemma_key_index(entries@, "text"@);
                lemma_key_index(entries@, "content"@);
            }
            let text: Option<&str> = match find_key(entries, "text") {
                Some(i) => entries[i].1.as_str(),
                None => None,
            };
            match text {
                Some(t) => {
                    push_str(buffer, t);
                },
                None => match find_key(entries, "content") {
                    Some(i) => {
                        append_stream_content(&entries[i].1, buffer);
                    },
                    None => {
                        assert(buffer@ + Seq::<char>::empty() =~= buffer@);
                    },
                },
            }
        },
        _ => {
            assert(buffer@ + Seq::<char>::empty() =~= buffer@);
        },
    }
}

/// Appends the text of the member under `key`, where there is one.
fn append_member_text(value: &Json, key: &str, buffer: &mut Vec<char>)
    ensures
        final(buffer)@ == old(buffer)@ + member_text(value@, key@),
{
    match value.get(key) {
        Some(member) => {
            append_stream_content(member, buffer);
        },
        None => {
            assert(buffer@ + Seq::<char>::empty() =~= buffer@);
        },
    }
}

/// What a choice of a backend chunk adds to the stream; the state takes
/// its finish reason.
pub fn process_choice_delta(choice: &Json, state: &mut ChunkProcessingState) -> (r: Option<
    ChoiceDeltaPayload,
>)
    ensures
        opt_text(final(state).last_finish_reason) == finish_after(
            opt_text(old(state).last_finish_reason),
            choice@,
        ),
        match r {
            Some(payload) => choice_emits(choice@) && payload.content@ == choice_text(choice@)
                && opt_view(payload.tool_calls_delta) == choice_tool_calls(choice@),
            None => !choice_emits(choice@),
        },
{
    state.update_finish_reason(choice);
    let mut content: Vec<char> = Vec::new();
    let mut tool_calls_delta: Option<Json> = None;
    match choice.get("delta") {
        Some(delta) => {
            append_member_text(delta, "content", &mut content);
            append_member_text(delta, "reasoning", &mut content);
            assert(content@ =~= member_text(delta@, "content"@) + member_text(
                delta@,
                "reasoning"@,
            ));
            match delta.get("tool_calls") {
                Some(calls) => match calls.as_array() {
                    Some(items) => {
                        proof {
                            lemma_items_view(items@);
                        }
                        if items.len() > 0 {
                            tool_calls_delta = Some(calls.clone());
                        }
                    },
                    None => {},
                },
                None => {},
            }
        },
        None => {
            assert(content@ =~= Seq::<char>::empty());
            match choice.get("text") {
                Some(text_value) => {
                    append_stream_content(text_value, &mut content);
                    assert(content@ =~= stream_text(text_value@));
                },
                None => match choice.get("message") {
                    Some(message) => match message.get("content") {
                        Some(message_content) => {
                            append_stream_content(message_content, &mut content);
                            assert(content@ =~= stream_text(message_content@));
                        },
                        None => {},
                    },
                    None => {},
                },
            }
        },
    }
    if content.len() == 0 && tool_calls_delta.is_none() {
        None
    } else {
        Some(ChoiceDeltaPayload { content: string_of(&content), tool_calls_delta })
    }
}

/// A line of the stream.
pub fn create_ollama_streaming_chunk(
    model_ollama_name: &str,
    content: &str,
    is_chat_endpoint: bool,
    done: bool,
    tool_calls_delta: Option<&Json>,
    created_at: &str,
) -> (r: Json)
    ensures
        r@ == stream_line(
            model_ollama_name@,
            content@,
            is_chat_endpoint,
            done,
            opt_ref_view(tool_calls_delta),
            created_at@,
        ),
{
    let mut chunk = Json::object();
    chunk.insert("model", Json::string(model_ollama_name));
    chunk.insert("created_at", Json::string(created_at));
    if is_chat_endpoint {
        let mut message = Json::object();
        message.insert("role", Json::string("assistant"));
        message.insert("content", Json::string(content));
        match tool_calls_delta {
            Some(calls) => {
                message.insert("tool_calls", calls.clone());
            },
            None => {},
        }
        chunk.insert("message", message);
        chunk.insert("done", Json::Bool(done));
    } else {
        chunk.insert("response", Json::string(content));
        chunk.insert("done", Json::Bool(done));
    }
    chunk
}

/// The last line of a stream that failed.
pub fn create_error_chunk(
    model_ollama_name: &str,
    error_message: &str,
    is_chat_endpoint: bool,
    created_at: &str,
) -> (r: Json)
    ensures
        r@ == error_line(model_ollama_name@, error_message@, is_chat_endpoint, created_at@),
{
    proof {
        reveal_strlit("");
        assert(""@ =~= Seq::<char>::empty());
    }
    let mut chunk = create_ollama_streaming_chunk(
        model_ollama_name,
        "",
        is_chat_endpoint,
        true,
        None,
        created_at,
    );
    chunk.insert("error", Json::string(error_message));
    chunk
}

/// The last line of a cancelled stream.
pub fn create_cancellation_chunk(
    model_ollama_name: &str,
    duration_ns: u64,
    tokens_generated_estimate: u64,
    is_chat_endpoint: bool,
    created_at: &str,
) -> (r: Json)
    ensures
        r@ == cancellation_line(
            model_ollama_name@,
            duration_ns,
            tokens_generated_estimate,
            is_chat_endpoint,
            created_at@,
        ),
{
    let timing = TimingInfo::from_stream_chunks(
        duration_ns,
        tokens_generated_estimate,
        Some(tokens_generated_estimate),
    );
    let text = if tokens_generated_estimate > 0 {
        let mut out = chars_of("[Request cancelled after ");
        push_chars(&mut out, &decimal_exec(tokens_generated_estimate));
        push_str(&mut out, " tokens generated (estimated)]");
        string_of(&out)
    } else {
        ERROR_CANCELLED.to_owned()
    };
    let mut chunk = create_ollama_streaming_chunk(
        model_ollama_name,
        text.as_str(),
        is_chat_endpoint,
        true,
        None,
        created_at,
    );
    insert_timing(&mut chunk, &timing);
    chunk.insert("done_reason", Json::string("cancelled"));
    chunk
}

/// The last line of a stream that ended.
pub fn create_final_chunk(
    model_ollama_name: &str,
    duration_ns: u64,
    chunk_count_for_token_estimation: u64,
    is_chat_endpoint: bool,
    done_reason: Option<&str>,
    created_at: &str,
) -> (r: Json)
    ensures
        r@ == final_line(
            model_ollama_name@,
            duration_ns,
            chunk_count_for_token_estimation,
            is_chat_endpoint,
            match done_reason {
                Some(s) => Some(s@),
                None => None,
            },
            created_at@,
        ),
{
    proof {
        reveal_strlit("");
        assert(""@ =~= Seq::<char>::empty());
    }
    let timing = TimingInfo::from_stream_chunks(duration_ns, chunk_count_for_token_estimation, None);
    let mut chunk = create_ollama_streaming_chunk(
        model_ollama_name,
        "",
        is_chat_endpoint,
        true,
        None,
        created_at,
    );
    chunk.insert(
        "done_reason",
        Json::string(
            match done_reason {
                Some(r) => r,
                None => "stop",
            },
        ),
    );
    insert_timing(&mut chunk, &timing);
    if !is_chat_endpoint {
        chunk.insert("context", empty_array());
    }
    chunk
}

} // verus!
