//! The Ollama response made from a backend response, with its timing.

use crate::constants::{
    CHARS_PER_TOKEN, DEFAULT_LOAD_DURATION_NS, TIMING_EVAL_RATIO, TIMING_PROMPT_RATIO,
};
use crate::json::{
    empty_array, empty_object, items_view, jint, jstr, lemma_items_push, lemma_items_view,
    opt_ref_view, Json, JsonV,
};
use crate::text::{
    byte_len, chars_of, eq_ignore_ascii_case, eq_ignore_ascii_case_exec, push_str, str_byte_len,
    string_of,
};
use vstd::prelude::*;
use vstd::string::StrSliceExecFns;

verus! {

/// The timing and token counts that an Ollama response reports. Durations
/// are in nanoseconds.
#[derive(Debug, Clone, Copy, PartialEq, Eq, Structural)]
pub struct TimingInfo {
    pub total_duration: u64,
    pub load_duration: u64,
    pub prompt_eval_count: u64,
    pub prompt_eval_duration: u64,
    pub eval_count: u64,
    pub eval_duration: u64,
}

/// What the caller measured for a response: when it was made, how long the
/// request took, and the backend's own timing where its response carries
/// one, in nanoseconds.
#[derive(Debug)]
pub struct ResponseClock {
    pub created_at: String,
    pub elapsed_ns: u64,
    pub generation_time_ns: Option<u64>,
    pub time_to_first_token_ns: Option<u64>,
}

/// The larger of a count and one.
pub open spec fn at_least_one(n: int) -> int {
    if n < 1 {
        1
    } else {
        n
    }
}

/// A count held to what 64 bits can say.
pub open spec fn capped64(n: int) -> u64 {
    if n > u64::MAX {
        u64::MAX
    } else if n < 0 {
        0
    } else {
        n as u64
    }
}

/// The generation time that counts where the backend gave none: a
/// millisecond.
pub open spec fn generation_time_or_default(ns: Option<u64>) -> int {
    match ns {
        Some(t) => t as int,
        None => 1_000_000,
    }
}

/// The time to the first token that counts where the backend gave none: a
/// tenth of a second.
pub open spec fn first_token_time_or_default(ns: Option<u64>) -> int {
    match ns {
        Some(t) => t as int,
        None => 100_000_000,
    }
}

/// The timing made from the backend's own statistics.
pub open spec fn native_timing(
    generation_time_ns: Option<u64>,
    time_to_first_token_ns: Option<u64>,
    prompt_tokens: u64,
    completion_tokens: u64,
) -> TimingInfo {
    let generation = generation_time_or_default(generation_time_ns);
    let first = first_token_time_or_default(time_to_first_token_ns);
    let prompt_eval = at_least_one(first);
    let eval = at_least_one(
        if generation > first {
            generation - first
        } else {
            0
        },
    );
    TimingInfo {
        total_duration: capped64(
            if generation >= prompt_eval + eval {
                generation
            } else {
                prompt_eval + eval
            },
        ),
        load_duration: DEFAULT_LOAD_DURATION_NS,
        prompt_eval_count: at_least_one(prompt_tokens as int) as u64,
        prompt_eval_duration: prompt_eval as u64,
        eval_count: at_least_one(completion_tokens as int) as u64,
        eval_duration: eval as u64,
    }
}

/// The timing made from the elapsed time `total` and token counts: the
/// prompt takes the share of the time that its tokens are of all tokens,
/// the evaluation the rest; of a time of a microsecond or less, the prompt
/// takes a quarter and the evaluation half.
pub open spec fn estimated_timing(total: u64, prompt_tokens: u64, eval_tokens: u64) -> TimingInfo {
    let p = at_least_one(prompt_tokens as int);
    let e = at_least_one(eval_tokens as int);
    let prompt_eval = if total > 1000 {
        (total * p) / (p + e)
    } else {
        total as int / TIMING_PROMPT_RATIO as int
    };
    let eval = if total > 1000 {
        total - prompt_eval
    } else {
        total as int / TIMING_EVAL_RATIO as int
    };
    TimingInfo {
        total_duration: total,
        load_duration: DEFAULT_LOAD_DURATION_NS,
        prompt_eval_count: p as u64,
        prompt_eval_duration: at_least_one(prompt_eval) as u64,
        eval_count: e as u64,
        eval_duration: at_least_one(eval) as u64,
    }
}

/// A token count that was measured, or else its estimate.
pub open spec fn measured_or(measured: Option<u64>, estimate: u64) -> u64 {
    match measured {
        Some(n) => n,
        None => estimate,
    }
}

/// The token count under `usage` and `key` of a backend response.
pub open spec fn usage_count(response: JsonV, key: Seq<char>) -> Option<u64> {
    match response.get2("usage"@, key) {
        Some(v) => v.as_u64(),
        None => None,
    }
}

/// The estimated number of tokens of a text: a quarter of its bytes,
/// rounded up.
pub open spec fn estimated_tokens(text: Seq<char>) -> int {
    (byte_len(text) + CHARS_PER_TOKEN - 1) / CHARS_PER_TOKEN as int
}

/// The first of the `choices` of a backend response.
pub open spec fn first_choice(response: JsonV) -> Option<JsonV> {
    match response.get("choices"@) {
        Some(JsonV::Array(items)) => if items.len() > 0 {
            Some(items[0])
        } else {
            None
        },
        _ => None,
    }
}

/// The text under `key` of the `message` of the first choice.
pub open spec fn message_text(response: JsonV, key: Seq<char>) -> Option<Seq<char>> {
    match first_choice(response) {
        Some(choice) => match choice.get2("message"@, key) {
            Some(v) => v.as_str(),
            None => None,
        },
        None => None,
    }
}

/// The finish reason of the first choice.
pub open spec fn finish_reason(response: JsonV) -> Option<Seq<char>> {
    match first_choice(response) {
        Some(choice) => match choice.get("finish_reason"@) {
            Some(v) => v.as_str(),
            None => None,
        },
        None => None,
    }
}

/// The finish reason that a response reports: the backend's, or `stop`.
pub open spec fn done_reason(response: JsonV) -> Seq<char> {
    match finish_reason(response) {
        Some(r) => r,
        None => "stop"@,
    }
}

/// The content of a chat response: the message's content, behind its
/// reasoning where the backend gave one.
pub open spec fn chat_content(response: JsonV) -> Seq<char> {
    let content = match message_text(response, "content"@) {
        Some(c) => c,
        None => Seq::empty(),
    };
    match message_text(response, "reasoning"@) {
        Some(reasoning) => if reasoning.len() > 0 {
            "**Reasoning:**\n"@ + reasoning + "\n\n**Answer:**\n"@ + content
        } else {
            content
        },
        None => content,
    }
}

/// The content of a completion response: the first choice's `text`, or
/// else its message's content, or else nothing.
pub open spec fn completion_content(response: JsonV) -> Seq<char> {
    match first_choice(response) {
        Some(choice) => match choice.get("text"@) {
            Some(JsonV::Str(text)) => text,
            _ => match choice.get2("message"@, "content"@) {
                Some(JsonV::Str(content)) => content,
                _ => Seq::empty(),
            },
        },
        None => Seq::empty(),
    }
}

/// The `embedding` members of the items of a list, in order.
pub open spec fn embeddings_of(items: Seq<JsonV>) -> Seq<JsonV>
    decreases items.len(),
{
    if items.len() == 0 {
        Seq::empty()
    } else {
        match items.last().get("embedding"@) {
            Some(e) => embeddings_of(items.drop_last()).push(e),
            None => embeddings_of(items.drop_last()),
        }
    }
}

/// The embeddings of a backend response: those of its `data`.
pub open spec fn response_embeddings(response: JsonV) -> Seq<JsonV> {
    match response.get("data"@) {
        Some(JsonV::Array(items)) => embeddings_of(items),
        _ => Seq::empty(),
    }
}

/// The tool calls of a chat response, where it has some.
pub open spec fn response_tool_calls(response: JsonV) -> Option<JsonV> {
    match first_choice(response) {
        Some(choice) => match choice.get2("message"@, "tool_calls"@) {
            Some(JsonV::Array(calls)) => if calls.len() > 0 {
                Some(JsonV::Array(calls))
            } else {
                None
            },
            _ => None,
        },
        None => None,
    }
}

/// The timing of a response. With the backend's statistics in use and in
/// the response, it is made from them; else it is estimated from the
/// elapsed time. The counted completion tokens weigh in where statistics
/// are in use or `completion_counts` says so.
pub open spec fn response_timing(
    response: JsonV,
    clock: ResponseClock,
    use_native_stats: bool,
    input_estimate: u64,
    output_estimate: u64,
    completion_counts: bool,
) -> TimingInfo {
    let prompt = usage_count(response, "prompt_tokens"@);
    let completion = if completion_counts || use_native_stats {
        usage_count(response, "completion_tokens"@)
    } else {
        None
    };
    if use_native_stats && response.get("stats"@) is Some {
        native_timing(
            clock.generation_time_ns,
            clock.time_to_first_token_ns,
            measured_or(prompt, input_estimate),
            measured_or(completion, output_estimate),
        )
    } else {
        estimated_timing(
            clock.elapsed_ns,
            measured_or(prompt, input_estimate),
            measured_or(completion, output_estimate),
        )
    }
}

/// `response` with the members of `timing` that every response carries.
pub open spec fn with_prompt_timing(response: JsonV, timing: TimingInfo) -> JsonV {
    response.with("total_duration"@, jint(timing.total_duration as int)).with(
        "load_duration"@,
        jint(timing.load_duration as int),
    ).with("prompt_eval_count"@, jint(timing.prompt_eval_count as int)).with(
        "prompt_eval_duration"@,
        jint(timing.prompt_eval_duration as int),
    )
}

/// `response` with all members of `timing`.
pub open spec fn with_timing(response: JsonV, timing: TimingInfo) -> JsonV {
    with_prompt_timing(response, timing).with("eval_count"@, jint(timing.eval_count as int)).with(
        "eval_duration"@,
        jint(timing.eval_duration as int),
    )
}

/// The assistant's message with `content`, and with `tool_calls` where
/// there are some.
pub open spec fn assistant_message(content: Seq<char>, tool_calls: Option<JsonV>) -> JsonV {
    let message = empty_object().with("role"@, jstr("assistant"@)).with("content"@, jstr(content));
    match tool_calls {
        Some(calls) => message.with("tool_calls"@, calls),
        None => message,
    }
}

/// The count of input tokens estimated for a chat of `message_count`
/// messages: ten for each, one at least.
pub open spec fn chat_input_estimate(message_count: usize) -> u64 {
    capped64(at_least_one(message_count * 10))
}

/// The Ollama chat response for a backend response.
pub open spec fn ollama_chat_response(
    response: JsonV,
    model: Seq<char>,
    message_count: usize,
    clock: ResponseClock,
    use_native_stats: bool,
) -> JsonV {
    let content = chat_content(response);
    let timing = response_timing(
        response,
        clock,
        use_native_stats,
        chat_input_estimate(message_count),
        capped64(estimated_tokens(content)),
        true,
    );
    with_timing(
        empty_object().with("model"@, jstr(model)).with("created_at"@, jstr(clock.created_at@)).with(
            "message"@,
            assistant_message(content, response_tool_calls(response)),
        ).with("done"@, JsonV::Bool(true)).with("done_reason"@, jstr(done_reason(response))),
        timing,
    )
}

/// The Ollama generate response for a backend response.
pub open spec fn ollama_generate_response(
    response: JsonV,
    model: Seq<char>,
    prompt: Seq<char>,
    clock: ResponseClock,
    use_native_stats: bool,
) -> JsonV {
    let content = completion_content(response);
    let timing = response_timing(
        response,
        clock,
        use_native_stats,
        capped64(estimated_tokens(prompt)),
        capped64(estimated_tokens(content)),
        true,
    );
    with_timing(
        empty_object().with("model"@, jstr(model)).with("created_at"@, jstr(clock.created_at@)).with(
            "response"@,
            jstr(content),
        ).with("done"@, JsonV::Bool(true)).with("done_reason"@, jstr(done_reason(response))).with(
            "context"@,
            JsonV::Array(Seq::empty()),
        ),
        timing,
    )
}

/// The Ollama embeddings response for a backend response.
pub open spec fn ollama_embeddings_response(
    response: JsonV,
    model: Seq<char>,
    clock: ResponseClock,
    use_native_stats: bool,
) -> JsonV {
    let embeddings = response_embeddings(response);
    let timing = response_timing(
        response,
        clock,
        use_native_stats,
        10,
        capped64(at_least_one(embeddings.len() as int)),
        false,
    );
    with_prompt_timing(
        empty_object().with("model"@, jstr(model)).with("embeddings"@, JsonV::Array(embeddings)),
        timing,
    )
}

/// Whether a message has the role `system`, case aside.
pub open spec fn is_system_message(message: JsonV) -> bool {
    match message.get("role"@) {
        Some(JsonV::Str(role)) => eq_ignore_ascii_case(role, "system"@),
        _ => false,
    }
}

/// The system message with the text `system`.
pub open spec fn system_message(system: Seq<char>) -> JsonV {
    empty_object().with("role"@, jstr("system"@)).with("content"@, jstr(system))
}

/// The messages with the system prompt before them, where one applies and
/// no message is a system message already.
pub open spec fn normalized_messages(messages: Seq<JsonV>, system: Option<Seq<char>>) -> Seq<
    JsonV,
> {
    match system {
        Some(text) => if exists|i: int| 0 <= i < messages.len() && is_system_message(messages[i]) {
            messages
        } else {
            seq![system_message(text)] + messages
        },
        None => messages,
    }
}

/// The larger of a count and one.
fn at_least_one_exec(n: u64) -> (r: u64)
    ensures
        r == at_least_one(n as int),
{
    if n < 1 {
        1
    } else {
        n
    }
}

impl TimingInfo {
    /// The timing of a response: from the backend's statistics where the
    /// response carries them, else estimated from the elapsed time.
    pub fn from_native_stats(
        lm_response: &Json,
        clock: &ResponseClock,
        estimated_input_tokens: u64,
        estimated_output_tokens: u64,
    ) -> (r: TimingInfo)
        ensures
            r == response_timing(
                lm_response@,
                *clock,
                true,
                estimated_input_tokens,
                estimated_output_tokens,
                true,
            ),
    {
        let prompt = usage_count_exec(lm_response, "prompt_tokens");
        let completion = usage_count_exec(lm_response, "completion_tokens");
        if lm_response.has("stats") {
            let generation: u64 = match clock.generation_time_ns {
                Some(t) => t,
                None => 1_000_000,
            };
            let first: u64 = match clock.time_to_first_token_ns {
                Some(t) => t,
                None => 100_000_000,
            };
            let actual_prompt = match prompt {
                Some(n) => n,
                None => estimated_input_tokens,
            };
            let actual_completion = match completion {
                Some(n) => n,
                None => estimated_output_tokens,
            };
            let prompt_eval = at_least_one_exec(first);
            let eval = at_least_one_exec(
                if generation > first {
                    generation - first
                } else {
                    0
                },
            );
            let sum: u64 = if prompt_eval > u64::MAX - eval {
                u64::MAX
            } else {
                prompt_eval + eval
            };
            let total = if generation >= sum {
                generation
            } else {
                sum
            };
            TimingInfo {
                total_duration: total,
                load_duration: DEFAULT_LOAD_DURATION_NS,
                prompt_eval_count: at_least_one_exec(actual_prompt),
                prompt_eval_duration: prompt_eval,
                eval_count: at_least_one_exec(actual_completion),
                eval_duration: eval,
            }
        } else {
            TimingInfo::from_legacy_estimation(
                clock.elapsed_ns,
                estimated_input_tokens,
                estimated_output_tokens,
                prompt,
                completion,
            )
        }
    }

    /// The timing estimated from the nanoseconds that a request took.
    pub fn from_legacy_estimation(
        elapsed_ns: u64,
        input_tokens_estimate: u64,
        output_tokens_estimate: u64,
        actual_prompt_tokens: Option<u64>,
        actual_completion_tokens: Option<u64>,
    ) -> (r: TimingInfo)
        ensures
            r == estimated_timing(
                elapsed_ns,
                measured_or(actual_prompt_tokens, input_tokens_estimate),
                measured_or(actual_completion_tokens, output_tokens_estimate),
            ),
    {
        TimingInfo::from_duration_and_tokens(
            elapsed_ns,
            input_tokens_estimate,
            output_tokens_estimate,
            actual_prompt_tokens,
            actual_completion_tokens,
        )
    }

    /// The timing of a stream that took `duration_ns` nanoseconds and sent
    /// `chunk_count_estimate` chunks: each chunk counts as one token
    /// unless the tokens were counted, and the prompt as ten.
    pub fn from_stream_chunks(
        duration_ns: u64,
        chunk_count_estimate: u64,
        actual_completion_tokens: Option<u64>,
    ) -> (r: TimingInfo)
        ensures
            r == estimated_timing(
                duration_ns,
                10,
                measured_or(actual_completion_tokens, chunk_count_estimate),
            ),
    {
        TimingInfo::from_duration_and_tokens(
            duration_ns,
            10,
            at_least_one_exec(chunk_count_estimate),
            None,
            actual_completion_tokens,
        )
    }

    /// The timing made from an elapsed time and token counts.
    pub fn from_duration_and_tokens(
        total_duration_ns: u64,
        input_tokens_estimate: u64,
        output_tokens_estimate: u64,
        actual_prompt_tokens: Option<u64>,
        actual_completion_tokens: Option<u64>,
    ) -> (r: TimingInfo)
        ensures
            r == estimated_timing(
                total_duration_ns,
                measured_or(actual_prompt_tokens, input_tokens_estimate),
                measured_or(actual_completion_tokens, output_tokens_estimate),
            ),
    {
        let final_prompt_tokens = at_least_one_exec(
            match actual_prompt_tokens {
                Some(n) => n,
                None => input_tokens_estimate,
            },
        );
        let final_eval_tokens = at_least_one_exec(
            match actual_completion_tokens {
                Some(n) => n,
                None => output_tokens_estimate,
            },
        );
        let prompt_eval: u64 = if total_duration_ns > 1000 {
            let all: u128 = final_prompt_tokens as u128 + final_eval_tokens as u128;
            assert(total_duration_ns as int * final_prompt_tokens as int
                <= 0xffff_ffff_ffff_ffff * 0xffff_ffff_ffff_ffff) by (nonlinear_arith)
                requires
                    0 <= total_duration_ns as int <= 0xffff_ffff_ffff_ffff,
                    0 <= final_prompt_tokens as int <= 0xffff_ffff_ffff_ffff,
            ;
            let product: u128 = (total_duration_ns as u128) * (final_prompt_tokens as u128);
            let share: u128 = product / all;
            assert(share <= total_duration_ns && share == (total_duration_ns
                * final_prompt_tokens) / (final_prompt_tokens + final_eval_tokens)) by (nonlinear_arith)
                requires
                    share as int == (total_duration_ns as int * final_prompt_tokens as int) / (
                    all as int),
                    all as int == final_prompt_tokens as int + final_eval_tokens as int,
                    final_eval_tokens >= 1,
                    final_prompt_tokens >= 1,
            ;
            share as u64
        } else {
            total_duration_ns / TIMING_PROMPT_RATIO
        };
        let eval: u64 = if total_duration_ns > 1000 {
            total_duration_ns - prompt_eval
        } else {
            total_duration_ns / TIMING_EVAL_RATIO
        };
        TimingInfo {
            total_duration: total_duration_ns,
            load_duration: DEFAULT_LOAD_DURATION_NS,
            prompt_eval_count: final_prompt_tokens,
            prompt_eval_duration: at_least_one_exec(prompt_eval),
            eval_count: final_eval_tokens,
            eval_duration: at_least_one_exec(eval),
        }
    }
}

/// The token count under `usage` and `key` of a backend response.
fn usage_count_exec(lm_response: &Json, key: &str) -> (r: Option<u64>)
    ensures
        r == usage_count(lm_response@, key@),
{
    match lm_response.get("usage") {
        Some(usage) => match usage.get(key) {
            Some(v) => v.as_u64(),
            None => None,
        },
        None => None,
    }
}

/// The estimated number of tokens of a text, held to 64 bits.
pub fn estimate_token_count(text: &str) -> (r: u64)
    ensures
        r == capped64(estimated_tokens(text@)),
{
    let len = str_byte_len(text) as u64;
    if len > u64::MAX - (CHARS_PER_TOKEN - 1) {
        (len / CHARS_PER_TOKEN) + 1
    } else {
        (len + (CHARS_PER_TOKEN - 1)) / CHARS_PER_TOKEN
    }
}

/// The first of the `choices` of a backend response.
pub fn extract_first_choice(chunk: &Json) -> (r: Option<&Json>)
    ensures
        opt_ref_view(r) == first_choice(chunk@),
{
    match chunk.get("choices") {
        Some(choices) => match choices.as_array() {
            Some(items) => {
                proof {
                    lemma_items_view(items@);
                }
                if items.len() > 0 {
                    Some(&items[0])
                } else {
                    None
                }
            },
            None => None,
        },
        None => None,
    }
}

/// The text under `key` of the `message` of the first choice.
fn message_text_exec<'a>(lm_response: &'a Json, key: &str) -> (r: Option<&'a str>)
    ensures
        match r {
            Some(s) => message_text(lm_response@, key@) == Some(s@),
            None => message_text(lm_response@, key@) is None,
        },
{
    match extract_first_choice(lm_response) {
        Some(choice) => match choice.get("message") {
            Some(message) => message.get_str(key),
            None => None,
        },
        None => None,
    }
}

/// The finish reason of the first choice.
pub fn extract_finish_reason(lm_response: &Json) -> (r: Option<&str>)
    ensures
        match r {
            Some(s) => finish_reason(lm_response@) == Some(s@),
            None => finish_reason(lm_response@) is None,
        },
{
    match extract_first_choice(lm_response) {
        Some(choice) => choice.get_str("finish_reason"),
        None => None,
    }
}

/// The maker of Ollama responses from backend responses.
#[derive(Debug, Clone, Copy)]
pub struct ResponseTransformer;

/// Puts the members of `timing` that every response carries into `target`.
fn insert_prompt_timing(target: &mut Json, timing: &TimingInfo)
    ensures
        final(target)@ == with_prompt_timing(old(target)@, *timing),
{
    target.insert("total_duration", Json::unsigned(timing.total_duration));
    target.insert("load_duration", Json::unsigned(timing.load_duration));
    target.insert("prompt_eval_count", Json::unsigned(timing.prompt_eval_count));
    target.insert("prompt_eval_duration", Json::unsigned(timing.prompt_eval_duration));
}

/// Puts all members of `timing` into `target`.
pub fn insert_timing(target: &mut Json, timing: &TimingInfo)
    ensures
        final(target)@ == with_timing(old(target)@, *timing),
{
    insert_prompt_timing(target, timing);
    target.insert("eval_count", Json::unsigned(timing.eval_count));
    target.insert("eval_duration", Json::unsigned(timing.eval_duration));
}

/// The timing of a response.
fn response_timing_exec(
    lm_response: &Json,
    clock: &ResponseClock,
    use_native_stats: bool,
    input_estimate: u64,
    output_estimate: u64,
    completion_counts: bool,
) -> (r: TimingInfo)
    ensures
        r == response_timing(
            lm_response@,
            *clock,
            use_native_stats,
            input_estimate,
            output_estimate,
            completion_counts,
        ),
{
    if use_native_stats {
        TimingInfo::from_native_stats(lm_response, clock, input_estimate, output_estimate)
    } else {
        let prompt = usage_count_exec(lm_response, "prompt_tokens");
        let completion = if completion_counts {
            usage_count_exec(lm_response, "completion_tokens")
        } else {
            None
        };
        TimingInfo::from_legacy_estimation(
            clock.elapsed_ns,
            input_estimate,
            output_estimate,
            prompt,
            completion,
        )
    }
}

impl ResponseTransformer {
    /// The Ollama chat response for a backend response.
    pub fn convert_to_ollama_chat(
        lm_response: &Json,
        model_ollama_name: &str,
        message_count_for_estimation: usize,
        clock: &ResponseClock,
        use_native_stats: bool,
    ) -> (r: Json)
        ensures
            r@ == ollama_chat_response(
                lm_response@,
                model_ollama_name@,
                message_count_for_estimation,
                *clock,
                use_native_stats,
            ),
    {
        let content = ResponseTransformer::extract_chat_content_with_reasoning(lm_response);
        let count = message_count_for_estimation as u64;
        let input_estimate: u64 = if count > u64::MAX / 10 {
            u64::MAX
        } else {
            at_least_one_exec(count * 10)
        };
        let timing = response_timing_exec(
            lm_response,
            clock,
            use_native_stats,
            input_estimate,
            estimate_token_count(content.as_str()),
            true,
        );
        let reason = match extract_finish_reason(lm_response) {
            Some(r) => r,
            None => "stop",
        };
        let mut message = Json::object();
        message.insert("role", Json::string("assistant"));
        message.insert("content", Json::string(content.as_str()));
        match tool_calls_exec(lm_response) {
            Some(calls) => {
                message.insert("tool_calls", calls.clone());
            },
            None => {},
        }
        let mut response = Json::object();
        response.insert("model", Json::string(model_ollama_name));
        response.insert("created_at", Json::string(clock.created_at.as_str()));
        response.insert("message", message);
        response.insert("done", Json::Bool(true));
        response.insert("done_reason", Json::string(reason));
        insert_timing(&mut response, &timing);
        response
    }

    /// The Ollama generate response for a backend response.
    pub fn convert_to_ollama_generate(
        lm_response: &Json,
        model_ollama_name: &str,
        prompt_for_estimation: &str,
        clock: &ResponseClock,
        use_native_stats: bool,
    ) -> (r: Json)
        ensures
            r@ == ollama_generate_response(
                lm_response@,
                model_ollama_name@,
                prompt_for_estimation@,
                *clock,
                use_native_stats,
            ),
    {
        let content = ResponseTransformer::extract_completion_content(lm_response);
        let timing = response_timing_exec(
            lm_response,
            clock,
            use_native_stats,
            estimate_token_count(prompt_for_estimation),
            estimate_token_count(content.as_str()),
            true,
        );
        let reason = match extract_finish_reason(lm_response) {
            Some(r) => r,
            None => "stop",
        };
        let mut response = Json::object();
        response.insert("model", Json::string(model_ollama_name));
        response.insert("created_at", Json::string(clock.created_at.as_str()));
        response.insert("response", Json::string(content.as_str()));
        response.insert("done", Json::Bool(true));
        response.insert("done_reason", Json::string(reason));
        response.insert("context", empty_array());
        insert_timing(&mut response, &timing);
        response
    }

    /// The Ollama embeddings response for a backend response.
    pub fn convert_to_ollama_embeddings(
        lm_response: &Json,
        model_ollama_name: &str,
        clock: &ResponseClock,
        use_native_stats: bool,
    ) -> (r: Json)
        ensures
            r@ == ollama_embeddings_response(
                lm_response@,
                model_ollama_name@,
                *clock,
                use_native_stats,
            ),
    {
        let embeddings = ResponseTransformer::extract_embeddings(lm_response);
        let output_estimate = at_least_one_exec(embeddings.len() as u64);
        let timing = response_timing_exec(
            lm_response,
            clock,
            use_native_stats,
            10,
            output_estimate,
            false,
        );
        let mut response = Json::object();
        response.insert("model", Json::string(model_ollama_name));
        response.insert("embeddings", Json::array(embeddings));
        insert_prompt_timing(&mut response, &timing);
        response
    }

    /// The content of a chat response.
    pub fn extract_chat_content_with_reasoning(lm_response: &Json) -> (r: String)
        ensures
            r@ == chat_content(lm_response@),
    {
        let base = match message_text_exec(lm_response, "content") {
            Some(c) => c,
            None => "",
        };
        proof {
            reveal_strlit("");
            assert(""@ =~= Seq::<char>::empty());
        }
        match message_text_exec(lm_response, "reasoning") {
            Some(reasoning) => {
                if reasoning.unicode_len() > 0 {
                    let mut out = chars_of("**Reasoning:**\n");
                    push_str(&mut out, reasoning);
                    push_str(&mut out, "\n\n**Answer:**\n");
                    push_str(&mut out, base);
                    string_of(&out)
                } else {
                    base.to_owned()
                }
            },
            None => base.to_owned(),
        }
    }

    /// The content of a completion response.
    pub fn extract_completion_content(lm_response: &Json) -> (r: String)
        ensures
            r@ == completion_content(lm_response@),
    {
        proof {
            reveal_strlit("");
            assert(""@ =~= Seq::<char>::empty());
        }
        match extract_first_choice(lm_response) {
            Some(choice) => match choice.get_str("text") {
                Some(text) => text.to_owned(),
                None => match choice.get("message") {
                    Some(message) => match message.get_str("content") {
                        Some(content) => content.to_owned(),
                        None => "".to_owned(),
                    },
                    None => "".to_owned(),
                },
            },
            None => "".to_owned(),
        }
    }

    /// The embeddings of a backend response.
    pub fn extract_embeddings(lm_response: &Json) -> (r: Vec<Json>)
        ensures
            items_view(r@) == response_embeddings(lm_response@),
            r@.len() == response_embeddings(lm_response@).len(),
    {
        match lm_response.get("data") {
            Some(data) => match data.as_array() {
                Some(items) => {
                    let mut out: Vec<Json> = Vec::new();
                    let mut i: usize = 0;
                    let ghost views = items_view(items@);
                    assert(views.take(0) =~= Seq::empty());
                    proof {
                        lemma_items_view(items@);
                    }
                    while i < items.len()
                        invariant
                            i <= items.len(),
                            views == items_view(items@),
                            views.len() == items@.len(),
                            forall|j: int| 0 <= j < items@.len() ==> #[trigger] views[j] == items@[j]@,
                            items_view(out@) == embeddings_of(views.take(i as int)),
                            out@.len() == embeddings_of(views.take(i as int)).len(),
                        decreases items.len() - i,
                    {
                        proof {
                            assert(views.take(i + 1).drop_last() == views.take(i as int));
                            assert(views.take(i + 1).last() == views[i as int]);
                        }
                        match items[i].get("embedding") {
                            Some(e) => {
                                let copy = e.clone();
                                proof {
                                    lemma_items_push(out@, copy);
                                }
                                out.push(copy);
                            },
                            None => {},
                        }
                        i = i + 1;
                    }
                    assert(views.take(items.len() as int) == views);
                    out
                },
                None => Vec::new(),
            },
            None => Vec::new(),
        }
    }
}

/// The tool calls of a chat response, where it has some.
fn tool_calls_exec(lm_response: &Json) -> (r: Option<&Json>)
    ensures
        opt_ref_view(r) == response_tool_calls(lm_response@),
{
    match extract_first_choice(lm_response) {
        Some(choice) => match choice.get("message") {
            Some(message) => match message.get("tool_calls") {
                Some(calls) => match calls.as_array() {
                    Some(items) => {
                        proof {
                            lemma_items_view(items@);
                        }
                        if items.len() > 0 {
                            Some(calls)
                        } else {
                            None
                        }
                    },
                    None => None,
                },
                None => None,
            },
            None => None,
        },
        None => None,
    }
}

/// Whether a message has the role `system`, case aside.
fn is_system_message_exec(message: &Json) -> (r: bool)
    ensures
        r == is_system_message(message@),
{
    match message.get_str("role") {
        Some(role) => eq_ignore_ascii_case_exec(role, "system"),
        None => false,
    }
}

/// The chat messages for the backend: the client's, with the system prompt
/// before them where one applies and no message is a system message.
pub fn normalize_chat_messages(messages: &Vec<Json>, system_prompt: Option<&str>) -> (r: Json)
    ensures
        r@ == JsonV::Array(
            normalized_messages(
                items_view(messages@),
                match system_prompt {
                    Some(s) => Some(s@),
                    None => None,
                },
            ),
        ),
{
    let ghost views = items_view(messages@);
    proof {
        lemma_items_view(messages@);
    }
    let mut has_system = false;
    let mut i: usize = 0;
    while i < messages.len()
        invariant
            i <= messages.len(),
            views == items_view(messages@),
            views.len() == messages@.len(),
            forall|j: int| 0 <= j < messages@.len() ==> #[trigger] views[j] == messages@[j]@,
            has_system == exists|j: int| 0 <= j < i && is_system_message(views[j]),
        decreases messages.len() - i,
    {
        if is_system_message_exec(&messages[i]) {
            has_system = true;
            assert(is_system_message(views[i as int]));
        }
        i = i + 1;
    }
    match system_prompt {
        Some(system_text) => {
            if has_system {
                Json::Array(crate::json::clone_items(messages))
            } else {
                let mut first = Json::object();
                first.insert("role", Json::string("system"));
                first.insert("content", Json::string(system_text));
                let mut combined: Vec<Json> = Vec::new();
                combined.push(first);
                proof {
                    lemma_items_view(combined@);
                    assert(items_view(combined@) =~= seq![system_message(system_text@)]);
                }
                let mut k: usize = 0;
                while k < messages.len()
                    invariant
                        k <= messages.len(),
                        views == items_view(messages@),
                        items_view(combined@) == seq![system_message(system_text@)] + views.take(
                            k as int,
                        ),
                    decreases messages.len() - k,
                {
                    let copy = messages[k].clone();
                    proof {
                        lemma_items_push(combined@, copy);
                        lemma_items_view(messages@);
                        assert(views.take(k + 1) == views.take(k as int).push(views[k as int]));
                        assert((seq![system_message(system_text@)] + views.take(k as int)).push(
                            copy@,
                        ) =~= seq![system_message(system_text@)] + views.take(k + 1));
                    }
                    combined.push(copy);
                    k = k + 1;
                }
                assert(views.take(messages.len() as int) == views);
                Json::Array(combined)
            }
        },
        None => Json::Array(crate::json::clone_items(messages)),
    }
}

} // verus!
