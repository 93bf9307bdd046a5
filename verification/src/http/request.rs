//! The backend request: its three families and the mapping of the client's
//! options onto backend parameters.

use crate::json::{empty_object, jstr, Json, JsonV};
use crate::text::{eq_ignore_ascii_case, eq_ignore_ascii_case_exec, str_eq};
use vstd::prelude::*;

verus! {

/// A request body under construction.
#[derive(Debug)]
pub struct RequestBuilder {
    pub body: Json,
}

impl RequestBuilder {
    /// The builder of an empty body.
    pub fn new() -> (r: RequestBuilder)
        ensures
            r.body@ == empty_object(),
    {
        RequestBuilder { body: Json::object() }
    }

    /// The builder with `value` under `key`.
    pub fn add_required(self, key: &str, value: Json) -> (r: RequestBuilder)
        ensures
            r.body@ == self.body@.with(key@, value@),
    {
        let mut body = self.body;
        body.insert(key, value);
        RequestBuilder { body }
    }

    /// The body that was built.
    pub fn build(self) -> (r: Json)
        ensures
            r@ == self.body@,
    {
        self.body
    }
}

/// The family of a backend request, with what only that family carries.
#[derive(Debug)]
pub enum LMStudioRequestType<'a> {
    Chat { messages: &'a Json, stream: bool },
    Completion { prompt: &'a str, stream: bool },
    Embeddings { input: &'a Json },
}

/// What a contract says of an `LMStudioRequestType`.
pub enum LMStudioRequestTypeV {
    Chat { messages: JsonV, stream: bool },
    Completion { prompt: Seq<char>, stream: bool },
    Embeddings { input: JsonV },
}

/// The view of a request family.
pub open spec fn request_type_view(request_type: LMStudioRequestType) -> LMStudioRequestTypeV {
    match request_type {
        LMStudioRequestType::Chat { messages, stream } => LMStudioRequestTypeV::Chat {
            messages: messages@,
            stream,
        },
        LMStudioRequestType::Completion { prompt, stream } => LMStudioRequestTypeV::Completion {
            prompt: prompt@,
            stream,
        },
        LMStudioRequestType::Embeddings { input } => LMStudioRequestTypeV::Embeddings {
            input: input@,
        },
    }
}

/// A request body ready to be sent on: its bytes, and whether they are
/// JSON that the proxy wrote.
#[derive(Debug)]
pub struct PreparedBody {
    pub bytes: Option<Vec<u8>>,
    pub is_json: bool,
}

/// The body to send on. `serialized` holds the rewritten JSON body where
/// the request had one; else the original bytes go on as they are, and
/// nothing where there were none.
pub fn prepare_request_body(serialized: Option<Vec<u8>>, original_bytes: &[u8]) -> (r: PreparedBody)
    ensures
        match serialized {
            Some(bytes) => r.is_json && (r.bytes matches Some(b) && b@ == bytes@),
            None => !r.is_json && if original_bytes@.len() > 0 {
                (r.bytes matches Some(b) && b@ == original_bytes@)
            } else {
                r.bytes is None
            },
        },
{
    match serialized {
        Some(bytes) => PreparedBody { bytes: Some(bytes), is_json: true },
        None => {
            if original_bytes.len() > 0 {
                let mut copy: Vec<u8> = Vec::new();
                let mut i: usize = 0;
                while i < original_bytes.len()
                    invariant
                        i <= original_bytes.len(),
                        copy@ == original_bytes@.take(i as int),
                    decreases original_bytes.len() - i,
                {
                    copy.push(original_bytes[i]);
                    i = i + 1;
                    assert(original_bytes@.take(i as int) == original_bytes@.take(i - 1).push(
                        original_bytes@[i - 1],
                    ));
                }
                assert(original_bytes@.take(original_bytes.len() as int) == original_bytes@);
                PreparedBody { bytes: Some(copy), is_json: false }
            } else {
                PreparedBody { bytes: None, is_json: false }
            }
        },
    }
}

/// The member of `options` under `key`, where there are options and they
/// have one.
pub open spec fn option_member(options: Option<JsonV>, key: Seq<char>) -> Option<JsonV> {
    match options {
        Some(o) => o.get(key),
        None => None,
    }
}

/// `map` with `value` under `key`, where there is a value.
pub open spec fn with_some(map: Map<Seq<char>, JsonV>, key: Seq<char>, value: Option<JsonV>) -> Map<
    Seq<char>,
    JsonV,
> {
    match value {
        Some(v) => map.insert(key, v),
        None => map,
    }
}

/// The parameters that pass from the client's options to the backend under
/// the same name, unchanged.
pub open spec fn direct_params(options: Option<JsonV>) -> Map<Seq<char>, JsonV> {
    let m0 = Map::<Seq<char>, JsonV>::empty();
    let m1 = with_some(m0, "temperature"@, option_member(options, "temperature"@));
    let m2 = with_some(m1, "top_p"@, option_member(options, "top_p"@));
    let m3 = with_some(m2, "top_k"@, option_member(options, "top_k"@));
    let m4 = with_some(m3, "seed"@, option_member(options, "seed"@));
    let m5 = with_some(m4, "stop"@, option_member(options, "stop"@));
    let m6 = with_some(m5, "truncate"@, option_member(options, "truncate"@));
    let m7 = with_some(m6, "dimensions"@, option_member(options, "dimensions"@));
    let m8 = with_some(m7, "logit_bias"@, option_member(options, "logit_bias"@));
    with_some(m8, "system"@, option_member(options, "system"@))
}

/// A value that is there and is not `null`.
pub open spec fn non_null(value: Option<JsonV>) -> Option<JsonV> {
    match value {
        Some(v) => if v is Null {
            None
        } else {
            Some(v)
        },
        None => None,
    }
}

/// The token limit that the options give: `max_tokens`, or else
/// `num_predict`; the first that is not `null`.
pub open spec fn token_limit(options: Option<JsonV>) -> Option<JsonV> {
    match non_null(option_member(options, "max_tokens"@)) {
        Some(v) => Some(v),
        None => non_null(option_member(options, "num_predict"@)),
    }
}

/// The backend's format of a mode: an object with the mode as its `type`
/// and nothing else.
pub open spec fn mode_format(mode: Seq<char>) -> JsonV {
    empty_object().with("type"@, jstr(mode))
}

/// The backend's format of a JSON schema: the wrapper that names the schema
/// and asks for strict adherence to it.
pub open spec fn schema_format(schema: JsonV) -> JsonV {
    empty_object().with("type"@, jstr("json_schema"@)).with(
        "json_schema"@,
        empty_object().with("name"@, jstr("ollama_format"@)).with("strict"@, JsonV::Bool(true)).with(
            "schema"@,
            schema,
        ),
    )
}

/// Whether a format is one of the backend's already: the JSON mode, the
/// text mode, or an object of the type `json_schema` that holds one.
pub open spec fn is_backend_format(format: JsonV) -> bool {
    format == mode_format("json_object"@) || format == mode_format("text"@) || (format.get(
        "type"@,
    ) == Some(jstr("json_schema"@)) && format.get("json_schema"@) is Some)
}

/// The backend's `response_format` for a client's `format`: the JSON mode
/// for the text `json`, the text mode for the text `text`, case aside; an
/// object that is one of the backend's formats already, as it is; the
/// schema wrapper for any other object; nothing for anything else.
pub open spec fn converted_format(format: JsonV) -> Option<JsonV> {
    match format {
        JsonV::Str(mode) => if eq_ignore_ascii_case(mode, "json"@) {
            Some(mode_format("json_object"@))
        } else if eq_ignore_ascii_case(mode, "text"@) {
            Some(mode_format("text"@))
        } else {
            None
        },
        JsonV::Object(_) => if is_backend_format(format) {
            Some(format)
        } else {
            Some(schema_format(format))
        },
        _ => None,
    }
}

/// The format that applies: the structured format of the request, or else
/// the `format` among the options.
pub open spec fn format_source(options: Option<JsonV>, structured_format: Option<JsonV>) -> Option<
    JsonV,
> {
    match structured_format {
        Some(f) => Some(f),
        None => option_member(options, "format"@),
    }
}

/// The backend's `response_format` for a request.
pub open spec fn response_format(options: Option<JsonV>, structured_format: Option<JsonV>)
    -> Option<JsonV> {
    match format_source(options, structured_format) {
        Some(f) => converted_format(f),
        None => None,
    }
}

/// Whether the options set another penalty than the repeat penalty.
pub open spec fn other_penalty_set(options: Option<JsonV>) -> bool {
    option_member(options, "frequency_penalty"@) is Some || option_member(
        options,
        "presence_penalty"@,
    ) is Some
}

/// The repeat penalty that goes on under its own name: the one of the
/// options, where they set no other penalty.
pub open spec fn kept_repeat_penalty(options: Option<JsonV>) -> Option<JsonV> {
    if other_penalty_set(options) {
        None
    } else {
        option_member(options, "repeat_penalty"@)
    }
}

/// The repeat penalty that goes on as the frequency penalty: the one of the
/// options, where they set another penalty and no frequency penalty.
pub open spec fn mirrored_penalty(options: Option<JsonV>) -> Option<JsonV> {
    if other_penalty_set(options) && option_member(options, "frequency_penalty"@) is None {
        option_member(options, "repeat_penalty"@)
    } else {
        None
    }
}

/// `map` with the penalties that the options give.
pub open spec fn with_penalties(map: Map<Seq<char>, JsonV>, options: Option<JsonV>) -> Map<
    Seq<char>,
    JsonV,
> {
    with_some(
        with_some(map, "repeat_penalty"@, kept_repeat_penalty(options)),
        "frequency_penalty"@,
        mirrored_penalty(options),
    )
}

/// The backend parameters for a client's options and structured format.
pub open spec fn mapped_params(options: Option<JsonV>, structured_format: Option<JsonV>) -> Map<
    Seq<char>,
    JsonV,
> {
    let direct = direct_params(options);
    let limited = with_some(direct, "max_tokens"@, token_limit(options));
    let penalised = with_penalties(limited, options);
    with_some(penalised, "response_format"@, response_format(options, structured_format))
}

/// Copies the member under `key` from the options to the parameters.
fn copy_member(options: &Json, key: &str, params: &mut Json)
    requires
        old(params)@ is Object,
    ensures
        final(params)@ == JsonV::Object(
            with_some(old(params)@->Object_0, key@, options@.get(key@)),
        ),
{
    match options.get(key) {
        Some(value) => {
            params.insert(key, value.clone());
        },
        None => {},
    }
}

fn map_direct_params(ollama_options: Option<&Json>, params: &mut Json)
    requires
        old(params)@ == empty_object(),
    ensures
        final(params)@ == JsonV::Object(
            direct_params(
                match ollama_options {
                    Some(o) => Some(o@),
                    None => None,
                },
            ),
        ),
{
    match ollama_options {
        Some(options) => {
            copy_member(options, "temperature", params);
            copy_member(options, "top_p", params);
            copy_member(options, "top_k", params);
            copy_member(options, "seed", params);
            copy_member(options, "stop", params);
            copy_member(options, "truncate", params);
            copy_member(options, "dimensions", params);
            copy_member(options, "logit_bias", params);
            copy_member(options, "system", params);
        },
        None => {},
    }
}

/// The member of `options` under `key` that is there and not `null`.
fn non_null_member<'a>(options: &'a Json, key: &str) -> (r: Option<&'a Json>)
    ensures
        crate::json::opt_ref_view(r) == non_null(options@.get(key@)),
{
    match options.get(key) {
        Some(v) => if v.is_null() {
            None
        } else {
            Some(v)
        },
        None => None,
    }
}

fn map_token_limits(ollama_options: Option<&Json>, params: &mut Json)
    requires
        old(params)@ is Object,
    ensures
        final(params)@ == JsonV::Object(
            with_some(
                old(params)@->Object_0,
                "max_tokens"@,
                token_limit(
                    match ollama_options {
                        Some(o) => Some(o@),
                        None => None,
                    },
                ),
            ),
        ),
{
    match ollama_options {
        Some(options) => {
            match non_null_member(options, "max_tokens") {
                Some(limit) => {
                    params.insert("max_tokens", limit.clone());
                },
                None => match non_null_member(options, "num_predict") {
                    Some(limit) => {
                        params.insert("max_tokens", limit.clone());
                    },
                    None => {},
                },
            }
        },
        None => {},
    }
}

fn map_penalties(ollama_options: Option<&Json>, params: &mut Json)
    requires
        old(params)@ is Object,
    ensures
        final(params)@ == JsonV::Object(
            with_penalties(
                old(params)@->Object_0,
                match ollama_options {
                    Some(o) => Some(o@),
                    None => None,
                },
            ),
        ),
{
    match ollama_options {
        Some(options) => match options.get("repeat_penalty") {
            Some(penalty) => {
                let has_frequency = options.has("frequency_penalty");
                if !has_frequency && !options.has("presence_penalty") {
                    params.insert("repeat_penalty", penalty.clone());
                } else if !has_frequency {
                    params.insert("frequency_penalty", penalty.clone());
                }
            },
            None => {},
        },
        None => {},
    }
}

/// Whether `format` is the backend's format of `mode`.
fn is_mode_format(format: &Json, mode: &str) -> (r: bool)
    ensures
        r == (format@ == mode_format(mode@)),
{
    if !format.has_only("type") {
        proof {
            if format@ == mode_format(mode@) {
                assert forall|k: Seq<char>| #[trigger]
                    format@->Object_0.contains_key(k) implies k == "type"@ by {}
            }
        }
        return false;
    }
    match format.get("type") {
        Some(Json::Str(text)) => {
            let same = str_eq(text.as_str(), mode);
            proof {
                if same {
                    assert(format@->Object_0 =~= mode_format(mode@)->Object_0);
                } else {
                    assert(format@.get("type"@) != mode_format(mode@).get("type"@));
                }
            }
            same
        },
        Some(_) => {
            proof {
                assert(format@.get("type"@) != mode_format(mode@).get("type"@));
            }
            false
        },
        None => {
            proof {
                assert(format@.get("type"@) != mode_format(mode@).get("type"@));
            }
            false
        },
    }
}

/// Whether `format` is one of the backend's formats already.
fn is_backend_format_exec(format: &Json) -> (r: bool)
    ensures
        r == is_backend_format(format@),
{
    if is_mode_format(format, "json_object") || is_mode_format(format, "text") {
        return true;
    }
    let typed = match format.get("type") {
        Some(Json::Str(text)) => str_eq(text.as_str(), "json_schema"),
        _ => false,
    };
    typed && format.has("json_schema")
}

/// The backend's `response_format` for a client's `format`.
pub fn convert_structured_format(format_value: &Json) -> (r: Option<Json>)
    ensures
        crate::json::opt_view(r) == converted_format(format_value@),
{
    match format_value {
        Json::Str(mode) => {
            if eq_ignore_ascii_case_exec(mode.as_str(), "json") {
                let mut out = Json::object();
                out.insert("type", Json::string("json_object"));
                Some(out)
            } else if eq_ignore_ascii_case_exec(mode.as_str(), "text") {
                let mut out = Json::object();
                out.insert("type", Json::string("text"));
                Some(out)
            } else {
                None
            }
        },
        Json::Object(_) => {
            if is_backend_format_exec(format_value) {
                return Some(format_value.clone());
            }
            let mut schema = Json::object();
            schema.insert("name", Json::string("ollama_format"));
            schema.insert("strict", Json::Bool(true));
            schema.insert("schema", format_value.clone());
            let mut out = Json::object();
            out.insert("type", Json::string("json_schema"));
            out.insert("json_schema", schema);
            Some(out)
        },
        _ => None,
    }
}

fn map_format_params(
    ollama_options: Option<&Json>,
    structured_format: Option<&Json>,
    params: &mut Json,
)
    requires
        old(params)@ is Object,
    ensures
        final(params)@ == JsonV::Object(
            with_some(
                old(params)@->Object_0,
                "response_format"@,
                response_format(
                    match ollama_options {
                        Some(o) => Some(o@),
                        None => None,
                    },
                    match structured_format {
                        Some(f) => Some(f@),
                        None => None,
                    },
                ),
            ),
        ),
{
    let source: Option<&Json> = match structured_format {
        Some(f) => Some(f),
        None => match ollama_options {
            Some(options) => options.get("format"),
            None => None,
        },
    };
    match source {
        Some(format_value) => match convert_structured_format(format_value) {
            Some(converted) => {
                params.insert("response_format", converted);
            },
            None => {},
        },
        None => {},
    }
}

/// The backend parameters for a client's options and structured format, as
/// an object.
pub fn map_ollama_to_lmstudio_params(
    ollama_options: Option<&Json>,
    structured_format: Option<&Json>,
) -> (r: Json)
    ensures
        r@ == JsonV::Object(
            mapped_params(
                match ollama_options {
                    Some(o) => Some(o@),
                    None => None,
                },
                match structured_format {
                    Some(f) => Some(f@),
                    None => None,
                },
            ),
        ),
{
    let mut params = Json::object();
    map_direct_params(ollama_options, &mut params);
    map_token_limits(ollama_options, &mut params);
    map_penalties(ollama_options, &mut params);
    map_format_params(ollama_options, structured_format, &mut params);
    params
}

/// What only the family of a request puts into its body.
pub open spec fn family_members(
    base: JsonV,
    request_type: LMStudioRequestTypeV,
    tools: Option<JsonV>,
) -> JsonV {
    match request_type {
        LMStudioRequestTypeV::Chat { messages, stream } => {
            let with_messages = base.with("messages"@, messages).with(
                "stream"@,
                JsonV::Bool(stream),
            );
            match tools {
                Some(JsonV::Array(items)) => if items.len() > 0 {
                    with_messages.with("tools"@, JsonV::Array(items))
                } else {
                    with_messages
                },
                _ => with_messages,
            }
        },
        LMStudioRequestTypeV::Completion { prompt, stream } => base.with("prompt"@, jstr(prompt)).with(
            "stream"@,
            JsonV::Bool(stream),
        ),
        LMStudioRequestTypeV::Embeddings { input } => base.with("input"@, input),
    }
}

/// The backend request: the model id, what the family carries, and over
/// them the mapped parameters.
pub open spec fn backend_request(
    model: Seq<char>,
    request_type: LMStudioRequestTypeV,
    options: Option<JsonV>,
    tools: Option<JsonV>,
    structured_format: Option<JsonV>,
) -> JsonV {
    family_members(empty_object().with("model"@, jstr(model)), request_type, tools).overlaid(
        JsonV::Object(mapped_params(options, structured_format)),
    )
}

/// Builds the backend request.
pub fn build_lm_studio_request(
    model_lm_studio_id: &str,
    request_type: LMStudioRequestType,
    ollama_options: Option<&Json>,
    ollama_tools: Option<&Json>,
    structured_format: Option<&Json>,
) -> (r: Json)
    ensures
        r@ == backend_request(
            model_lm_studio_id@,
            request_type_view(request_type),
            match ollama_options {
                Some(o) => Some(o@),
                None => None,
            },
            match ollama_tools {
                Some(t) => Some(t@),
                None => None,
            },
            match structured_format {
                Some(f) => Some(f@),
                None => None,
            },
        ),
{
    let mut builder = RequestBuilder::new().add_required(
        "model",
        Json::string(model_lm_studio_id),
    );
    match request_type {
        LMStudioRequestType::Chat { messages, stream } => {
            builder = builder.add_required("messages", messages.clone()).add_required(
                "stream",
                Json::Bool(stream),
            );
            match ollama_tools {
                Some(tools_val) => match tools_val.as_array() {
                    Some(items) => {
                        if items.len() > 0 {
                            proof {
                                crate::json::lemma_items_view(items@);
                            }
                            builder = builder.add_required("tools", tools_val.clone());
                        } else {
                            proof {
                                crate::json::lemma_items_view(items@);
                            }
                        }
                    },
                    None => {},
                },
                None => {},
            }
        },
        LMStudioRequestType::Completion { prompt, stream } => {
            builder = builder.add_required("prompt", Json::string(prompt)).add_required(
                "stream",
                Json::Bool(stream),
            );
        },
        LMStudioRequestType::Embeddings { input } => {
            builder = builder.add_required("input", input.clone());
        },
    }
    let params = map_ollama_to_lmstudio_params(ollama_options, structured_format);
    let mut request_json = builder.build();
    request_json.merge_from(&params);
    request_json
}

/// Mapping the mapped parameters again, with the same structured format,
/// gives the mapped parameters: the mapping is idempotent. Left out are the
/// requests whose format stands among the options only and converts: their
/// parameters hold a `response_format` but no `format`, so the second
/// mapping finds no format to convert. Left out too are the options whose
/// repeat penalty goes on as the frequency penalty: their parameters hold
/// a frequency penalty and no repeat penalty, so the second mapping finds
/// none to pass on.
pub proof fn lemma_mapping_idempotent(options: Option<JsonV>, structured_format: Option<JsonV>)
    requires
        structured_format is Some || response_format(options, structured_format) is None,
        mirrored_penalty(options) is None,
    ensures
        mapped_params(
            Some(JsonV::Object(mapped_params(options, structured_format))),
            structured_format,
        ) == mapped_params(options, structured_format),
{
    let once = mapped_params(options, structured_format);
    let again = mapped_params(Some(JsonV::Object(once)), structured_format);
    let inner = Some(JsonV::Object(once));
    reveal_strlit("temperature");
    reveal_strlit("top_p");
    reveal_strlit("top_k");
    reveal_strlit("seed");
    reveal_strlit("stop");
    reveal_strlit("truncate");
    reveal_strlit("dimensions");
    reveal_strlit("logit_bias");
    reveal_strlit("system");
    reveal_strlit("max_tokens");
    reveal_strlit("num_predict");
    reveal_strlit("repeat_penalty");
    reveal_strlit("response_format");
    reveal_strlit("format");
    reveal_strlit("frequency_penalty");
    reveal_strlit("presence_penalty");
    assert("frequency_penalty"@.len() == 17 && "presence_penalty"@.len() == 16);
    assert("temperature"@.len() == 11 && "num_predict"@.len() == 11);
    assert("top_p"@.len() == 5 && "top_k"@.len() == 5);
    assert("seed"@.len() == 4 && "stop"@.len() == 4);
    assert("truncate"@.len() == 8);
    assert("dimensions"@.len() == 10 && "logit_bias"@.len() == 10 && "max_tokens"@.len() == 10);
    assert("system"@.len() == 6 && "format"@.len() == 6);
    assert("repeat_penalty"@.len() == 14 && "response_format"@.len() == 15);
    assert("temperature"@[0] == 't' && "num_predict"@[0] == 'n');
    assert("top_p"@[4] == 'p' && "top_k"@[4] == 'k');
    assert("seed"@[1] == 'e' && "stop"@[1] == 't');
    assert("dimensions"@[0] == 'd' && "logit_bias"@[0] == 'l' && "max_tokens"@[0] == 'm');
    assert("system"@[0] == 's' && "format"@[0] == 'f');
    assert(option_member(inner, "temperature"@) == option_member(options, "temperature"@));
    assert(option_member(inner, "top_p"@) == option_member(options, "top_p"@));
    assert(option_member(inner, "top_k"@) == option_member(options, "top_k"@));
    assert(option_member(inner, "seed"@) == option_member(options, "seed"@));
    assert(option_member(inner, "stop"@) == option_member(options, "stop"@));
    assert(option_member(inner, "truncate"@) == option_member(options, "truncate"@));
    assert(option_member(inner, "dimensions"@) == option_member(options, "dimensions"@));
    assert(option_member(inner, "logit_bias"@) == option_member(options, "logit_bias"@));
    assert(option_member(inner, "system"@) == option_member(options, "system"@));
    assert(option_member(inner, "frequency_penalty"@) is None);
    assert(option_member(inner, "presence_penalty"@) is None);
    assert(option_member(inner, "repeat_penalty"@) == kept_repeat_penalty(options));
    assert(kept_repeat_penalty(inner) == kept_repeat_penalty(options));
    assert(mirrored_penalty(inner) is None);
    assert(option_member(inner, "max_tokens"@) == token_limit(options));
    assert(option_member(inner, "num_predict"@) is None);
    assert(option_member(inner, "format"@) is None);
    assert(token_limit(inner) == token_limit(options));
    assert(response_format(inner, structured_format) == response_format(
        options,
        structured_format,
    ));
    assert(again =~= once);
}

/// A format that was converted converts to itself: the conversion wraps a
/// schema at most once, and leaves what it gave as it is.
pub proof fn lemma_convert_twice(format: JsonV)
    ensures
        converted_format(format) matches Some(once) ==> converted_format(once) == Some(once),
{
    reveal_strlit("type");
    reveal_strlit("json_schema");
    assert("type"@.len() == 4 && "json_schema"@.len() == 11);
    if format is Object && !is_backend_format(format) {
        let once = schema_format(format);
        assert(once.get("type"@) == Some(jstr("json_schema"@)));
        assert(once.get("json_schema"@) is Some);
    }
}

} // verus!
