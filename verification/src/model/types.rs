//! What the backend says of a model, and what the proxy shows of it.

use crate::constants::{
    DEFAULT_REPEAT_PENALTY, DEFAULT_TEMPERATURE, DEFAULT_TOP_K, DEFAULT_TOP_P,
};
use crate::json::{
    empty_object, jint, jstr, jstrings, singleton_array, string_array, strings_view, Json, JsonV,
};
use crate::text::{
    chars_of, concat, contains, contains_str, lowercase, push_str, str_eq, string_of,
    to_lowercase,
};
use vstd::prelude::*;

verus! {

/// The parameter count of a model, as a label.
#[derive(Debug)]
pub struct ModelParameters {
    pub size_string: String,
}

/// A model as the backend's list describes it.
#[derive(Debug)]
pub struct NativeModelData {
    pub key: String,
    pub model_type: String,
    pub publisher: String,
    pub architecture: Option<String>,
    pub format: Option<String>,
    pub quantization: Option<NativeQuantization>,
    pub max_context_length: u64,
    pub loaded_instances: Vec<NativeLoadedInstance>,
    pub capabilities: Option<NativeCapabilities>,
}

/// What the backend says a model can do.
#[derive(Debug, Clone, Copy)]
pub struct NativeCapabilities {
    pub vision: Option<bool>,
    pub trained_for_tool_use: Option<bool>,
}

/// The quantization of a model, as the backend names it.
#[derive(Debug)]
pub struct NativeQuantization {
    pub name: Option<String>,
}

/// A loaded instance of a model.
#[derive(Debug)]
pub struct NativeLoadedInstance {
    pub id: String,
}

/// The backend's list of models.
#[derive(Debug)]
pub struct NativeModelsResponse {
    pub models: Vec<NativeModelData>,
}

/// A backend model as the proxy knows it.
#[derive(Debug)]
pub struct ModelInfo {
    pub id: String,
    pub ollama_name: String,
    pub model_type: String,
    pub publisher: String,
    pub arch: String,
    pub compatibility_type: String,
    pub quantization: String,
    pub state: String,
    pub max_context_length: u64,
    pub is_loaded: bool,
    pub supports_vision: bool,
    pub supports_tools: bool,
}

/// What a contract says of a `ModelInfo`.
pub struct ModelInfoV {
    pub id: Seq<char>,
    pub ollama_name: Seq<char>,
    pub model_type: Seq<char>,
    pub publisher: Seq<char>,
    pub arch: Seq<char>,
    pub compatibility_type: Seq<char>,
    pub quantization: Seq<char>,
    pub state: Seq<char>,
    pub max_context_length: u64,
    pub is_loaded: bool,
    pub supports_vision: bool,
    pub supports_tools: bool,
}

impl View for ModelInfo {
    type V = ModelInfoV;

    open spec fn view(&self) -> ModelInfoV {
        ModelInfoV {
            id: self.id@,
            ollama_name: self.ollama_name@,
            model_type: self.model_type@,
            publisher: self.publisher@,
            arch: self.arch@,
            compatibility_type: self.compatibility_type@,
            quantization: self.quantization@,
            state: self.state@,
            max_context_length: self.max_context_length,
            is_loaded: self.is_loaded,
            supports_vision: self.supports_vision,
            supports_tools: self.supports_tools,
        }
    }
}

/// The text of an optional string, or `unknown`.
pub open spec fn text_or_unknown(text: Option<String>) -> Seq<char> {
    match text {
        Some(t) => t@,
        None => "unknown"@,
    }
}

/// The model that a backend description stands for.
pub open spec fn model_of(data: NativeModelData) -> ModelInfoV {
    let loaded = data.loaded_instances@.len() > 0;
    ModelInfoV {
        id: data.key@,
        ollama_name: if contains(data.key@, ":"@) {
            data.key@
        } else {
            data.key@ + ":latest"@
        },
        model_type: data.model_type@,
        publisher: data.publisher@,
        arch: text_or_unknown(data.architecture),
        compatibility_type: text_or_unknown(data.format),
        quantization: match data.quantization {
            Some(q) => text_or_unknown(q.name),
            None => "unknown"@,
        },
        state: if loaded {
            "loaded"@
        } else {
            "not-loaded"@
        },
        max_context_length: data.max_context_length,
        is_loaded: loaded,
        supports_vision: match data.capabilities {
            Some(c) => c.vision == Some(true),
            None => false,
        },
        supports_tools: match data.capabilities {
            Some(c) => c.trained_for_tool_use == Some(true),
            None => false,
        },
    }
}

/// What a model can do, as the names that a model description lists.
pub open spec fn capabilities_of(m: ModelInfoV) -> Seq<Seq<char>> {
    let vision = if m.supports_vision {
        seq!["vision"@]
    } else {
        Seq::empty()
    };
    let tools = if m.supports_tools {
        seq!["tools"@]
    } else {
        Seq::empty()
    };
    if m.model_type == "llm"@ {
        let chat = if contains(m.arch, "instruct"@) || contains(m.id, "instruct"@) || contains(
            m.id,
            "chat"@,
        ) {
            seq!["chat"@]
        } else {
            Seq::empty()
        };
        seq!["completion"@] + chat + vision + tools
    } else if m.model_type == "vlm"@ {
        seq!["completion"@, "chat"@, "vision"@] + tools
    } else if m.model_type == "embeddings"@ || m.model_type == "embedding"@ {
        seq!["embedding"@]
    } else {
        seq!["completion"@] + vision + tools
    }
}

/// The parameter count that a lowercase model id names, in units of a
/// hundred million, or none.
pub open spec fn named_size(lower_id: Seq<char>) -> Option<(u64, Seq<char>)> {
    if contains(lower_id, "0.5b"@) || contains(lower_id, "500m"@) {
        Some((5u64, "0.5B"@))
    } else if contains(lower_id, "1b"@) && !contains(lower_id, "11b"@) {
        Some((10u64, "1B"@))
    } else if contains(lower_id, "2b"@) && !contains(lower_id, "22b"@) {
        Some((20u64, "2B"@))
    } else if contains(lower_id, "3b"@) && !contains(lower_id, "13b"@) {
        Some((30u64, "3B"@))
    } else if contains(lower_id, "7b"@) {
        Some((70u64, "7B"@))
    } else if contains(lower_id, "8b"@) {
        Some((80u64, "8B"@))
    } else if contains(lower_id, "13b"@) {
        Some((130u64, "13B"@))
    } else if contains(lower_id, "70b"@) {
        Some((700u64, "70B"@))
    } else {
        None
    }
}

/// The bytes that one parameter takes under a quantization, in hundredths.
pub open spec fn bytes_per_parameter_percent(lower_quantization: Seq<char>) -> u64 {
    let q = lower_quantization;
    if contains(q, "2bit"@) || contains(q, "q2"@) {
        35
    } else if contains(q, "3bit"@) || contains(q, "q3"@) {
        45
    } else if contains(q, "4bit"@) || contains(q, "q4"@) {
        55
    } else if contains(q, "5bit"@) || contains(q, "q5"@) {
        65
    } else if contains(q, "6bit"@) || contains(q, "q6"@) {
        75
    } else if contains(q, "8bit"@) || contains(q, "q8"@) {
        100
    } else if contains(q, "f16"@) || contains(q, "fp16"@) {
        200
    } else if contains(q, "f32"@) || contains(q, "fp32"@) {
        400
    } else {
        55
    }
}

/// The estimated size of a model in bytes: its parameter count, four
/// thousand million where the id names none, times the bytes that a
/// parameter takes.
pub open spec fn estimated_size(lower_id: Seq<char>, lower_quantization: Seq<char>) -> int {
    let units: int = match named_size(lower_id) {
        Some((u, _)) => u as int,
        None => 40,
    };
    units * 1_000_000 * bytes_per_parameter_percent(lower_quantization)
}

/// The parameter count of a model as a label.
pub open spec fn size_label(lower_id: Seq<char>) -> Seq<char> {
    match named_size(lower_id) {
        Some((_, label)) => label,
        None => "unknown"@,
    }
}

/// The `details` member of a model's listing.
pub open spec fn details_of(m: ModelInfoV, label: Seq<char>) -> JsonV {
    empty_object().with("parent_model"@, jstr(""@)).with("format"@, jstr(m.compatibility_type)).with(
        "family"@,
        jstr(m.arch),
    ).with("families"@, JsonV::Array(seq![jstr(m.arch)])).with("parameter_size"@, jstr(label)).with(
        "quantization_level"@,
        jstr(m.quantization),
    )
}

/// A model's listing without its time stamp.
pub open spec fn base_listing(m: ModelInfoV, size: int, digest: Seq<char>, label: Seq<char>)
    -> JsonV {
    empty_object().with("name"@, jstr(m.ollama_name)).with("model"@, jstr(m.ollama_name)).with(
        "size"@,
        jint(size),
    ).with("digest"@, jstr(digest)).with("details"@, details_of(m, label))
}

/// The MD5 digest of a text's UTF-8 bytes, in lowercase hexadecimal.
pub uninterp spec fn md5_hex(text: Seq<char>) -> Seq<char>;

/// `md5::compute` and the digest's `LowerHex` form: the result is the MD5
/// digest of the bytes of `text`, written in lowercase hexadecimal; the
/// contract gives it a name.
#[verifier::external_body]
pub(crate) fn md5_hex_exec(text: &str) -> (r: String)
    ensures
        r@ == md5_hex(text@),
{
    format!("{:x}", md5::compute(text.as_bytes()))
}

/// The first `modelfile` line and what follows, for a model name.
pub open spec fn modelfile_text(name: Seq<char>) -> Seq<char> {
    "# Modelfile for "@ + name + "\nFROM "@ + name
        + " # (Real data from LM Studio)\n\nPARAMETER temperature "@ + DEFAULT_TEMPERATURE@
        + "\nPARAMETER top_p "@ + DEFAULT_TOP_P@ + "\nPARAMETER top_k "@ + DEFAULT_TOP_K@
        + "\n\nTEMPLATE \"\"\"{ if .System }{ .System } { end }{ .Prompt }\"\"\""@
}

/// The `parameters` text of a model description.
pub open spec fn parameters_text() -> Seq<char> {
    "temperature "@ + DEFAULT_TEMPERATURE@ + "\ntop_p "@ + DEFAULT_TOP_P@ + "\ntop_k "@
        + DEFAULT_TOP_K@ + "\nrepeat_penalty "@ + DEFAULT_REPEAT_PENALTY@
}

/// The `model_info` member of a model description.
pub open spec fn model_info_member(m: ModelInfoV) -> JsonV {
    empty_object().with("general.architecture"@, jstr(m.arch)).with(
        "general.file_type"@,
        jint(2),
    ).with("general.quantization_version"@, jint(2)).with(
        "lmstudio.publisher"@,
        jstr(m.publisher),
    ).with("lmstudio.model_type"@, jstr(m.model_type)).with("lmstudio.state"@, jstr(m.state)).with(
        "lmstudio.max_context_length"@,
        jint(m.max_context_length as int),
    ).with("lmstudio.compatibility_type"@, jstr(m.compatibility_type)).with(
        "lmstudio.supports_vision"@,
        JsonV::Bool(m.supports_vision),
    ).with("lmstudio.supports_tools"@, JsonV::Bool(m.supports_tools))
}

/// The description of a model that `show` returns.
pub open spec fn show_response(m: ModelInfoV, modified_at: Seq<char>) -> JsonV {
    let size = estimated_size(lowercase(m.id), lowercase(m.quantization));
    empty_object().with("modelfile"@, jstr(modelfile_text(m.ollama_name))).with(
        "parameters"@,
        jstr(parameters_text()),
    ).with("template"@, jstr("{{ if .System }}{{ .System }}\n{{ end }}{{ .Prompt }}"@)).with(
        "details"@,
        details_of(m, size_label(lowercase(m.id))),
    ).with("model_info"@, model_info_member(m)).with(
        "capabilities"@,
        jstrings(capabilities_of(m)),
    ).with("digest"@, jstr(md5_hex(m.ollama_name))).with("size"@, jint(size)).with(
        "modified_at"@,
        jstr(modified_at),
    )
}

/// The listing of a model under `tags`.
pub open spec fn tags_listing(m: ModelInfoV, modified_at: Seq<char>) -> JsonV {
    base_listing(
        m,
        estimated_size(lowercase(m.id), lowercase(m.quantization)),
        md5_hex(m.ollama_name),
        size_label(lowercase(m.id)),
    ).with("modified_at"@, jstr(modified_at))
}

/// The listing of a model under `ps`.
pub open spec fn ps_listing(m: ModelInfoV, expires_at: Seq<char>) -> JsonV {
    let size = estimated_size(lowercase(m.id), lowercase(m.quantization));
    base_listing(m, size, md5_hex(m.ollama_name), size_label(lowercase(m.id))).with(
        "expires_at"@,
        jstr(expires_at),
    ).with("size_vram"@, jint(size))
}

/// The text of an optional string, or `unknown`.
fn text_or_unknown_exec(text: &Option<String>) -> (r: String)
    ensures
        r@ == text_or_unknown(*text),
{
    match text {
        Some(t) => t.clone(),
        None => "unknown".to_owned(),
    }
}

/// The size that a lowercase id names, where it names one: in units of a
/// hundred million parameters, and as a label.
pub fn named_size_exec(lower_id: &str) -> (r: Option<(u64, &'static str)>)
    ensures
        match r {
            Some((units, label)) => named_size(lower_id@) == Some((units, label@)),
            None => named_size(lower_id@) is None,
        },
{
    let id = chars_of(lower_id);
    if contains_str(&id, "0.5b") || contains_str(&id, "500m") {
        Some((5, "0.5B"))
    } else if contains_str(&id, "1b") && !contains_str(&id, "11b") {
        Some((10, "1B"))
    } else if contains_str(&id, "2b") && !contains_str(&id, "22b") {
        Some((20, "2B"))
    } else if contains_str(&id, "3b") && !contains_str(&id, "13b") {
        Some((30, "3B"))
    } else if contains_str(&id, "7b") {
        Some((70, "7B"))
    } else if contains_str(&id, "8b") {
        Some((80, "8B"))
    } else if contains_str(&id, "13b") {
        Some((130, "13B"))
    } else if contains_str(&id, "70b") {
        Some((700, "70B"))
    } else {
        None
    }
}

/// The bytes that one parameter takes under a quantization in lowercase,
/// in hundredths.
pub fn bytes_per_parameter_percent_exec(lower_quantization: &str) -> (r: u64)
    ensures
        r == bytes_per_parameter_percent(lower_quantization@),
        r <= 400,
{
    let q = chars_of(lower_quantization);
    if contains_str(&q, "2bit") || contains_str(&q, "q2") {
        35
    } else if contains_str(&q, "3bit") || contains_str(&q, "q3") {
        45
    } else if contains_str(&q, "4bit") || contains_str(&q, "q4") {
        55
    } else if contains_str(&q, "5bit") || contains_str(&q, "q5") {
        65
    } else if contains_str(&q, "6bit") || contains_str(&q, "q6") {
        75
    } else if contains_str(&q, "8bit") || contains_str(&q, "q8") {
        100
    } else if contains_str(&q, "f16") || contains_str(&q, "fp16") {
        200
    } else if contains_str(&q, "f32") || contains_str(&q, "fp32") {
        400
    } else {
        55
    }
}

impl Clone for ModelInfo {
    fn clone(&self) -> (r: ModelInfo)
        ensures
            r@ == self@,
    {
        ModelInfo {
            id: self.id.clone(),
            ollama_name: self.ollama_name.clone(),
            model_type: self.model_type.clone(),
            publisher: self.publisher.clone(),
            arch: self.arch.clone(),
            compatibility_type: self.compatibility_type.clone(),
            quantization: self.quantization.clone(),
            state: self.state.clone(),
            max_context_length: self.max_context_length,
            is_loaded: self.is_loaded,
            supports_vision: self.supports_vision,
            supports_tools: self.supports_tools,
        }
    }
}

impl ModelInfo {
    /// The model that a backend description stands for.
    pub fn from_native_data(native_data: &NativeModelData) -> (r: ModelInfo)
        ensures
            r@ == model_of(*native_data),
    {
        let is_loaded = native_data.loaded_instances.len() > 0;
        let state = if is_loaded {
            "loaded"
        } else {
            "not-loaded"
        };
        let key = chars_of(native_data.key.as_str());
        let ollama_name = if contains_str(&key, ":") {
            native_data.key.clone()
        } else {
            concat(native_data.key.as_str(), ":latest")
        };
        let quantization = match &native_data.quantization {
            Some(q) => text_or_unknown_exec(&q.name),
            None => "unknown".to_owned(),
        };
        let supports_vision = match native_data.capabilities {
            Some(c) => match c.vision {
                Some(v) => v,
                None => false,
            },
            None => false,
        };
        let supports_tools = match native_data.capabilities {
            Some(c) => match c.trained_for_tool_use {
                Some(v) => v,
                None => false,
            },
            None => false,
        };
        ModelInfo {
            id: native_data.key.clone(),
            ollama_name,
            model_type: native_data.model_type.clone(),
            publisher: native_data.publisher.clone(),
            arch: text_or_unknown_exec(&native_data.architecture),
            compatibility_type: text_or_unknown_exec(&native_data.format),
            quantization,
            state: state.to_owned(),
            max_context_length: native_data.max_context_length,
            is_loaded,
            supports_vision,
            supports_tools,
        }
    }

    /// This model under another name.
    pub fn with_alias_name(&self, alias_name: &str) -> (r: ModelInfo)
        ensures
            r@ == (ModelInfoV { ollama_name: alias_name@, ..self@ }),
    {
        let mut cloned = self.clone();
        cloned.ollama_name = alias_name.to_owned();
        cloned
    }

    /// What this model can do.
    pub fn determine_capabilities(&self) -> (r: Vec<String>)
        ensures
            strings_view(r@) == capabilities_of(self@),
    {
        let mut caps: Vec<String> = Vec::new();
        let kind = self.model_type.as_str();
        if str_eq(kind, "llm") {
            caps.push("completion".to_owned());
            let arch = chars_of(self.arch.as_str());
            let id = chars_of(self.id.as_str());
            if contains_str(&arch, "instruct") || contains_str(&id, "instruct") || contains_str(
                &id,
                "chat",
            ) {
                caps.push("chat".to_owned());
            }
            if self.supports_vision {
                caps.push("vision".to_owned());
            }
            if self.supports_tools {
                caps.push("tools".to_owned());
            }
        } else if str_eq(kind, "vlm") {
            caps.push("completion".to_owned());
            caps.push("chat".to_owned());
            caps.push("vision".to_owned());
            if self.supports_tools {
                caps.push("tools".to_owned());
            }
        } else if str_eq(kind, "embeddings") || str_eq(kind, "embedding") {
            caps.push("embedding".to_owned());
        } else {
            caps.push("completion".to_owned());
            if self.supports_vision {
                caps.push("vision".to_owned());
            }
            if self.supports_tools {
                caps.push("tools".to_owned());
            }
        }
        assert(strings_view(caps@) =~= capabilities_of(self@));
        caps
    }

    /// The estimated size of this model in bytes.
    pub fn calculate_estimated_size(&self) -> (r: u64)
        ensures
            r == estimated_size(lowercase(self.id@), lowercase(self.quantization@)),
    {
        let lower_id = to_lowercase(self.id.as_str());
        let lower_quantization = to_lowercase(self.quantization.as_str());
        let units: u64 = match named_size_exec(lower_id.as_str()) {
            Some((u, _)) => u,
            None => 40,
        };
        let percent = bytes_per_parameter_percent_exec(lower_quantization.as_str());
        units * 1_000_000 * percent
    }

    /// The parameter count that the id of this model names, as a label.
    pub fn extract_parameter_size_string(&self) -> (r: String)
        ensures
            r@ == size_label(lowercase(self.id@)),
    {
        let lower_id = to_lowercase(self.id.as_str());
        let label = match named_size_exec(lower_id.as_str()) {
            Some((_, label)) => label,
            None => "unknown",
        };
        label.to_owned()
    }

    /// The parameter count of this model as a label.
    pub fn parse_parameters(&self) -> (r: ModelParameters)
        ensures
            r.size_string@ == size_label(lowercase(self.id@)),
    {
        ModelParameters { size_string: self.extract_parameter_size_string() }
    }

    /// The `details` member of this model's listing.
    fn details(&self) -> (r: Json)
        ensures
            r@ == details_of(self@, size_label(lowercase(self.id@))),
    {
        let params = self.parse_parameters();
        self.details_with(params.size_string.as_str())
    }

    /// The `details` member of this model's listing, with a given label for
    /// its parameter count.
    pub fn details_with(&self, parameter_size: &str) -> (r: Json)
        ensures
            r@ == details_of(self@, parameter_size@),
    {
        let mut details = Json::object();
        details.insert("parent_model", Json::string(""));
        details.insert("format", Json::string(self.compatibility_type.as_str()));
        details.insert("family", Json::string(self.arch.as_str()));
        details.insert("families", singleton_array(Json::string(self.arch.as_str())));
        details.insert("parameter_size", Json::string(parameter_size));
        details.insert("quantization_level", Json::string(self.quantization.as_str()));
        details
    }

    /// This model's listing without its time stamp.
    fn base_ollama_representation(&self) -> (r: Json)
        ensures
            r@ == base_listing(
                self@,
                estimated_size(lowercase(self.id@), lowercase(self.quantization@)),
                md5_hex(self.ollama_name@),
                size_label(lowercase(self.id@)),
            ),
    {
        let estimated = self.calculate_estimated_size();
        let digest = md5_hex_exec(self.ollama_name.as_str());
        let params = self.parse_parameters();
        self.listing_with(estimated, digest.as_str(), params.size_string.as_str())
    }

    /// This model's listing without its time stamp, with a given size, a
    /// given digest of its name and a given label for its parameter count.
    pub fn listing_with(&self, size: u64, digest: &str, parameter_size: &str) -> (r: Json)
        ensures
            r@ == base_listing(self@, size as int, digest@, parameter_size@),
    {
        let mut base = Json::object();
        base.insert("name", Json::string(self.ollama_name.as_str()));
        base.insert("model", Json::string(self.ollama_name.as_str()));
        base.insert("size", Json::unsigned(size));
        base.insert("digest", Json::string(digest));
        base.insert("details", self.details_with(parameter_size));
        base
    }

    /// This model's listing under `tags`, stamped `modified_at`.
    pub fn to_ollama_tags_model(&self, modified_at: &str) -> (r: Json)
        ensures
            r@ == tags_listing(self@, modified_at@),
    {
        let mut base = self.base_ollama_representation();
        base.insert("modified_at", Json::string(modified_at));
        base
    }

    /// This model's listing under `ps`, said to expire at `expires_at`.
    pub fn to_ollama_ps_model(&self, expires_at: &str) -> (r: Json)
        ensures
            r@ == ps_listing(self@, expires_at@),
    {
        let size = self.calculate_estimated_size();
        let mut base = self.base_ollama_representation();
        base.insert("expires_at", Json::string(expires_at));
        base.insert("size_vram", Json::unsigned(size));
        base
    }

    /// The description of this model that `show` returns, stamped
    /// `modified_at`.
    pub fn to_show_response(&self, modified_at: &str) -> (r: Json)
        ensures
            r@ == show_response(self@, modified_at@),
    {
        let capabilities = self.determine_capabilities();
        let name = self.ollama_name.as_str();
        let mut modelfile = chars_of("# Modelfile for ");
        push_str(&mut modelfile, name);
        push_str(&mut modelfile, "\nFROM ");
        push_str(&mut modelfile, name);
        push_str(&mut modelfile, " # (Real data from LM Studio)\n\nPARAMETER temperature ");
        push_str(&mut modelfile, DEFAULT_TEMPERATURE);
        push_str(&mut modelfile, "\nPARAMETER top_p ");
        push_str(&mut modelfile, DEFAULT_TOP_P);
        push_str(&mut modelfile, "\nPARAMETER top_k ");
        push_str(&mut modelfile, DEFAULT_TOP_K);
        push_str(
            &mut modelfile,
            "\n\nTEMPLATE \"\"\"{ if .System }{ .System } { end }{ .Prompt }\"\"\"",
        );
        let mut parameters = chars_of("temperature ");
        push_str(&mut parameters, DEFAULT_TEMPERATURE);
        push_str(&mut parameters, "\ntop_p ");
        push_str(&mut parameters, DEFAULT_TOP_P);
        push_str(&mut parameters, "\ntop_k ");
        push_str(&mut parameters, DEFAULT_TOP_K);
        push_str(&mut parameters, "\nrepeat_penalty ");
        push_str(&mut parameters, DEFAULT_REPEAT_PENALTY);

        let mut info = Json::object();
        info.insert("general.architecture", Json::string(self.arch.as_str()));
        info.insert("general.file_type", Json::unsigned(2));
        info.insert("general.quantization_version", Json::unsigned(2));
        info.insert("lmstudio.publisher", Json::string(self.publisher.as_str()));
        info.insert("lmstudio.model_type", Json::string(self.model_type.as_str()));
        info.insert("lmstudio.state", Json::string(self.state.as_str()));
        info.insert("lmstudio.max_context_length", Json::unsigned(self.max_context_length));
        info.insert(
            "lmstudio.compatibility_type",
            Json::string(self.compatibility_type.as_str()),
        );
        info.insert("lmstudio.supports_vision", Json::Bool(self.supports_vision));
        info.insert("lmstudio.supports_tools", Json::Bool(self.supports_tools));

        let digest = md5_hex_exec(name);
        let size = self.calculate_estimated_size();
        let mut response = Json::object();
        response.insert("modelfile", Json::string(string_of(&modelfile).as_str()));
        response.insert("parameters", Json::string(string_of(&parameters).as_str()));
        response.insert(
            "template",
            Json::string("{{ if .System }}{{ .System }}\n{{ end }}{{ .Prompt }}"),
        );
        response.insert("details", self.details());
        response.insert("model_info", info);
        response.insert("capabilities", string_array(&capabilities));
        response.insert("digest", Json::string(digest.as_str()));
        response.insert("size", Json::unsigned(size));
        response.insert("modified_at", Json::string(modified_at));
        response
    }
}

} // verus!
