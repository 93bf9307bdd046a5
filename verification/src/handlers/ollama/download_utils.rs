//! What a pull asks the backend to download.

use crate::json::JsonV;
use crate::model::types::{ModelInfo, ModelInfoV};
use crate::model::utils::{canonical_name, clean_model_name};
use crate::storage::virtual_models::{VirtualModelEntry, VirtualModelEntryV};
use crate::text::{
    ascii_lower, ascii_lower_exec, chars_eq_str, chars_of, chars_range, contains, contains_str,
    push_chars, push_str, rskip_class_exec, skip_class_exec, starts_with, starts_with_str,
    string_of, trim, trim_end_class, trim_start_class, trim_str, CharClass,
};
use vstd::prelude::*;

verus! {

/// Whether an identifier names a place on the net: it begins, case aside,
/// with one of the schemes `http`, `https`, `hf`, `s3`, `gs`.
pub open spec fn is_remote_identifier(identifier: Seq<char>) -> bool {
    let lowered = ascii_lower(identifier);
    starts_with(lowered, "http://"@) || starts_with(lowered, "https://"@) || starts_with(
        lowered,
        "hf://"@,
    ) || starts_with(lowered, "s3://"@) || starts_with(lowered, "gs://"@)
}

/// Whether an identifier names a place on the net.
pub fn looks_like_remote_identifier(identifier: &str) -> (r: bool)
    ensures
        r == is_remote_identifier(identifier@),
{
    let lowered = ascii_lower_exec(identifier);
    starts_with_str(&lowered, "http://") || starts_with_str(&lowered, "https://")
        || starts_with_str(&lowered, "hf://") || starts_with_str(&lowered, "s3://")
        || starts_with_str(&lowered, "gs://")
}

/// The download source that an alias names among its parameters.
pub open spec fn virtual_download_source(entry: VirtualModelEntryV) -> Option<Seq<char>> {
    match entry.metadata.parameters {
        Some(params) => match params.get("download_source"@) {
            Some(JsonV::Str(source)) => Some(source),
            _ => None,
        },
        None => None,
    }
}

/// The download source that an alias names among its parameters.
pub fn extract_virtual_download_source(entry: &VirtualModelEntry) -> (r: Option<String>)
    ensures
        match r {
            Some(source) => virtual_download_source(entry@) == Some(source@),
            None => virtual_download_source(entry@) is None,
        },
{
    match &entry.metadata.parameters {
        Some(params) => match params.get_str("download_source") {
            Some(source) => Some(source.to_owned()),
            None => None,
        },
        None => None,
    }
}

/// Whether the models of a publisher are to be fetched from Hugging Face.
pub open spec fn prefers_hf_link(publisher: Seq<char>) -> bool {
    ascii_lower(publisher) == "lmstudio-community"@ || ascii_lower(publisher) == "huggingface"@
}

/// Whether the models of a publisher are to be fetched from Hugging Face.
pub fn publisher_prefers_hf_link(publisher: &str) -> (r: bool)
    ensures
        r == prefers_hf_link(publisher@),
{
    let lowered = ascii_lower_exec(publisher);
    chars_eq_str(&lowered, "lmstudio-community") || chars_eq_str(&lowered, "huggingface")
}

/// A publisher without the whitespace around it and without slashes at its
/// end.
pub open spec fn publisher_part(publisher: Seq<char>) -> Seq<char> {
    trim_end_class(trim(publisher), CharClass::Only('/'))
}

/// A model id without slashes at its start.
pub open spec fn model_part(model_id: Seq<char>) -> Seq<char> {
    trim_start_class(model_id, CharClass::Only('/'))
}

/// The Hugging Face address of a publisher's model.
pub open spec fn hf_download_url(publisher: Seq<char>, model_id: Seq<char>) -> Seq<char> {
    "https://huggingface.co/"@ + publisher_part(publisher) + "/"@ + model_part(model_id)
}

/// The catalogue name of a publisher's model, where there is a publisher.
pub open spec fn catalog_identifier(publisher: Seq<char>, model_id: Seq<char>) -> Option<
    Seq<char>,
> {
    if trim(publisher).len() == 0 {
        None
    } else {
        Some(publisher_part(publisher) + "/"@ + model_part(model_id))
    }
}

/// A publisher without the whitespace around it and without slashes at its
/// end.
fn publisher_part_exec(publisher: &str) -> (r: Vec<char>)
    ensures
        r@ == publisher_part(publisher@),
{
    let trimmed = trim_str(publisher);
    let end = rskip_class_exec(&trimmed, CharClass::Only('/'), trimmed.len());
    chars_range(&trimmed, 0, end)
}

/// A model id without slashes at its start.
fn model_part_exec(model_id: &str) -> (r: Vec<char>)
    ensures
        r@ == model_part(model_id@),
{
    let chars = chars_of(model_id);
    let start = skip_class_exec(&chars, CharClass::Only('/'), 0);
    chars_range(&chars, start, chars.len())
}

/// The Hugging Face address of a publisher's model.
pub fn build_hf_download_url(publisher: &str, model_id: &str) -> (r: String)
    ensures
        r@ == hf_download_url(publisher@, model_id@),
{
    let mut out = chars_of("https://huggingface.co/");
    push_chars(&mut out, &publisher_part_exec(publisher));
    push_str(&mut out, "/");
    push_chars(&mut out, &model_part_exec(model_id));
    string_of(&out)
}

/// The catalogue name of a publisher's model, where there is a publisher.
pub fn build_catalog_identifier(publisher: &str, model_id: &str) -> (r: Option<String>)
    ensures
        match r {
            Some(name) => catalog_identifier(publisher@, model_id@) == Some(name@),
            None => catalog_identifier(publisher@, model_id@) is None,
        },
{
    let trimmed = trim_str(publisher);
    if trimmed.len() == 0 {
        return None;
    }
    let mut out = publisher_part_exec(publisher);
    push_str(&mut out, "/");
    push_chars(&mut out, &model_part_exec(model_id));
    Some(string_of(&out))
}

/// Where the choice of a download identifier stands after the first look.
#[derive(Debug)]
pub enum DownloadIdentifier {
    /// This is the identifier.
    Ready(String),
    /// The backend's description of the resolved model is needed; it goes
    /// to `download_identifier_from_info`.
    NeedsModelInfo { resolved_model_id: String },
}

/// What a contract says of a `DownloadIdentifier`.
pub enum DownloadIdentifierV {
    Ready(Seq<char>),
    NeedsModelInfo { resolved_model_id: Seq<char> },
}

impl View for DownloadIdentifier {
    type V = DownloadIdentifierV;

    open spec fn view(&self) -> DownloadIdentifierV {
        match self {
            DownloadIdentifier::Ready(id) => DownloadIdentifierV::Ready(id@),
            DownloadIdentifier::NeedsModelInfo { resolved_model_id } => {
                DownloadIdentifierV::NeedsModelInfo { resolved_model_id: resolved_model_id@ }
            },
        }
    }
}

/// Whether a pull has to resolve its model first: it names no source and
/// its model is no place on the net.
pub open spec fn pull_needs_resolution(requested: Seq<char>, source: Option<Seq<char>>) -> bool {
    source is None && !is_remote_identifier(requested)
}

/// The identifier to download, as far as it can be told without the
/// backend's description of the model: the source of the request; else the
/// requested name where it is a place on the net; else, for a resolved
/// model, the source that its alias names, or its id where that is a place
/// on the net or holds a slash and no space; for an unresolved model its
/// name.
pub open spec fn download_identifier(
    requested: Seq<char>,
    source: Option<Seq<char>>,
    resolved: Option<(Seq<char>, Option<VirtualModelEntryV>)>,
) -> DownloadIdentifierV {
    match source {
        Some(s) => DownloadIdentifierV::Ready(s),
        None => if is_remote_identifier(requested) {
            DownloadIdentifierV::Ready(requested)
        } else {
            match resolved {
                Some((id, entry)) => {
                    let alias_source = match entry {
                        Some(e) => virtual_download_source(e),
                        None => None,
                    };
                    match alias_source {
                        Some(s) => DownloadIdentifierV::Ready(s),
                        None => if is_remote_identifier(id) || (contains(id, "/"@) && !contains(
                            id,
                            " "@,
                        )) {
                            DownloadIdentifierV::Ready(id)
                        } else {
                            DownloadIdentifierV::NeedsModelInfo { resolved_model_id: id }
                        },
                    }
                },
                None => DownloadIdentifierV::Ready(requested),
            }
        },
    }
}

/// The identifier to download for a resolved model, given the backend's
/// description of it where it has one: the Hugging Face address for the
/// publishers that prefer it, else the catalogue name, else the resolved
/// id.
pub open spec fn identifier_from_info(resolved_model_id: Seq<char>, info: Option<ModelInfoV>)
    -> Seq<char> {
    match info {
        Some(m) => {
            let cleaned = canonical_name(m.id);
            if prefers_hf_link(m.publisher) {
                hf_download_url(m.publisher, cleaned)
            } else {
                match catalog_identifier(m.publisher, cleaned) {
                    Some(name) => name,
                    None => resolved_model_id,
                }
            }
        },
        None => resolved_model_id,
    }
}

/// The identifier to download, as far as it can be told without the
/// backend's description of the model.
pub fn determine_download_identifier(
    requested_model: &str,
    source_override: Option<&str>,
    resolved_model: Option<(String, Option<VirtualModelEntry>)>,
) -> (r: DownloadIdentifier)
    ensures
        r@ == download_identifier(
            requested_model@,
            match source_override {
                Some(s) => Some(s@),
                None => None,
            },
            match resolved_model {
                Some((id, entry)) => Some(
                    (
                        id@,
                        match entry {
                            Some(e) => Some(e@),
                            None => None,
                        },
                    ),
                ),
                None => None,
            },
        ),
{
    match source_override {
        Some(source) => {
            return DownloadIdentifier::Ready(source.to_owned());
        },
        None => {},
    }
    if looks_like_remote_identifier(requested_model) {
        return DownloadIdentifier::Ready(requested_model.to_owned());
    }
    match resolved_model {
        Some((resolved_model_id, virtual_entry)) => {
            let alias_source = match &virtual_entry {
                Some(entry) => extract_virtual_download_source(entry),
                None => None,
            };
            match alias_source {
                Some(source) => {
                    return DownloadIdentifier::Ready(source);
                },
                None => {},
            }
            if looks_like_remote_identifier(resolved_model_id.as_str()) {
                return DownloadIdentifier::Ready(resolved_model_id);
            }
            let id = chars_of(resolved_model_id.as_str());
            if contains_str(&id, "/") && !contains_str(&id, " ") {
                return DownloadIdentifier::Ready(resolved_model_id);
            }
            DownloadIdentifier::NeedsModelInfo { resolved_model_id }
        },
        None => DownloadIdentifier::Ready(requested_model.to_owned()),
    }
}

/// The identifier to download for a resolved model, given the backend's
/// description of it where it has one.
pub fn download_identifier_from_info(resolved_model_id: String, model_info: Option<&ModelInfo>) -> (r:
    String)
    ensures
        r@ == identifier_from_info(
            resolved_model_id@,
            match model_info {
                Some(m) => Some(m@),
                None => None,
            },
        ),
{
    match model_info {
        Some(info) => {
            let cleaned = clean_model_name(info.id.as_str());
            if publisher_prefers_hf_link(info.publisher.as_str()) {
                return build_hf_download_url(info.publisher.as_str(), cleaned);
            }
            match build_catalog_identifier(info.publisher.as_str(), cleaned) {
                Some(identifier) => identifier,
                None => resolved_model_id,
            }
        },
        None => resolved_model_id,
    }
}

} // verus!
