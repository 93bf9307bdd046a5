//! The list endpoints: `tags` lists every model, `ps` the loaded ones; both
//! list the aliases of the models behind them.

use crate::handlers::ollama::model_resolution::model_with_id;
use crate::json::{
    empty_object, items_view, jint, jstr, lemma_items_push, singleton_array, Json, JsonV,
};

use crate::model::types::{md5_hex, md5_hex_exec, ps_listing, tags_listing, ModelInfo, ModelInfoV};
use crate::storage::virtual_models::{VirtualModelEntry, VirtualModelEntryV};
use crate::text::str_eq;
use vstd::prelude::*;

verus! {

/// Which list a listing is for, with the time that it is stamped with.
#[derive(Debug)]
pub enum Listing {
    /// For `tags`: stamped with the time of the last change.
    Tags { modified_at: String },
    /// For `ps`: stamped with the time at which the model expires.
    Ps { expires_at: String },
}

/// What a contract says of a `Listing`.
pub enum ListingV {
    Tags { modified_at: Seq<char> },
    Ps { expires_at: Seq<char> },
}

impl View for Listing {
    type V = ListingV;

    open spec fn view(&self) -> ListingV {
        match self {
            Listing::Tags { modified_at } => ListingV::Tags { modified_at: modified_at@ },
            Listing::Ps { expires_at } => ListingV::Ps { expires_at: expires_at@ },
        }
    }
}

/// The listing of a model.
pub open spec fn listing_of(kind: ListingV, model: ModelInfoV) -> JsonV {
    match kind {
        ListingV::Tags { modified_at } => tags_listing(model, modified_at),
        ListingV::Ps { expires_at } => ps_listing(model, expires_at),
    }
}

/// The listings of the first `upto` models, in order.
pub open spec fn model_listings(models: Seq<ModelInfo>, kind: ListingV, upto: int) -> Seq<JsonV>
    decreases upto,
{
    if upto <= 0 {
        Seq::empty()
    } else {
        model_listings(models, kind, upto - 1).push(listing_of(kind, models[upto - 1]@))
    }
}

/// The listings of the first `upto` aliases whose model is among `models`,
/// each as its model under the alias's name.
pub open spec fn alias_listings(
    models: Seq<ModelInfo>,
    aliases: Seq<VirtualModelEntry>,
    kind: ListingV,
    upto: int,
) -> Seq<JsonV>
    decreases upto,
{
    if upto <= 0 {
        Seq::empty()
    } else {
        let before = alias_listings(models, aliases, kind, upto - 1);
        let alias = aliases[upto - 1];
        match model_with_id(models, alias.target_model_id@, 0) {
            Some(i) => before.push(
                listing_of(kind, ModelInfoV { ollama_name: alias.name@, ..models[i]@ }),
            ),
            None => before,
        }
    }
}

/// The listings of the models, then those of the aliases whose model is
/// among them.
pub open spec fn merged_listings(
    models: Seq<ModelInfo>,
    aliases: Seq<VirtualModelEntry>,
    kind: ListingV,
) -> Seq<JsonV> {
    model_listings(models, kind, models.len() as int) + alias_listings(
        models,
        aliases,
        kind,
        aliases.len() as int,
    )
}

/// The listing of an alias whose model the backend does not have.
pub open spec fn orphan_listing(alias: VirtualModelEntryV) -> JsonV {
    empty_object().with("name"@, jstr(alias.name)).with("model"@, jstr(alias.name)).with(
        "modified_at"@,
        jstr(alias.updated_at),
    ).with("size"@, jint(0)).with("digest"@, jstr(md5_hex(alias.name))).with(
        "details"@,
        empty_object().with("parent_model"@, jstr(alias.source_model)).with(
            "format"@,
            jstr("virtual"@),
        ).with("family"@, jstr("unknown"@)).with(
            "families"@,
            JsonV::Array(seq![jstr("unknown"@)]),
        ).with("parameter_size"@, jstr("unknown"@)).with("quantization_level"@, jstr("unknown"@)),
    )
}

/// The listings of the first `upto` aliases whose model is not among
/// `models`.
pub open spec fn orphan_listings(models: Seq<ModelInfo>, aliases: Seq<VirtualModelEntry>, upto: int)
    -> Seq<JsonV>
    decreases upto,
{
    if upto <= 0 {
        Seq::empty()
    } else {
        let before = orphan_listings(models, aliases, upto - 1);
        match model_with_id(models, aliases[upto - 1].target_model_id@, 0) {
            Some(_) => before,
            None => before.push(orphan_listing(aliases[upto - 1]@)),
        }
    }
}

/// The answer of `tags`: every model, every alias of a model, and every
/// alias whose model is missing.
pub open spec fn tags_response(
    models: Seq<ModelInfo>,
    aliases: Seq<VirtualModelEntry>,
    modified_at: Seq<char>,
) -> JsonV {
    empty_object().with(
        "models"@,
        JsonV::Array(
            merged_listings(models, aliases, ListingV::Tags { modified_at }) + orphan_listings(
                models,
                aliases,
                aliases.len() as int,
            ),
        ),
    )
}

/// The position of the first model with the id `id`.
fn position_of_model(models: &Vec<ModelInfo>, id: &str) -> (r: Option<usize>)
    ensures
        match r {
            Some(i) => i < models@.len() && model_with_id(models@, id@, 0) == Some(i as int),
            None => model_with_id(models@, id@, 0) is None,
        },
{
    let mut i: usize = 0;
    while i < models.len()
        invariant
            i <= models.len(),
            model_with_id(models@, id@, 0) == model_with_id(models@, id@, i as int),
        decreases models.len() - i,
    {
        if str_eq(models[i].id.as_str(), id) {
            return Some(i);
        }
        i = i + 1;
    }
    None
}

/// The listing of a model.
fn listing_exec(kind: &Listing, model: &ModelInfo) -> (r: Json)
    ensures
        r@ == listing_of(kind@, model@),
{
    match kind {
        Listing::Tags { modified_at } => model.to_ollama_tags_model(modified_at.as_str()),
        Listing::Ps { expires_at } => model.to_ollama_ps_model(expires_at.as_str()),
    }
}

impl ModelInfo {
    /// The listings of the models, then those of the aliases whose model
    /// is among them.
    pub fn merge_with_virtuals(
        base_models: &Vec<ModelInfo>,
        virtual_entries: &Vec<VirtualModelEntry>,
        kind: &Listing,
    ) -> (r: Vec<Json>)
        ensures
            items_view(r@) == merged_listings(base_models@, virtual_entries@, kind@),
    {
        let mut result: Vec<Json> = Vec::new();
        let mut i: usize = 0;
        while i < base_models.len()
            invariant
                i <= base_models.len(),
                items_view(result@) == model_listings(base_models@, kind@, i as int),
            decreases base_models.len() - i,
        {
            let listing = listing_exec(kind, &base_models[i]);
            proof {
                lemma_items_push(result@, listing);
            }
            result.push(listing);
            i = i + 1;
        }
        let ghost head = items_view(result@);
        let mut k: usize = 0;
        assert(head + Seq::<JsonV>::empty() =~= head);
        while k < virtual_entries.len()
            invariant
                k <= virtual_entries.len(),
                head == model_listings(base_models@, kind@, base_models@.len() as int),
                items_view(result@) == head + alias_listings(
                    base_models@,
                    virtual_entries@,
                    kind@,
                    k as int,
                ),
            decreases virtual_entries.len() - k,
        {
            let entry = &virtual_entries[k];
            match position_of_model(base_models, entry.target_model_id.as_str()) {
                Some(at) => {
                    let aliased = base_models[at].with_alias_name(entry.name.as_str());
                    let listing = listing_exec(kind, &aliased);
                    proof {
                        lemma_items_push(result@, listing);
                        let before = alias_listings(
                            base_models@,
                            virtual_entries@,
                            kind@,
                            k as int,
                        );
                        assert((head + before).push(listing@) =~= head + before.push(listing@));
                    }
                    result.push(listing);
                },
                None => {},
            }
            k = k + 1;
        }
        result
    }
}

/// The listing of an alias whose model the backend does not have.
fn orphan_listing_exec(alias: &VirtualModelEntry) -> (r: Json)
    ensures
        r@ == orphan_listing(alias@),
{
    let mut details = Json::object();
    details.insert("parent_model", Json::string(alias.source_model.as_str()));
    details.insert("format", Json::string("virtual"));
    details.insert("family", Json::string("unknown"));
    details.insert("families", singleton_array(Json::string("unknown")));
    details.insert("parameter_size", Json::string("unknown"));
    details.insert("quantization_level", Json::string("unknown"));
    let digest = md5_hex_exec(alias.name.as_str());
    let mut listing = Json::object();
    listing.insert("name", Json::string(alias.name.as_str()));
    listing.insert("model", Json::string(alias.name.as_str()));
    listing.insert("modified_at", Json::string(alias.updated_at.as_str()));
    listing.insert("size", Json::unsigned(0));
    listing.insert("digest", Json::string(digest.as_str()));
    listing.insert("details", details);
    listing
}

/// The answer of `tags`.
pub fn handle_ollama_tags(
    models: &Vec<ModelInfo>,
    virtual_entries: &Vec<VirtualModelEntry>,
    modified_at: &str,
) -> (r: Json)
    ensures
        r@ == tags_response(models@, virtual_entries@, modified_at@),
{
    let kind = Listing::Tags { modified_at: modified_at.to_owned() };
    let mut listings = ModelInfo::merge_with_virtuals(models, virtual_entries, &kind);
    let ghost head = items_view(listings@);
    let mut k: usize = 0;
    assert(head + Seq::<JsonV>::empty() =~= head);
    while k < virtual_entries.len()
        invariant
            k <= virtual_entries.len(),
            items_view(listings@) == head + orphan_listings(models@, virtual_entries@, k as int),
        decreases virtual_entries.len() - k,
    {
        match position_of_model(models, virtual_entries[k].target_model_id.as_str()) {
            Some(_) => {},
            None => {
                let listing = orphan_listing_exec(&virtual_entries[k]);
                proof {
                    lemma_items_push(listings@, listing);
                    let before = orphan_listings(models@, virtual_entries@, k as int);
                    assert((head + before).push(listing@) =~= head + before.push(listing@));
                }
                listings.push(listing);
            },
        }
        k = k + 1;
    }
    let mut response = Json::object();
    response.insert("models", Json::Array(listings));
    response
}

/// The answer of `ps`: the loaded models and the aliases of loaded
/// models.
pub open spec fn ps_response(
    loaded: Seq<ModelInfo>,
    aliases: Seq<VirtualModelEntry>,
    expires_at: Seq<char>,
) -> JsonV {
    empty_object().with(
        "models"@,
        JsonV::Array(merged_listings(loaded, aliases, ListingV::Ps { expires_at })),
    )
}

/// The answer of `ps` for the loaded models of the backend.
pub fn handle_ollama_ps(
    loaded_models: &Vec<ModelInfo>,
    virtual_entries: &Vec<VirtualModelEntry>,
    expires_at: &str,
) -> (r: Json)
    ensures
        r@ == ps_response(loaded_models@, virtual_entries@, expires_at@),
{
    let kind = Listing::Ps { expires_at: expires_at.to_owned() };
    let listings = ModelInfo::merge_with_virtuals(loaded_models, virtual_entries, &kind);
    let mut response = Json::object();
    response.insert("models", Json::Array(listings));
    response
}

} // verus!
