//! The store of virtual aliases: names of the proxy's own, each standing for
//! a backend model together with what the alias adds to a request.
//!
//! The store is a map from the canonical form of an alias name to its
//! entry. Reading and writing the file that keeps it is the caller's part.

use crate::error::{bad_request, not_found, not_implemented, ProxyError, ProxyErrorV};
use crate::json::{
    clone_items, empty_object, items_view, jstr, opt_view, Json, JsonV,
};
use crate::model::utils::{canonical_name, clean_model_name};
use crate::text::{chars_of, push_str, str_eq, string_of};
use vstd::prelude::*;

verus! {

/// What an alias adds to a request on its model.
#[derive(Debug)]
pub struct VirtualModelMetadata {
    pub system_prompt: Option<String>,
    pub template: Option<String>,
    pub parameters: Option<Json>,
    pub license: Option<Json>,
    pub adapters: Option<Json>,
    pub messages: Option<Vec<Json>>,
}

/// What a contract says of a `VirtualModelMetadata`.
pub struct VirtualModelMetadataV {
    pub system_prompt: Option<Seq<char>>,
    pub template: Option<Seq<char>>,
    pub parameters: Option<JsonV>,
    pub license: Option<JsonV>,
    pub adapters: Option<JsonV>,
    pub messages: Option<Seq<JsonV>>,
}

/// The text of an optional string.
pub open spec fn opt_text(text: Option<String>) -> Option<Seq<char>> {
    match text {
        Some(t) => Some(t@),
        None => None,
    }
}

impl View for VirtualModelMetadata {
    type V = VirtualModelMetadataV;

    open spec fn view(&self) -> VirtualModelMetadataV {
        VirtualModelMetadataV {
            system_prompt: opt_text(self.system_prompt),
            template: opt_text(self.template),
            parameters: opt_view(self.parameters),
            license: opt_view(self.license),
            adapters: opt_view(self.adapters),
            messages: match self.messages {
                Some(m) => Some(items_view(m@)),
                None => None,
            },
        }
    }
}

/// The metadata that adds nothing.
pub open spec fn no_metadata() -> VirtualModelMetadataV {
    VirtualModelMetadataV {
        system_prompt: None,
        template: None,
        parameters: None,
        license: None,
        adapters: None,
        messages: None,
    }
}

/// An alias: its name as the client wrote it, the name it was made from,
/// the backend model it stands for, when it was made and changed, and what
/// it adds.
#[derive(Debug)]
pub struct VirtualModelEntry {
    pub name: String,
    pub source_model: String,
    pub target_model_id: String,
    pub created_at: String,
    pub updated_at: String,
    pub metadata: VirtualModelMetadata,
}

/// What a contract says of a `VirtualModelEntry`.
pub struct VirtualModelEntryV {
    pub name: Seq<char>,
    pub source_model: Seq<char>,
    pub target_model_id: Seq<char>,
    pub created_at: Seq<char>,
    pub updated_at: Seq<char>,
    pub metadata: VirtualModelMetadataV,
}

impl View for VirtualModelEntry {
    type V = VirtualModelEntryV;

    open spec fn view(&self) -> VirtualModelEntryV {
        VirtualModelEntryV {
            name: self.name@,
            source_model: self.source_model@,
            target_model_id: self.target_model_id@,
            created_at: self.created_at@,
            updated_at: self.updated_at@,
            metadata: self.metadata@,
        }
    }
}

/// The view of an optional entry.
pub open spec fn opt_entry_view(entry: Option<VirtualModelEntry>) -> Option<VirtualModelEntryV> {
    match entry {
        Some(e) => Some(e@),
        None => None,
    }
}

fn clone_opt_string(text: &Option<String>) -> (r: Option<String>)
    ensures
        opt_text(r) == opt_text(*text),
{
    match text {
        Some(t) => Some(t.clone()),
        None => None,
    }
}

fn clone_opt_json(value: &Option<Json>) -> (r: Option<Json>)
    ensures
        opt_view(r) == opt_view(*value),
{
    match value {
        Some(v) => Some(v.clone()),
        None => None,
    }
}

impl Clone for VirtualModelMetadata {
    fn clone(&self) -> (r: VirtualModelMetadata)
        ensures
            r@ == self@,
    {
        VirtualModelMetadata {
            system_prompt: clone_opt_string(&self.system_prompt),
            template: clone_opt_string(&self.template),
            parameters: clone_opt_json(&self.parameters),
            license: clone_opt_json(&self.license),
            adapters: clone_opt_json(&self.adapters),
            messages: match &self.messages {
                Some(m) => Some(clone_items(m)),
                None => None,
            },
        }
    }
}

impl Clone for VirtualModelEntry {
    fn clone(&self) -> (r: VirtualModelEntry)
        ensures
            r@ == self@,
    {
        VirtualModelEntry {
            name: self.name.clone(),
            source_model: self.source_model.clone(),
            target_model_id: self.target_model_id.clone(),
            created_at: self.created_at.clone(),
            updated_at: self.updated_at.clone(),
            metadata: self.metadata.clone(),
        }
    }
}

impl VirtualModelMetadata {
    /// The metadata that adds nothing.
    pub fn empty() -> (r: VirtualModelMetadata)
        ensures
            r@ == no_metadata(),
    {
        VirtualModelMetadata {
            system_prompt: None,
            template: None,
            parameters: None,
            license: None,
            adapters: None,
            messages: None,
        }
    }
}

/// What the proxy answers when an alias was made or copied.
pub open spec fn entry_response(entry: VirtualModelEntryV) -> JsonV {
    empty_object().with("status"@, jstr("success"@)).with("model"@, jstr(entry.name)).with(
        "virtual"@,
        JsonV::Bool(true),
    ).with("source_model"@, jstr(entry.source_model)).with(
        "target_model_id"@,
        jstr(entry.target_model_id),
    ).with("created_at"@, jstr(entry.created_at)).with("updated_at"@, jstr(entry.updated_at))
}

impl VirtualModelEntry {
    /// What the proxy answers when this alias was made or copied.
    pub fn to_response(&self) -> (r: Json)
        ensures
            r@ == entry_response(self@),
    {
        let mut response = Json::object();
        response.insert("status", Json::string("success"));
        response.insert("model", Json::string(self.name.as_str()));
        response.insert("virtual", Json::Bool(true));
        response.insert("source_model", Json::string(self.source_model.as_str()));
        response.insert("target_model_id", Json::string(self.target_model_id.as_str()));
        response.insert("created_at", Json::string(self.created_at.as_str()));
        response.insert("updated_at", Json::string(self.updated_at.as_str()));
        response
    }
}

/// The text under `key` of a request body, or else `fallback`.
pub open spec fn text_member_or(body: JsonV, key: Seq<char>, fallback: Option<Seq<char>>) -> Option<
    Seq<char>,
> {
    match body.get(key) {
        Some(JsonV::Str(text)) => Some(text),
        _ => fallback,
    }
}

/// The member under `key` of a request body, or else `fallback`.
pub open spec fn member_or(body: JsonV, key: Seq<char>, fallback: Option<JsonV>) -> Option<JsonV> {
    match body.get(key) {
        Some(v) => Some(v),
        None => fallback,
    }
}

/// The metadata of an alias made by a request: what the request's body
/// gives, and for the rest what the alias is made from gives.
pub open spec fn request_metadata(body: JsonV, base: VirtualModelMetadataV)
    -> VirtualModelMetadataV {
    VirtualModelMetadataV {
        system_prompt: text_member_or(body, "system"@, base.system_prompt),
        template: text_member_or(body, "template"@, base.template),
        parameters: member_or(body, "parameters"@, base.parameters),
        license: member_or(body, "license"@, base.license),
        adapters: member_or(body, "adapters"@, base.adapters),
        messages: match body.get("messages"@) {
            Some(JsonV::Array(items)) => Some(items),
            _ => base.messages,
        },
    }
}

/// Whether a create request asks for what the proxy cannot do, and which
/// error says so: model files that are given, or a quantization.
pub open spec fn create_refusal(body: JsonV) -> Option<ProxyErrorV> {
    let files_given = match body.get("files"@) {
        Some(JsonV::Object(m)) => m.dom() != Set::<Seq<char>>::empty(),
        Some(JsonV::Array(items)) => items.len() > 0,
        Some(JsonV::Null) => false,
        Some(_) => true,
        None => false,
    };
    if files_given {
        Some(
            not_implemented(
                "creating models from custom blobs is not supported via LM Studio proxy"@,
            ),
        )
    } else if body.get("quantize"@) is Some {
        Some(not_implemented("quantization is not available via LM Studio proxy"@))
    } else {
        None
    }
}

/// The error for an alias that exists already.
pub open spec fn exists_error(alias: Seq<char>) -> ProxyErrorV {
    bad_request("model '"@ + alias + "' already exists"@)
}

/// The error for an alias that the proxy does not manage.
pub open spec fn unmanaged_error(alias: Seq<char>) -> ProxyErrorV {
    not_found("model '"@ + alias + "' not managed by proxy"@)
}

/// The entry of an alias made at the time `now`.
pub open spec fn new_entry(
    alias: Seq<char>,
    source_model: Seq<char>,
    target_model_id: Seq<char>,
    metadata: VirtualModelMetadataV,
    now: Seq<char>,
) -> VirtualModelEntryV {
    VirtualModelEntryV {
        name: alias,
        source_model,
        target_model_id,
        created_at: now,
        updated_at: now,
        metadata,
    }
}

/// The aliases that the proxy manages, each under the canonical form of its
/// name.
#[derive(Debug)]
pub struct VirtualModelStore {
    entries: Vec<(String, VirtualModelEntry)>,
}

/// The map that a list of keyed entries stands for.
pub open spec fn keyed_view(entries: Seq<(String, VirtualModelEntry)>) -> Map<
    Seq<char>,
    VirtualModelEntryV,
>
    decreases entries.len(),
{
    if entries.len() == 0 {
        Map::empty()
    } else {
        keyed_view(entries.drop_last()).insert(entries.last().0@, entries.last().1@)
    }
}

/// Whether no key occurs twice.
pub open spec fn distinct_keys(entries: Seq<(String, VirtualModelEntry)>) -> bool {
    forall|i: int, j: int|
        0 <= i < entries.len() && 0 <= j < entries.len() && entries[i].0@ == entries[j].0@ ==> i
            == j
}

/// The entries of a list, without their keys.
pub open spec fn values_view(entries: Seq<(String, VirtualModelEntry)>) -> Seq<VirtualModelEntryV> {
    Seq::new(entries.len(), |i: int| entries[i].1@)
}

/// The views of a list of entries.
pub open spec fn entries_list_view(entries: Seq<VirtualModelEntry>) -> Seq<VirtualModelEntryV> {
    Seq::new(entries.len(), |i: int| entries[i]@)
}

/// What a list of keyed entries with distinct keys holds under a key.
proof fn lemma_keyed(entries: Seq<(String, VirtualModelEntry)>, key: Seq<char>)
    requires
        distinct_keys(entries),
    ensures
        keyed_view(entries).contains_key(key) <==> exists|i: int|
            0 <= i < entries.len() && entries[i].0@ == key,
        forall|i: int|
            0 <= i < entries.len() && entries[i].0@ == key ==> keyed_view(entries)[key]
                == entries[i].1@,
    decreases entries.len(),
{
    if entries.len() > 0 {
        let rest = entries.drop_last();
        assert forall|i: int, j: int|
            0 <= i < rest.len() && 0 <= j < rest.len() && rest[i].0@ == rest[j].0@ implies i
            == j by {
            assert(rest[i] == entries[i] && rest[j] == entries[j]);
        }
        lemma_keyed(rest, key);
        if entries.last().0@ == key {
            assert(entries[entries.len() - 1].0@ == key);
        } else {
            if keyed_view(entries).contains_key(key) {
                let i = choose|i: int| 0 <= i < rest.len() && rest[i].0@ == key;
                assert(entries[i].0@ == key);
            }
            assert forall|i: int| 0 <= i < entries.len() && entries[i].0@ == key implies keyed_view(
                entries,
            )[key] == entries[i].1@ by {
                assert(rest[i] == entries[i]);
            }
            if exists|i: int| 0 <= i < entries.len() && entries[i].0@ == key {
                let i = choose|i: int| 0 <= i < entries.len() && entries[i].0@ == key;
                assert(rest[i].0@ == key);
            }
        }
    }
}

/// What a list of keyed entries with distinct keys holds under the key of
/// its entry at `at`.
proof fn lemma_keyed_at(entries: Seq<(String, VirtualModelEntry)>, at: int)
    requires
        distinct_keys(entries),
        0 <= at < entries.len(),
    ensures
        keyed_view(entries).contains_key(entries[at].0@),
        keyed_view(entries)[entries[at].0@] == entries[at].1@,
{
    lemma_keyed(entries, entries[at].0@);
}

/// Taking the entry at `at` out of a list with distinct keys takes its key
/// out of the map.
proof fn lemma_keyed_remove(entries: Seq<(String, VirtualModelEntry)>, at: int)
    requires
        distinct_keys(entries),
        0 <= at < entries.len(),
    ensures
        distinct_keys(entries.remove(at)),
        keyed_view(entries.remove(at)) == keyed_view(entries).remove(entries[at].0@),
    decreases entries.len(),
{
    let removed = entries.remove(at);
    let key = entries[at].0@;
    assert forall|i: int, j: int|
        0 <= i < removed.len() && 0 <= j < removed.len() && removed[i].0@ == removed[j].0@ implies i
        == j by {
        let oi = if i < at {
            i
        } else {
            i + 1
        };
        let oj = if j < at {
            j
        } else {
            j + 1
        };
        assert(removed[i] == entries[oi] && removed[j] == entries[oj]);
    }
    let rest = entries.drop_last();
    assert forall|i: int, j: int|
        0 <= i < rest.len() && 0 <= j < rest.len() && rest[i].0@ == rest[j].0@ implies i == j by {
        assert(rest[i] == entries[i] && rest[j] == entries[j]);
    }
    if at == entries.len() - 1 {
        assert(removed == rest);
        lemma_keyed(rest, key);
        assert(!keyed_view(rest).contains_key(key)) by {
            if keyed_view(rest).contains_key(key) {
                let i = choose|i: int| 0 <= i < rest.len() && rest[i].0@ == key;
                assert(entries[i].0@ == key);
            }
        }
        assert(keyed_view(removed) =~= keyed_view(entries).remove(key));
    } else {
        lemma_keyed_remove(rest, at);
        assert(removed.drop_last() == rest.remove(at));
        assert(removed.last() == entries.last());
        assert(entries.last().0@ != key) by {
            assert(entries[entries.len() - 1].0@ == entries.last().0@);
        }
        assert(keyed_view(removed) =~= keyed_view(entries).remove(key));
    }
}

/// The store after `create_alias` on `alias`: with the new entry under the
/// canonical name, unless the name is taken.
pub open spec fn store_after_create(
    store: Map<Seq<char>, VirtualModelEntryV>,
    alias: Seq<char>,
    entry: VirtualModelEntryV,
) -> Map<Seq<char>, VirtualModelEntryV> {
    if store.contains_key(canonical_name(alias)) {
        store
    } else {
        store.insert(canonical_name(alias), entry)
    }
}

/// The store after `delete` on `alias`.
pub open spec fn store_after_delete(store: Map<Seq<char>, VirtualModelEntryV>, alias: Seq<char>)
    -> Map<Seq<char>, VirtualModelEntryV> {
    store.remove(canonical_name(alias))
}

/// A change of the store.
pub enum StoreChange {
    Create { alias: Seq<char>, entry: VirtualModelEntryV },
    Delete { alias: Seq<char> },
}

/// The store after a list of changes, in order.
pub open spec fn store_after(store: Map<Seq<char>, VirtualModelEntryV>, changes: Seq<StoreChange>)
    -> Map<Seq<char>, VirtualModelEntryV>
    decreases changes.len(),
{
    if changes.len() == 0 {
        store
    } else {
        let before = store_after(store, changes.drop_last());
        match changes.last() {
            StoreChange::Create { alias, entry } => store_after_create(before, alias, entry),
            StoreChange::Delete { alias } => store_after_delete(before, alias),
        }
    }
}

/// Whether a change is something else than the deletion of `name`.
pub open spec fn spares(change: StoreChange, name: Seq<char>) -> bool {
    match change {
        StoreChange::Create { .. } => true,
        StoreChange::Delete { alias } => canonical_name(alias) != canonical_name(name),
    }
}

/// An alias that was made stays what it was made as: after `create_alias`
/// has put `entry` under `name`, the store answers with `entry` for `name`
/// whatever is made or deleted afterwards, until `name` itself is deleted.
pub proof fn lemma_alias_persists(
    store: Map<Seq<char>, VirtualModelEntryV>,
    name: Seq<char>,
    entry: VirtualModelEntryV,
    changes: Seq<StoreChange>,
)
    requires
        !store.contains_key(canonical_name(name)),
        forall|i: int| 0 <= i < changes.len() ==> spares(#[trigger] changes[i], name),
    ensures
        store_after(store_after_create(store, name, entry), changes).contains_key(
            canonical_name(name),
        ),
        store_after(store_after_create(store, name, entry), changes)[canonical_name(name)] == entry,
    decreases changes.len(),
{
    if changes.len() > 0 {
        let earlier = changes.drop_last();
        assert forall|i: int| 0 <= i < earlier.len() implies spares(
            #[trigger] earlier[i],
            name,
        ) by {
            assert(earlier[i] == changes[i]);
        }
        lemma_alias_persists(store, name, entry, earlier);
        assert(spares(changes[changes.len() - 1], name));
    }
}

/// Whether a change is refused by a store: the creation of a name that is
/// taken, or the deletion of a name that is not there.
pub open spec fn is_refused(store: Map<Seq<char>, VirtualModelEntryV>, change: StoreChange) -> bool {
    match change {
        StoreChange::Create { alias, .. } => store.contains_key(canonical_name(alias)),
        StoreChange::Delete { alias } => !store.contains_key(canonical_name(alias)),
    }
}

/// Changes that are refused leave the store as it is: a store that is
/// loaded, asked for changes that it refuses, and saved again is saved as
/// the store that was loaded.
pub proof fn lemma_refused_changes_keep_the_store(
    store: Map<Seq<char>, VirtualModelEntryV>,
    changes: Seq<StoreChange>,
)
    requires
        forall|i: int| 0 <= i < changes.len() ==> is_refused(store, #[trigger] changes[i]),
    ensures
        store_after(store, changes) == store,
    decreases changes.len(),
{
    if changes.len() > 0 {
        let earlier = changes.drop_last();
        assert forall|i: int| 0 <= i < earlier.len() implies is_refused(
            store,
            #[trigger] earlier[i],
        ) by {
            assert(earlier[i] == changes[i]);
        }
        lemma_refused_changes_keep_the_store(store, earlier);
        assert(is_refused(store, changes[changes.len() - 1]));
        match changes.last() {
            StoreChange::Create { .. } => {},
            StoreChange::Delete { alias } => {
                assert(store.remove(canonical_name(alias)) =~= store);
            },
        }
    }
}

impl VirtualModelStore {
    /// Whether the store is as it must be: no key twice.
    pub closed spec fn wf(&self) -> bool {
        distinct_keys(self.entries@)
    }

    /// The store as a map from canonical names to entries.
    pub closed spec fn view(&self) -> Map<Seq<char>, VirtualModelEntryV> {
        keyed_view(self.entries@)
    }

    /// The entries of the store in the order in which `list` gives them.
    pub closed spec fn listed(&self) -> Seq<VirtualModelEntryV> {
        values_view(self.entries@)
    }

    /// The entries that `list` gives are the values of the map.
    pub proof fn lemma_listed(&self)
        requires
            self.wf(),
        ensures
            self.listed().to_set() == self@.values(),
    {
        let entries = self.entries@;
        assert forall|v: VirtualModelEntryV| self.listed().to_set().contains(v) implies self@.values().contains(
            v,
        ) by {
            let i = choose|i: int| 0 <= i < self.listed().len() && self.listed()[i] == v;
            lemma_keyed_at(entries, i);
            assert(self@.contains_key(entries[i].0@) && self@[entries[i].0@] == v);
        }
        assert forall|v: VirtualModelEntryV| self@.values().contains(v) implies self.listed().to_set().contains(
            v,
        ) by {
            let key = choose|key: Seq<char>| self@.dom().contains(key) && self@[key] == v;
            lemma_keyed(entries, key);
            let i = choose|i: int| 0 <= i < entries.len() && entries[i].0@ == key;
            assert(self.listed()[i] == v);
        }
        assert(self.listed().to_set() =~= self@.values());
    }

    /// The store with no alias.
    pub fn new() -> (r: VirtualModelStore)
        ensures
            r.wf(),
            r@ == Map::<Seq<char>, VirtualModelEntryV>::empty(),
    {
        VirtualModelStore { entries: Vec::new() }
    }

    /// The store that holds the given entries, each under its key; of two
    /// entries under one key the later one.
    pub fn load(saved: Vec<(String, VirtualModelEntry)>) -> (r: VirtualModelStore)
        ensures
            r.wf(),
            r@ == keyed_view(saved@),
    {
        let mut store = VirtualModelStore { entries: Vec::new() };
        let mut i: usize = 0;
        assert(saved@.take(0) =~= Seq::empty());
        while i < saved.len()
            invariant
                i <= saved.len(),
                store.wf(),
                store@ == keyed_view(saved@.take(i as int)),
            decreases saved.len() - i,
        {
            proof {
                assert(saved@.take(i + 1).drop_last() == saved@.take(i as int));
                assert(saved@.take(i + 1).last() == saved@[i as int]);
            }
            store.put(saved[i].0.as_str(), saved[i].1.clone());
            i = i + 1;
        }
        assert(saved@.take(saved.len() as int) == saved@);
        store
    }

    /// The position of the entry under `key`.
    fn position(&self, key: &str) -> (r: Option<usize>)
        requires
            self.wf(),
        ensures
            match r {
                Some(i) => i < self.entries@.len() && self.entries@[i as int].0@ == key@
                    && self@.contains_key(key@) && self@[key@] == self.entries@[i as int].1@,
                None => !self@.contains_key(key@),
            },
    {
        proof {
            lemma_keyed(self.entries@, key@);
        }
        let mut i: usize = 0;
        while i < self.entries.len()
            invariant
                i <= self.entries.len(),
                self.wf(),
                forall|j: int| 0 <= j < i ==> self.entries@[j].0@ != key@,
                !(exists|j: int| 0 <= j < self.entries@.len() && self.entries@[j].0@ == key@)
                    ==> !self@.contains_key(key@),
            decreases self.entries.len() - i,
        {
            if str_eq(self.entries[i].0.as_str(), key) {
                proof {
                    lemma_keyed_at(self.entries@, i as int);
                }
                return Some(i);
            }
            i = i + 1;
        }
        None
    }

    /// Puts `entry` under `key`, in place of what was there.
    fn put(&mut self, key: &str, entry: VirtualModelEntry)
        requires
            old(self).wf(),
        ensures
            final(self).wf(),
            final(self)@ == old(self)@.insert(key@, entry@),
    {
        match self.position(key) {
            Some(i) => {
                proof {
                    lemma_keyed_remove(self.entries@, i as int);
                }
                self.entries.remove(i);
            },
            None => {},
        }
        let ghost before = self.entries@;
        proof {
            lemma_keyed(before, key@);
        }
        self.entries.push((key.to_owned(), entry));
        proof {
            assert(self.entries@.drop_last() == before);
            assert forall|i: int, j: int|
                0 <= i < self.entries@.len() && 0 <= j < self.entries@.len()
                    && self.entries@[i].0@ == self.entries@[j].0@ implies i == j by {
                if i < before.len() {
                    assert(self.entries@[i] == before[i]);
                }
                if j < before.len() {
                    assert(self.entries@[j] == before[j]);
                }
            }
            assert(keyed_view(self.entries@) =~= old(self)@.insert(key@, entry@));
        }
    }

    /// The key of an alias name: its canonical form.
    pub fn canonical(model_name: &str) -> (r: String)
        ensures
            r@ == canonical_name(model_name@),
    {
        clean_model_name(model_name).to_owned()
    }

    /// The metadata of an alias made by a request.
    pub fn build_metadata_from_request(body: &Json, base: Option<VirtualModelMetadata>) -> (r:
        VirtualModelMetadata)
        ensures
            r@ == request_metadata(
                body@,
                match base {
                    Some(b) => b@,
                    None => no_metadata(),
                },
            ),
    {
        let mut metadata = match base {
            Some(b) => b,
            None => VirtualModelMetadata::empty(),
        };
        match body.get_str("system") {
            Some(system_prompt) => {
                metadata.system_prompt = Some(system_prompt.to_owned());
            },
            None => {},
        }
        match body.get_str("template") {
            Some(template) => {
                metadata.template = Some(template.to_owned());
            },
            None => {},
        }
        match body.get("parameters") {
            Some(parameters) => {
                metadata.parameters = Some(parameters.clone());
            },
            None => {},
        }
        match body.get("license") {
            Some(license) => {
                metadata.license = Some(license.clone());
            },
            None => {},
        }
        match body.get("adapters") {
            Some(adapters) => {
                metadata.adapters = Some(adapters.clone());
            },
            None => {},
        }
        match body.get("messages") {
            Some(messages) => match messages.as_array() {
                Some(items) => {
                    metadata.messages = Some(clone_items(items));
                },
                None => {},
            },
            None => {},
        }
        metadata
    }

    /// Refuses a create request that asks for what the proxy cannot do.
    pub fn validate_create_request(body: &Json) -> (r: Result<(), ProxyError>)
        ensures
            match r {
                Ok(_) => create_refusal(body@) is None,
                Err(e) => create_refusal(body@) == Some(e@),
            },
    {
        match body.get("files") {
            Some(files) => {
                let has_content = match files {
                    Json::Object(entries) => {
                        proof {
                            if entries@.len() > 0 {
                                assert(crate::json::entries_view(entries@).contains_key(
                                    entries@.last().0@,
                                ));
                            }
                            assert(crate::json::entries_view(Seq::empty()).dom() =~= Set::<
                                Seq<char>,
                            >::empty());
                            if entries@.len() == 0 {
                                assert(entries@ =~= Seq::empty());
                            }
                        }
                        entries.len() > 0
                    },
                    Json::Array(items) => {
                        proof {
                            crate::json::lemma_items_view(items@);
                        }
                        items.len() > 0
                    },
                    Json::Null => false,
                    _ => true,
                };
                if has_content {
                    return Err(
                        ProxyError::not_implemented(
                            "creating models from custom blobs is not supported via LM Studio proxy",
                        ),
                    );
                }
            },
            None => {},
        }
        if body.has("quantize") {
            return Err(
                ProxyError::not_implemented("quantization is not available via LM Studio proxy"),
            );
        }
        Ok(())
    }

    /// Makes the alias that a create request asks for. `resolved_id` is the
    /// backend model that the source name resolves to and
    /// `source_virtual_entry` the alias that the source name is, where it is
    /// one; `now` is the time of the change.
    pub fn create_from_request(
        &mut self,
        alias_name: &str,
        source_name: &str,
        body: &Json,
        resolved_id: String,
        source_virtual_entry: Option<VirtualModelEntry>,
        now: &str,
    ) -> (r: Result<VirtualModelEntry, ProxyError>)
        requires
            old(self).wf(),
        ensures
            final(self).wf(),
            match create_refusal(body@) {
                Some(refusal) => r matches Err(e) && e@ == refusal && final(self)@ == old(self)@,
                None => {
                    let entry = new_entry(
                        alias_name@,
                        source_name@,
                        resolved_id@,
                        request_metadata(
                            body@,
                            match source_virtual_entry {
                                Some(s) => s.metadata@,
                                None => no_metadata(),
                            },
                        ),
                        now@,
                    );
                    &&& final(self)@ == store_after_create(old(self)@, alias_name@, entry)
                    &&& match r {
                        Ok(made) => !old(self)@.contains_key(canonical_name(alias_name@)) && made@
                            == entry,
                        Err(e) => old(self)@.contains_key(canonical_name(alias_name@)) && e@
                            == exists_error(alias_name@),
                    }
                },
            },
    {
        match VirtualModelStore::validate_create_request(body) {
            Err(e) => {
                return Err(e);
            },
            Ok(_) => {},
        }
        let base = match source_virtual_entry {
            Some(entry) => Some(entry.metadata),
            None => None,
        };
        let metadata = VirtualModelStore::build_metadata_from_request(body, base);
        self.create_alias(alias_name, source_name.to_owned(), resolved_id, metadata, now)
    }

    /// The entry of an alias, where the store has it.
    pub fn get(&self, model_name: &str) -> (r: Option<VirtualModelEntry>)
        requires
            self.wf(),
        ensures
            opt_entry_view(r) == if self@.contains_key(canonical_name(model_name@)) {
                Some(self@[canonical_name(model_name@)])
            } else {
                None
            },
    {
        let key = VirtualModelStore::canonical(model_name);
        match self.position(key.as_str()) {
            Some(i) => Some(self.entries[i].1.clone()),
            None => None,
        }
    }

    /// Makes an alias at the time `now`, unless its canonical name is
    /// taken.
    pub fn create_alias(
        &mut self,
        alias: &str,
        source_model: String,
        target_model_id: String,
        metadata: VirtualModelMetadata,
        now: &str,
    ) -> (r: Result<VirtualModelEntry, ProxyError>)
        requires
            old(self).wf(),
        ensures
            final(self).wf(),
            final(self)@ == store_after_create(
                old(self)@,
                alias@,
                new_entry(alias@, source_model@, target_model_id@, metadata@, now@),
            ),
            match r {
                Ok(made) => !old(self)@.contains_key(canonical_name(alias@)) && made@ == new_entry(
                    alias@,
                    source_model@,
                    target_model_id@,
                    metadata@,
                    now@,
                ),
                Err(e) => old(self)@.contains_key(canonical_name(alias@)) && e@ == exists_error(
                    alias@,
                ),
            },
    {
        let alias_key = VirtualModelStore::canonical(alias);
        match self.position(alias_key.as_str()) {
            Some(_) => {
                let mut message = chars_of("model '");
                push_str(&mut message, alias);
                push_str(&mut message, "' already exists");
                Err(ProxyError::bad_request(string_of(&message).as_str()))
            },
            None => {
                let entry = VirtualModelEntry {
                    name: alias.to_owned(),
                    source_model,
                    target_model_id,
                    created_at: now.to_owned(),
                    updated_at: now.to_owned(),
                    metadata,
                };
                let copy = entry.clone();
                self.put(alias_key.as_str(), entry);
                Ok(copy)
            },
        }
    }

    /// Takes an alias out of the store.
    pub fn delete(&mut self, alias: &str) -> (r: Result<VirtualModelEntry, ProxyError>)
        requires
            old(self).wf(),
        ensures
            final(self).wf(),
            final(self)@ == store_after_delete(old(self)@, alias@),
            match r {
                Ok(removed) => old(self)@.contains_key(canonical_name(alias@)) && removed@ == old(
                    self,
                )@[canonical_name(alias@)],
                Err(e) => !old(self)@.contains_key(canonical_name(alias@)) && e@ == unmanaged_error(
                    alias@,
                ) && final(self)@ == old(self)@,
            },
    {
        let alias_key = VirtualModelStore::canonical(alias);
        match self.position(alias_key.as_str()) {
            Some(i) => {
                proof {
                    lemma_keyed_remove(self.entries@, i as int);
                }
                let removed = self.entries.remove(i);
                Ok(removed.1)
            },
            None => {
                let mut message = chars_of("model '");
                push_str(&mut message, alias);
                push_str(&mut message, "' not managed by proxy");
                assert(self@.remove(canonical_name(alias@)) =~= self@);
                Err(ProxyError::not_found(string_of(&message).as_str()))
            },
        }
    }

    /// The entries of the store.
    pub fn list(&self) -> (r: Vec<VirtualModelEntry>)
        ensures
            entries_list_view(r@) == self.listed(),
    {
        let mut out: Vec<VirtualModelEntry> = Vec::new();
        let mut i: usize = 0;
        while i < self.entries.len()
            invariant
                i <= self.entries.len(),
                out@.len() == i,
                forall|j: int| 0 <= j < i ==> (#[trigger] out@[j])@ == self.entries@[j].1@,
            decreases self.entries.len() - i,
        {
            out.push(self.entries[i].1.clone());
            i = i + 1;
        }
        assert(entries_list_view(out@) =~= values_view(self.entries@));
        out
    }

    /// The entries of the store with their keys, as they are to be saved.
    pub fn snapshot(&self) -> (r: Vec<(String, VirtualModelEntry)>)
        requires
            self.wf(),
        ensures
            keyed_view(r@) == self@,
    {
        let mut out: Vec<(String, VirtualModelEntry)> = Vec::new();
        let mut i: usize = 0;
        assert(self.entries@.take(0) =~= Seq::empty());
        while i < self.entries.len()
            invariant
                i <= self.entries.len(),
                keyed_view(out@) == keyed_view(self.entries@.take(i as int)),
            decreases self.entries.len() - i,
        {
            let key = self.entries[i].0.clone();
            let entry = self.entries[i].1.clone();
            proof {
                assert(self.entries@.take(i + 1).drop_last() == self.entries@.take(i as int));
                assert(self.entries@.take(i + 1).last() == self.entries@[i as int]);
                assert(out@.push((key, entry)).drop_last() == out@);
            }
            out.push((key, entry));
            i = i + 1;
        }
        assert(self.entries@.take(self.entries.len() as int) == self.entries@);
        out
    }
}

} // verus!
