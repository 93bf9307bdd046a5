//! A JSON value of the library's own, and its mathematical view.
//!
//! The translation rules read and build free-form JSON. `Json` holds such a
//! value in plain data; `JsonV` is what a contract says of it: an object is a
//! map from keys to values, whatever the order in which its entries are kept.

use crate::text::str_eq;
use serde_json::Value;
use vstd::prelude::*;

verus! {

/// A JSON number. A real number is kept as its decimal text.
#[derive(Debug)]
pub enum JsonNumber {
    PosInt(u64),
    NegInt(i64),
    Real(String),
}

/// A JSON value. An object keeps its entries in a list; where a key occurs
/// twice the later entry counts.
#[derive(Debug)]
pub enum Json {
    Null,
    Bool(bool),
    Number(JsonNumber),
    Str(String),
    Array(Vec<Json>),
    Object(Vec<(String, Json)>),
}

/// The mathematical value of a `Json`.
pub enum JsonV {
    Null,
    Bool(bool),
    Int(int),
    Real(Seq<char>),
    Str(Seq<char>),
    Array(Seq<JsonV>),
    Object(Map<Seq<char>, JsonV>),
}

/// The value of a number.
pub open spec fn number_view(n: JsonNumber) -> JsonV {
    match n {
        JsonNumber::PosInt(u) => JsonV::Int(u as int),
        JsonNumber::NegInt(i) => JsonV::Int(i as int),
        JsonNumber::Real(text) => JsonV::Real(text@),
    }
}

/// The map that a list of entries stands for: later entries override earlier
/// ones.
pub open spec fn entries_view(entries: Seq<(String, Json)>) -> Map<Seq<char>, JsonV>
    decreases entries, 0int,
{
    if entries.len() == 0 {
        Map::empty()
    } else {
        entries_view(entries.drop_last()).insert(entries.last().0@, json_view(entries.last().1))
    }
}

/// The values of a list of items, in order.
pub open spec fn items_view(items: Seq<Json>) -> Seq<JsonV>
    decreases items, 0int,
{
    if items.len() == 0 {
        Seq::empty()
    } else {
        items_view(items.drop_last()).push(json_view(items.last()))
    }
}

/// The value of a `Json`.
pub open spec fn json_view(j: Json) -> JsonV
    decreases j, 1int,
{
    match j {
        Json::Null => JsonV::Null,
        Json::Bool(b) => JsonV::Bool(b),
        Json::Number(n) => number_view(n),
        Json::Str(s) => JsonV::Str(s@),
        Json::Array(items) => JsonV::Array(items_view(items@)),
        Json::Object(entries) => JsonV::Object(entries_view(entries@)),
    }
}

impl View for Json {
    type V = JsonV;

    open spec fn view(&self) -> JsonV {
        json_view(*self)
    }
}

/// The value of an optional `Json`.
pub open spec fn opt_view(j: Option<Json>) -> Option<JsonV> {
    match j {
        Some(v) => Some(v@),
        None => None,
    }
}

/// The value behind an optional reference.
pub open spec fn opt_ref_view(j: Option<&Json>) -> Option<JsonV> {
    match j {
        Some(v) => Some(v@),
        None => None,
    }
}

impl JsonV {
    /// The member under `key`, where this is an object that has one.
    pub open spec fn get(self, key: Seq<char>) -> Option<JsonV> {
        match self {
            JsonV::Object(m) => if m.contains_key(key) {
                Some(m[key])
            } else {
                None
            },
            _ => None,
        }
    }

    /// The text, where this is a string.
    pub open spec fn as_str(self) -> Option<Seq<char>> {
        match self {
            JsonV::Str(s) => Some(s),
            _ => None,
        }
    }

    /// The flag, where this is a boolean.
    pub open spec fn as_bool(self) -> Option<bool> {
        match self {
            JsonV::Bool(b) => Some(b),
            _ => None,
        }
    }

    /// The items, where this is an array.
    pub open spec fn as_array(self) -> Option<Seq<JsonV>> {
        match self {
            JsonV::Array(items) => Some(items),
            _ => None,
        }
    }

    /// The number, where this is an integer that fits in 64 unsigned bits.
    pub open spec fn as_u64(self) -> Option<u64> {
        match self {
            JsonV::Int(i) => if 0 <= i <= u64::MAX {
                Some(i as u64)
            } else {
                None
            },
            _ => None,
        }
    }

    /// The number, where this is an integer that fits in 64 signed bits.
    pub open spec fn as_i64(self) -> Option<i64> {
        match self {
            JsonV::Int(i) => if i64::MIN <= i <= i64::MAX {
                Some(i as i64)
            } else {
                None
            },
            _ => None,
        }
    }

    /// This value with `value` under `key`, where this is an object; else
    /// this value.
    pub open spec fn with(self, key: Seq<char>, value: JsonV) -> JsonV {
        match self {
            JsonV::Object(m) => JsonV::Object(m.insert(key, value)),
            _ => self,
        }
    }

    /// This value without a member under `key`, where this is an object;
    /// else this value.
    pub open spec fn without(self, key: Seq<char>) -> JsonV {
        match self {
            JsonV::Object(m) => JsonV::Object(m.remove(key)),
            _ => self,
        }
    }

    /// Whether this is an object with no member under another key than
    /// `key`.
    pub open spec fn has_only(self, key: Seq<char>) -> bool {
        match self {
            JsonV::Object(m) => forall|k: Seq<char>| #[trigger] m.contains_key(k) ==> k == key,
            _ => false,
        }
    }

    /// The member under `key` of the member under `outer`.
    pub open spec fn get2(self, outer: Seq<char>, key: Seq<char>) -> Option<JsonV> {
        match self.get(outer) {
            Some(inner) => inner.get(key),
            None => None,
        }
    }
}

/// The object with no members.
pub open spec fn empty_object() -> JsonV {
    JsonV::Object(Map::empty())
}

/// The index of the entry that counts for `key`: the last one that has it.
pub open spec fn key_index(entries: Seq<(String, Json)>, key: Seq<char>) -> Option<int>
    decreases entries.len(),
{
    if entries.len() == 0 {
        None
    } else if entries.last().0@ == key {
        Some(entries.len() - 1)
    } else {
        key_index(entries.drop_last(), key)
    }
}

/// `key_index` finds the entry from which `entries_view` takes the value.
pub proof fn lemma_key_index(entries: Seq<(String, Json)>, key: Seq<char>)
    ensures
        key_index(entries, key) is Some <==> entries_view(entries).contains_key(key),
        key_index(entries, key) matches Some(i) ==> 0 <= i < entries.len() && entries[i].0@ == key
            && entries_view(entries)[key] == entries[i].1@ && forall|j: int|
            i < j < entries.len() ==> entries[j].0@ != key,
        key_index(entries, key) is None ==> forall|j: int|
            0 <= j < entries.len() ==> entries[j].0@ != key,
    decreases entries.len(),
{
    if entries.len() == 0 {
    } else if entries.last().0@ == key {
    } else {
        let rest = entries.drop_last();
        lemma_key_index(rest, key);
        assert forall|j: int| 0 <= j < rest.len() implies entries[j] == rest[j] by {}
        if key_index(entries, key) is None {
            assert forall|j: int| 0 <= j < entries.len() implies entries[j].0@ != key by {
                if j < rest.len() {
                    assert(rest[j].0@ != key);
                }
            }
        } else {
            let i = key_index(entries, key)->0;
            assert forall|j: int| i < j < entries.len() implies entries[j].0@ != key by {
                if j < rest.len() {
                    assert(rest[j].0@ != key);
                }
            }
        }
    }
}

/// Pushing an entry inserts it into the map.
pub proof fn lemma_entries_push(entries: Seq<(String, Json)>, entry: (String, Json))
    ensures
        entries_view(entries.push(entry)) == entries_view(entries).insert(entry.0@, entry.1@),
{
    assert(entries.push(entry).drop_last() == entries);
}

/// Replacing the entry that counts for a key inserts the new value.
pub proof fn lemma_entries_update(entries: Seq<(String, Json)>, i: int, entry: (String, Json))
    requires
        key_index(entries, entry.0@) == Some(i),
    ensures
        entries_view(entries.update(i, entry)) == entries_view(entries).insert(
            entry.0@,
            entry.1@,
        ),
    decreases entries.len(),
{
    lemma_key_index(entries, entry.0@);
    let updated = entries.update(i, entry);
    if i == entries.len() - 1 {
        assert(updated.drop_last() == entries.drop_last());
        assert(entries_view(updated) =~= entries_view(entries).insert(entry.0@, entry.1@));
    } else {
        let rest = entries.drop_last();
        assert(entries.last().0@ != entry.0@);
        assert(key_index(rest, entry.0@) == Some(i));
        lemma_entries_update(rest, i, entry);
        assert(updated.drop_last() == rest.update(i, entry));
        assert(updated.last() == entries.last());
        assert(entries_view(updated) =~= entries_view(entries).insert(entry.0@, entry.1@));
    }
}

/// Removing the entry that counts for a key leaves every other key as it
/// was.
pub proof fn lemma_entries_remove(entries: Seq<(String, Json)>, i: int, key: Seq<char>)
    requires
        key_index(entries, key) == Some(i),
    ensures
        entries_view(entries.remove(i)).remove(key) == entries_view(entries).remove(key),
    decreases entries.len(),
{
    lemma_key_index(entries, key);
    let removed = entries.remove(i);
    if i == entries.len() - 1 {
        assert(removed == entries.drop_last());
        assert(entries_view(removed).remove(key) =~= entries_view(entries).remove(key));
    } else {
        let rest = entries.drop_last();
        assert(entries.last().0@ != key);
        assert(key_index(rest, key) == Some(i));
        lemma_entries_remove(rest, i, key);
        assert(removed.drop_last() == rest.remove(i));
        assert(removed.last() == entries.last());
        assert(entries_view(removed) == entries_view(rest.remove(i)).insert(
            entries.last().0@,
            entries.last().1@,
        ));
        assert(entries_view(removed).remove(key) =~= entries_view(rest.remove(i)).remove(
            key,
        ).insert(entries.last().0@, entries.last().1@));
        assert(entries_view(entries).remove(key) =~= entries_view(rest).remove(key).insert(
            entries.last().0@,
            entries.last().1@,
        ));
    }
}

/// The view of a list of items has the items' views at the same places.
pub proof fn lemma_items_view(items: Seq<Json>)
    ensures
        items_view(items).len() == items.len(),
        forall|i: int| 0 <= i < items.len() ==> #[trigger] items_view(items)[i] == items[i]@,
    decreases items.len(),
{
    if items.len() > 0 {
        lemma_items_view(items.drop_last());
    }
}

/// Pushing an item pushes its view.
pub proof fn lemma_items_push(items: Seq<Json>, item: Json)
    ensures
        items_view(items.push(item)) == items_view(items).push(item@),
{
    assert(items.push(item).drop_last() == items);
}

/// The position of the entry that counts for `key`.
pub fn find_key(entries: &Vec<(String, Json)>, key: &str) -> (r: Option<usize>)
    ensures
        r matches Some(i) ==> key_index(entries@, key@) == Some(i as int),
        r is None ==> key_index(entries@, key@) is None,
{
    let mut i: usize = entries.len();
    assert(entries@.take(i as int) == entries@);
    while i > 0
        invariant
            i <= entries.len(),
            key_index(entries@, key@) == key_index(entries@.take(i as int), key@),
        decreases i,
    {
        i = i - 1;
        assert(entries@.take(i + 1).drop_last() == entries@.take(i as int));
        if str_eq(entries[i].0.as_str(), key) {
            return Some(i);
        }
    }
    None
}

/// A copy of a list of items.
pub fn clone_items(items: &Vec<Json>) -> (r: Vec<Json>)
    ensures
        items_view(r@) == items_view(items@),
        r@.len() == items@.len(),
    decreases items, 0int,
{
    let mut out: Vec<Json> = Vec::new();
    let mut i: usize = 0;
    while i < items.len()
        invariant
            i <= items.len(),
            out@.len() == i,
            items_view(out@) == items_view(items@.take(i as int)),
        decreases items.len() - i,
    {
        let item = items[i].clone();
        proof {
            lemma_items_push(out@, item);
            lemma_items_push(items@.take(i as int), items@[i as int]);
            assert(items@.take(i + 1) == items@.take(i as int).push(items@[i as int]));
        }
        out.push(item);
        i = i + 1;
    }
    assert(items@.take(items.len() as int) == items@);
    out
}

/// A copy of a list of entries.
pub fn clone_entries(entries: &Vec<(String, Json)>) -> (r: Vec<(String, Json)>)
    ensures
        entries_view(r@) == entries_view(entries@),
    decreases entries, 0int,
{
    let mut out: Vec<(String, Json)> = Vec::new();
    let mut i: usize = 0;
    while i < entries.len()
        invariant
            i <= entries.len(),
            entries_view(out@) == entries_view(entries@.take(i as int)),
        decreases entries.len() - i,
    {
        let key = entries[i].0.clone();
        let value = entries[i].1.clone();
        proof {
            lemma_entries_push(out@, (key, value));
            lemma_entries_push(entries@.take(i as int), entries@[i as int]);
            assert(entries@.take(i + 1) == entries@.take(i as int).push(entries@[i as int]));
        }
        out.push((key, value));
        i = i + 1;
    }
    assert(entries@.take(entries.len() as int) == entries@);
    out
}

impl Clone for JsonNumber {
    fn clone(&self) -> (r: JsonNumber)
        ensures
            number_view(r) == number_view(*self),
    {
        match self {
            JsonNumber::PosInt(u) => JsonNumber::PosInt(*u),
            JsonNumber::NegInt(i) => JsonNumber::NegInt(*i),
            JsonNumber::Real(text) => JsonNumber::Real(text.clone()),
        }
    }
}

impl Clone for Json {
    fn clone(&self) -> (r: Json)
        ensures
            r@ == self@,
        decreases self, 1int,
    {
        match self {
            Json::Null => Json::Null,
            Json::Bool(b) => Json::Bool(*b),
            Json::Number(n) => Json::Number(n.clone()),
            Json::Str(s) => Json::Str(s.clone()),
            Json::Array(items) => Json::Array(clone_items(items)),
            Json::Object(entries) => Json::Object(clone_entries(entries)),
        }
    }
}

impl Json {
    /// The string `text`.
    pub fn string(text: &str) -> (r: Json)
        ensures
            r@ == JsonV::Str(text@),
    {
        Json::Str(text.to_owned())
    }

    /// The number `n`.
    pub fn unsigned(n: u64) -> (r: Json)
        ensures
            r@ == JsonV::Int(n as int),
    {
        Json::Number(JsonNumber::PosInt(n))
    }

    /// The number `n`.
    pub fn signed(n: i64) -> (r: Json)
        ensures
            r@ == JsonV::Int(n as int),
    {
        if n < 0 {
            Json::Number(JsonNumber::NegInt(n))
        } else {
            Json::Number(JsonNumber::PosInt(n as u64))
        }
    }

    /// The real number whose decimal text is `text`.
    pub fn decimal(text: &str) -> (r: Json)
        ensures
            r@ == JsonV::Real(text@),
    {
        Json::Number(JsonNumber::Real(text.to_owned()))
    }

    /// The object with no members.
    pub fn object() -> (r: Json)
        ensures
            r@ == empty_object(),
    {
        Json::Object(Vec::new())
    }

    /// The array of `items`.
    pub fn array(items: Vec<Json>) -> (r: Json)
        ensures
            r@ == JsonV::Array(items_view(items@)),
    {
        Json::Array(items)
    }

    /// The member under `key`, where this is an object that has one.
    pub fn get(&self, key: &str) -> (r: Option<&Json>)
        ensures
            opt_ref_view(r) == self@.get(key@),
    {
        match self {
            Json::Object(entries) => {
                proof {
                    lemma_key_index(entries@, key@);
                }
                match find_key(entries, key) {
                    Some(i) => Some(&entries[i].1),
                    None => None,
                }
            },
            _ => None,
        }
    }

    /// Whether this is an object with a member under `key`.
    pub fn has(&self, key: &str) -> (r: bool)
        ensures
            r == self@.get(key@).is_some(),
    {
        self.get(key).is_some()
    }

    /// The text, where this is a string.
    pub fn as_str(&self) -> (r: Option<&str>)
        ensures
            r matches Some(s) ==> self@.as_str() == Some(s@),
            r is None ==> self@.as_str() is None,
    {
        match self {
            Json::Str(s) => Some(s.as_str()),
            _ => None,
        }
    }

    /// The flag, where this is a boolean.
    pub fn as_bool(&self) -> (r: Option<bool>)
        ensures
            r == self@.as_bool(),
    {
        match self {
            Json::Bool(b) => Some(*b),
            _ => None,
        }
    }

    /// The number, where this is an integer that fits in 64 unsigned bits.
    pub fn as_u64(&self) -> (r: Option<u64>)
        ensures
            r == self@.as_u64(),
    {
        match self {
            Json::Number(JsonNumber::PosInt(u)) => Some(*u),
            Json::Number(JsonNumber::NegInt(i)) => if *i >= 0 {
                Some(*i as u64)
            } else {
                None
            },
            _ => None,
        }
    }

    /// The number, where this is an integer that fits in 64 signed bits.
    pub fn as_i64(&self) -> (r: Option<i64>)
        ensures
            r == self@.as_i64(),
    {
        match self {
            Json::Number(JsonNumber::PosInt(u)) => if *u <= 0x7fff_ffff_ffff_ffff {
                Some(*u as i64)
            } else {
                None
            },
            Json::Number(JsonNumber::NegInt(i)) => Some(*i),
            _ => None,
        }
    }

    /// The items, where this is an array.
    pub fn as_array(&self) -> (r: Option<&Vec<Json>>)
        ensures
            r matches Some(items) ==> self@ == JsonV::Array(items_view(items@)) && *self
                == Json::Array(*items),
            r is None ==> self@.as_array() is None,
    {
        match self {
            Json::Array(items) => Some(items),
            _ => None,
        }
    }

    /// Whether this is `null`.
    pub fn is_null(&self) -> (r: bool)
        ensures
            r == (self@ is Null),
    {
        match self {
            Json::Null => true,
            _ => false,
        }
    }

    /// Whether this is an object.
    pub fn is_object(&self) -> (r: bool)
        ensures
            r == (self@ is Object),
    {
        match self {
            Json::Object(_) => true,
            _ => false,
        }
    }

    /// Whether this is an object with no member under another key than
    /// `key`.
    pub fn has_only(&self, key: &str) -> (r: bool)
        ensures
            r == self@.has_only(key@),
    {
        match self {
            Json::Object(entries) => {
                let mut i: usize = 0;
                while i < entries.len()
                    invariant
                        i <= entries.len(),
                        self@ == JsonV::Object(entries_view(entries@)),
                        forall|j: int| 0 <= j < i ==> entries@[j].0@ == key@,
                    decreases entries.len() - i,
                {
                    if !str_eq(entries[i].0.as_str(), key) {
                        proof {
                            let other = entries@[i as int].0@;
                            lemma_key_index(entries@, other);
                            if key_index(entries@, other) is None {
                                assert(entries@[i as int].0@ != other);
                            }
                            assert(entries_view(entries@).contains_key(other) && other != key@);
                            assert(self@->Object_0.contains_key(other));
                        }
                        return false;
                    }
                    i = i + 1;
                }
                proof {
                    assert forall|k: Seq<char>| #[trigger]
                        entries_view(entries@).contains_key(k) implies k == key@ by {
                        lemma_key_index(entries@, k);
                        let at = key_index(entries@, k)->0;
                        assert(entries@[at].0@ == k);
                    }
                }
                true
            },
            _ => false,
        }
    }

    /// The text of the member under `key`, where this is an object that has
    /// one and it is a string.
    pub fn get_str(&self, key: &str) -> (r: Option<&str>)
        ensures
            r matches Some(s) ==> self@.get(key@) matches Some(v) && v.as_str() == Some(s@),
            r is None ==> (self@.get(key@) matches Some(v) ==> v.as_str() is None),
    {
        match self.get(key) {
            Some(v) => v.as_str(),
            None => None,
        }
    }

    /// Puts `value` under `key`, where this is an object; else changes
    /// nothing.
    pub fn insert(&mut self, key: &str, value: Json)
        ensures
            final(self)@ == old(self)@.with(key@, value@),
    {
        match self {
            Json::Object(entries) => {
                let owned = key.to_owned();
                match find_key(entries, key) {
                    Some(i) => {
                        proof {
                            lemma_key_index(entries@, key@);
                            lemma_entries_update(entries@, i as int, (owned, value));
                        }
                        entries.set(i, (owned, value));
                    },
                    None => {
                        proof {
                            lemma_entries_push(entries@, (owned, value));
                        }
                        entries.push((owned, value));
                    },
                }
            },
            _ => {},
        }
    }

    /// Takes the member under `key` away, where this is an object; else
    /// changes nothing.
    pub fn remove(&mut self, key: &str)
        ensures
            final(self)@ == old(self)@.without(key@),
    {
        match self {
            Json::Object(entries) => {
                let ghost before = entries@;
                loop
                    invariant
                        entries_view(entries@).remove(key@) == entries_view(before).remove(key@),
                    ensures
                        entries_view(entries@) == entries_view(before).remove(key@),
                    decreases entries.len(),
                {
                    match find_key(entries, key) {
                        Some(i) => {
                            proof {
                                lemma_key_index(entries@, key@);
                                lemma_entries_remove(entries@, i as int, key@);
                            }
                            entries.remove(i);
                        },
                        None => {
                            proof {
                                lemma_key_index(entries@, key@);
                                assert(entries_view(entries@).remove(key@) =~= entries_view(
                                    entries@,
                                ));
                            }
                            break ;
                        },
                    }
                }
            },
            _ => {},
        }
    }
}

/// The string value with the text `s`.
pub open spec fn jstr(s: Seq<char>) -> JsonV {
    JsonV::Str(s)
}

/// The integer value `n`.
pub open spec fn jint(n: int) -> JsonV {
    JsonV::Int(n)
}

/// The views of a list of strings.
pub open spec fn strings_view(items: Seq<String>) -> Seq<Seq<char>> {
    Seq::new(items.len(), |i: int| items[i]@)
}

/// The array of the strings `items`.
pub open spec fn jstrings(items: Seq<Seq<char>>) -> JsonV {
    JsonV::Array(Seq::new(items.len(), |i: int| JsonV::Str(items[i])))
}

/// The array of the strings `items`.
pub fn string_array(items: &Vec<String>) -> (r: Json)
    ensures
        r@ == jstrings(strings_view(items@)),
{
    let mut out: Vec<Json> = Vec::new();
    let mut i: usize = 0;
    while i < items.len()
        invariant
            i <= items.len(),
            out@.len() == i,
            forall|j: int| 0 <= j < i ==> (#[trigger] out@[j])@ == JsonV::Str(items@[j]@),
        decreases items.len() - i,
    {
        out.push(Json::Str(items[i].clone()));
        i = i + 1;
    }
    proof {
        lemma_items_view(out@);
        assert(items_view(out@) =~= Seq::new(
            strings_view(items@).len(),
            |i: int| JsonV::Str(strings_view(items@)[i]),
        ));
    }
    Json::Array(out)
}

/// The array with the one item `item`.
pub fn singleton_array(item: Json) -> (r: Json)
    ensures
        r@ == JsonV::Array(seq![item@]),
{
    let mut out: Vec<Json> = Vec::new();
    out.push(item);
    proof {
        lemma_items_view(out@);
        assert(items_view(out@) =~= seq![item@]);
    }
    Json::Array(out)
}

/// The array with no items.
pub fn empty_array() -> (r: Json)
    ensures
        r@ == JsonV::Array(Seq::empty()),
{
    let out: Vec<Json> = Vec::new();
    Json::Array(out)
}

impl JsonV {
    /// This value with every member of `other` put over it, where both are
    /// objects; else this value.
    pub open spec fn overlaid(self, other: JsonV) -> JsonV {
        match (self, other) {
            (JsonV::Object(a), JsonV::Object(b)) => JsonV::Object(a.union_prefer_right(b)),
            _ => self,
        }
    }
}

impl Json {
    /// Puts every member of `other` over this value, where both are
    /// objects; else changes nothing.
    pub fn merge_from(&mut self, other: &Json)
        ensures
            final(self)@ == old(self)@.overlaid(other@),
    {
        if !self.is_object() {
            return ;
        }
        match other {
            Json::Object(entries) => {
                let ghost base = old(self)@->Object_0;
                let mut i: usize = 0;
                assert(entries@.take(0) =~= Seq::empty());
                assert(base.union_prefer_right(Map::empty()) =~= base);
                while i < entries.len()
                    invariant
                        i <= entries.len(),
                        self@ == JsonV::Object(
                            base.union_prefer_right(entries_view(entries@.take(i as int))),
                        ),
                    decreases entries.len() - i,
                {
                    let value = entries[i].1.clone();
                    proof {
                        let done = entries_view(entries@.take(i as int));
                        lemma_entries_push(entries@.take(i as int), entries@[i as int]);
                        assert(entries@.take(i + 1) == entries@.take(i as int).push(
                            entries@[i as int],
                        ));
                        assert(base.union_prefer_right(done).insert(entries@[i as int].0@, value@)
                            =~= base.union_prefer_right(
                            done.insert(entries@[i as int].0@, value@),
                        ));
                    }
                    self.insert(entries[i].0.as_str(), value);
                    i = i + 1;
                }
                assert(entries@.take(entries.len() as int) == entries@);
            },
            _ => {},
        }
    }
}

/// A JSON value as `serde_json` holds it.
#[verifier::external_type_specification]
#[verifier::external_body]
pub struct ExSerdeValue(Value);

/// The value that a text is as JSON, where it is JSON.
pub uninterp spec fn json_parse(text: Seq<char>) -> Option<JsonV>;

/// The text of a value as compact JSON.
pub uninterp spec fn json_text(value: JsonV) -> Seq<char>;

/// What a `serde_json::Value` holds.
pub uninterp spec fn serde_view(value: Value) -> JsonV;

/// The compact JSON text of a `serde_json::Value`.
pub uninterp spec fn serde_text(value: Value) -> Seq<char>;

/// What an optional `serde_json::Value` holds.
pub open spec fn opt_serde_view(value: Option<Value>) -> Option<JsonV> {
    match value {
        Some(v) => Some(serde_view(v)),
        None => None,
    }
}

/// `serde_json::from_str` for a `serde_json::Value`: the result holds the
/// value that `text` is as JSON, or is nothing where `text` is no JSON;
/// the contract gives that value a name.
#[verifier::external_body]
fn parse_value(text: &str) -> (r: Option<Value>)
    ensures
        opt_serde_view(r) == json_parse(text@),
{
    serde_json::from_str::<Value>(text).ok()
}

/// What reading some bytes as JSON gives: the value that they are, or the
/// complaint of `serde_json` where they are none.
pub uninterp spec fn json_parse_bytes(bytes: Seq<u8>) -> Result<JsonV, Seq<char>>;

/// What the outcome of reading with `serde_json` holds.
pub open spec fn serde_outcome(outcome: Result<Value, String>) -> Result<JsonV, Seq<char>> {
    match outcome {
        Ok(value) => Ok(serde_view(value)),
        Err(complaint) => Err(complaint@),
    }
}

/// `serde_json::from_slice` for a `serde_json::Value`: the result holds the
/// value that the bytes are as JSON, or else the error in its `Display`
/// form, which names what was expected and the line and column; the
/// contract gives the outcome a name.
#[verifier::external_body]
fn parse_slice(bytes: &[u8]) -> (r: Result<Value, String>)
    ensures
        serde_outcome(r) == json_parse_bytes(bytes@),
{
    match serde_json::from_slice::<Value>(bytes) {
        Ok(value) => Ok(value),
        Err(error) => Err(error.to_string()),
    }
}

/// Carries a `serde_json::Value` over, variant by variant: the result holds
/// what the value holds. A number is told apart with `Number::as_u64` and
/// `Number::as_i64`; any other number gives its decimal text, by its
/// `Display` form.
#[verifier::external_body]
fn json_of_serde(v: &Value) -> (r: Json)
    ensures
        r@ == serde_view(*v),
{
    match v {
        Value::Null => Json::Null,
        Value::Bool(b) => Json::Bool(*b),
        Value::Number(n) => Json::Number(match (n.as_u64(), n.as_i64()) {
            (Some(u), _) => JsonNumber::PosInt(u),
            (None, Some(i)) => JsonNumber::NegInt(i),
            (None, None) => JsonNumber::Real(n.to_string()),
        }),
        Value::String(s) => Json::Str(s.clone()),
        Value::Array(a) => Json::Array(a.iter().map(json_of_serde).collect()),
        Value::Object(o) => Json::Object(o.iter().map(|e| (e.0.clone(), json_of_serde(e.1))).collect()),
    }
}

/// Carries a `Json` over into a `serde_json::Value`, variant by variant; a
/// real number goes through `serde_json::from_str` on its decimal text. The
/// JSON text of the result is the JSON text of the value that was carried
/// over.
#[verifier::external_body]
fn serde_of_json(j: &Json) -> (r: Value)
    ensures
        serde_text(r) == json_text(j@),
{
    match j {
        Json::Null => Value::Null,
        Json::Bool(b) => Value::Bool(*b),
        Json::Number(JsonNumber::PosInt(u)) => Value::from(*u),
        Json::Number(JsonNumber::NegInt(i)) => Value::from(*i),
        Json::Number(JsonNumber::Real(t)) => serde_json::from_str(t).unwrap_or_default(),
        Json::Str(s) => Value::String(s.clone()),
        Json::Array(a) => Value::Array(a.iter().map(serde_of_json).collect()),
        Json::Object(o) => Value::Object(o.iter().map(|e| (e.0.clone(), serde_of_json(&e.1))).collect()),
    }
}

/// `serde_json::to_string` on a `serde_json::Value`: the result is the
/// compact JSON text of the value, with the members of an object in the
/// order of their keys; the contract gives it a name.
#[verifier::external_body]
fn write_value(value: &Value) -> (r: String)
    ensures
        r@ == serde_text(*value),
{
    serde_json::to_string(value).unwrap_or_default()
}

impl Json {
    /// The value that `text` is as JSON, where it is JSON.
    pub fn parse(text: &str) -> (r: Option<Json>)
        ensures
            opt_view(r) == json_parse(text@),
    {
        match parse_value(text) {
            Some(value) => Some(json_of_serde(&value)),
            None => None,
        }
    }

    /// The value that some bytes are as JSON, or the parser's complaint
    /// where they are none.
    pub fn parse_bytes(bytes: &[u8]) -> (r: Result<Json, String>)
        ensures
            match (r, json_parse_bytes(bytes@)) {
                (Ok(value), Ok(expected)) => value@ == expected,
                (Err(complaint), Err(expected)) => complaint@ == expected,
                _ => false,
            },
    {
        match parse_slice(bytes) {
            Ok(value) => Ok(json_of_serde(&value)),
            Err(complaint) => Err(complaint),
        }
    }

    /// This value as compact JSON text.
    pub fn to_text(&self) -> (r: String)
        ensures
            r@ == json_text(self@),
    {
        let value = serde_of_json(self);
        write_value(&value)
    }
}

/// Replacing an item replaces its view.
pub proof fn lemma_items_update(items: Seq<Json>, at: int, item: Json)
    requires
        0 <= at < items.len(),
    ensures
        items_view(items.update(at, item)) == items_view(items).update(at, item@),
{
    lemma_items_view(items);
    lemma_items_view(items.update(at, item));
    assert(items_view(items.update(at, item)) =~= items_view(items).update(at, item@));
}

/// The view of a list of items is the list of their views.
pub proof fn lemma_items_view_is(items: Seq<Json>, views: Seq<JsonV>)
    requires
        views.len() == items.len(),
        forall|i: int| 0 <= i < items.len() ==> views[i] == items[i]@,
    ensures
        items_view(items) == views,
{
    lemma_items_view(items);
    assert(items_view(items) =~= views);
}

} // verus!
