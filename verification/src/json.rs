//! Loosely typed documents.

use serde_json::Value;
use vstd::prelude::*;
use crate::json::JsonNumber::{Float, NegInt, PosInt};
use crate::json::JsonValue::{Array, Bool, Null, Object, Str};
use crate::text::same_text;

verus! {

/// A number of a document, as mathematics sees it.
pub enum Number {
    /// A whole number.
    Int(int),
    /// A number with a fraction or an exponent, by its shortest text.
    Float(Seq<char>),
}

/// A document, as mathematics sees it.
pub enum Json {
    Null,
    Bool(bool),
    Number(Number),
    Str(Seq<char>),
    Array(Seq<Json>),
    Object(Seq<Member>),
}

/// One entry of an object, as mathematics sees it.
pub struct Member {
    pub key: Seq<char>,
    pub value: Json,
}

/// A number of a document.
#[derive(Clone, Debug, PartialEq, Eq)]
pub enum JsonNumber {
    /// A whole number that is not negative.
    PosInt(u64),
    /// A whole number below zero.
    NegInt(i64),
    /// A number with a fraction or an exponent, held by its text.
    Float(String),
}

/// A loosely typed document: what a configuration file holds before it is
/// read into the typed configuration. An object is held as the list of its
/// entries; a document that was read from a text holds each key once.
#[derive(Debug, PartialEq, Eq)]
pub enum JsonValue {
    Null,
    Bool(bool),
    Number(JsonNumber),
    Str(String),
    Array(Vec<JsonValue>),
    Object(Vec<JsonEntry>),
}

/// One entry of an object: a key and the document under it.
#[derive(Debug, PartialEq, Eq)]
pub struct JsonEntry {
    pub key: String,
    pub value: JsonValue,
}

impl View for JsonNumber {
    type V = Number;

    open spec fn view(&self) -> Number {
        match self {
            JsonNumber::PosInt(u) => Number::Int(*u as int),
            JsonNumber::NegInt(i) => Number::Int(*i as int),
            JsonNumber::Float(s) => Number::Float(s@),
        }
    }
}

impl View for JsonValue {
    type V = Json;

    open spec fn view(&self) -> Json
        decreases self,
    {
        match self {
            JsonValue::Null => Json::Null,
            JsonValue::Bool(b) => Json::Bool(*b),
            JsonValue::Number(n) => Json::Number(n@),
            JsonValue::Str(s) => Json::Str(s@),
            JsonValue::Array(items) => Json::Array(
                Seq::new(items@.len(), |i: int| if 0 <= i < items@.len() { items@[i]@ } else { Json::Null }),
            ),
            JsonValue::Object(entries) => Json::Object(
                Seq::new(
                    entries@.len(),
                    |i: int|
                        if 0 <= i < entries@.len() {
                            Member { key: entries@[i].key@, value: entries@[i].value@ }
                        } else {
                            Member { key: Seq::empty(), value: Json::Null }
                        },
                ),
            ),
        }
    }
}

impl JsonValue {
    /// A copy of the document.
    pub fn duplicate(&self) -> (r: JsonValue)
        ensures
            r@ == self@,
        decreases self,
    {
        match self {
            JsonValue::Null => JsonValue::Null,
            JsonValue::Bool(b) => JsonValue::Bool(*b),
            JsonValue::Number(n) => JsonValue::Number(
                match n {
                    JsonNumber::PosInt(u) => JsonNumber::PosInt(*u),
                    JsonNumber::NegInt(i) => JsonNumber::NegInt(*i),
                    JsonNumber::Float(s) => JsonNumber::Float(s.clone()),
                },
            ),
            JsonValue::Str(s) => JsonValue::Str(s.clone()),
            JsonValue::Array(items) => {
                let mut out: Vec<JsonValue> = Vec::new();
                let mut i: usize = 0;
                while i < items.len()
                    invariant
                        *self == JsonValue::Array(*items),
                        i <= items.len(),
                        out@.len() == i,
                        forall|j: int| 0 <= j < i ==> out@[j]@ == items@[j]@,
                    decreases items.len() - i,
                {
                    assert(decreases_to!(*self => self->Array_0));
                    assert(decreases_to!(self->Array_0 => self->Array_0[i as int]));
                    out.push(items[i].duplicate());
                    i += 1;
                }
                let r = JsonValue::Array(out);
                assert(r@->Array_0 =~= self@->Array_0);
                r
            },
            JsonValue::Object(entries) => {
                let mut out: Vec<JsonEntry> = Vec::new();
                let mut i: usize = 0;
                while i < entries.len()
                    invariant
                        *self == JsonValue::Object(*entries),
                        i <= entries.len(),
                        out@.len() == i,
                        forall|j: int|
                            0 <= j < i ==> out@[j].key@ == entries@[j].key@ && out@[j].value@
                                == entries@[j].value@,
                    decreases entries.len() - i,
                {
                    assert(decreases_to!(*self => self->Object_0));
                    assert(decreases_to!(self->Object_0 => self->Object_0[i as int]));
                    assert(decreases_to!(self->Object_0[i as int] => self->Object_0[i as int].value));
                    out.push(JsonEntry { key: entries[i].key.clone(), value: entries[i].value.duplicate() });
                    i += 1;
                }
                let r = JsonValue::Object(out);
                assert(r@->Object_0 =~= self@->Object_0);
                r
            },
        }
    }
}

/// The value under the first entry of `entries` whose key is `key`.
pub open spec fn lookup(entries: Seq<Member>, key: Seq<char>) -> Option<Json>
    decreases entries.len(),
{
    if entries.len() == 0 {
        None
    } else if entries[0].key == key {
        Some(entries[0].value)
    } else {
        lookup(entries.drop_first(), key)
    }
}

/// The keys of `entries`, in order.
pub open spec fn keys(entries: Seq<Member>) -> Seq<Seq<char>> {
    Seq::new(entries.len(), |i: int| entries[i].key)
}

/// `lookup` finds the first entry with the key, and nothing exactly when
/// no entry has it.
pub proof fn lemma_lookup(entries: Seq<Member>, key: Seq<char>)
    ensures
        match lookup(entries, key) {
            Some(v) => exists|i: int|
                0 <= i < entries.len() && entries[i].key == key && entries[i].value == v && forall|j: int|
                    0 <= j < i ==> entries[j].key != key,
            None => forall|i: int| 0 <= i < entries.len() ==> entries[i].key != key,
        },
    decreases entries.len(),
{
    if entries.len() == 0 {
    } else if entries[0].key == key {
        assert(forall|j: int| 0 <= j < 0 ==> entries[j].key != key);
    } else {
        let rest = entries.drop_first();
        lemma_lookup(rest, key);
        match lookup(rest, key) {
            Some(v) => {
                let i = choose|i: int|
                    0 <= i < rest.len() && rest[i].key == key && rest[i].value == v && forall|j: int|
                        0 <= j < i ==> rest[j].key != key;
                assert forall|j: int| 0 <= j < i + 1 implies entries[j].key != key by {
                    if j > 0 {
                        assert(rest[j - 1].key != key);
                    }
                }
                assert(entries[i + 1].key == key && entries[i + 1].value == v);
            },
            None => {
                assert forall|i: int| 0 <= i < entries.len() implies entries[i].key != key by {
                    if i > 0 {
                        assert(rest[i - 1].key != key);
                    }
                }
            },
        }
    }
}

/// The model of a list of entries.
pub open spec fn entries_view(entries: Seq<JsonEntry>) -> Seq<Member> {
    Seq::new(entries.len(), |i: int| Member { key: entries[i].key@, value: entries[i].value@ })
}

/// The model of a list of documents.
pub open spec fn items_view(items: Seq<JsonValue>) -> Seq<Json> {
    Seq::new(items.len(), |i: int| items[i]@)
}

/// The position of the first entry of `entries` whose key is `key`.
pub fn find_entry(entries: &Vec<JsonEntry>, key: &str) -> (r: Option<usize>)
    ensures
        match r {
            Some(i) => i < entries@.len() && lookup(entries_view(entries@), key@) == Some(
                entries@[i as int].value@,
            ),
            None => lookup(entries_view(entries@), key@) is None,
        },
{
    let ghost all = entries_view(entries@);
    let mut i: usize = 0;
    assert(all.skip(0) =~= all);
    while i < entries.len()
        invariant
            i <= entries.len(),
            all == entries_view(entries@),
            lookup(all, key@) == lookup(all.skip(i as int), key@),
        decreases entries.len() - i,
    {
        assert(all.skip(i as int)[0] == all[i as int]);
        if same_text(entries[i].key.as_str(), key) {
            return Some(i);
        }
        assert(all.skip(i as int).drop_first() =~= all.skip(i + 1));
        i += 1;
    }
    None
}

/// The model of an object is the object of its entries' models, and the
/// model of an array the array of its items' models.
pub proof fn lemma_view_unfold(doc: JsonValue)
    ensures
        doc matches JsonValue::Object(entries) ==> doc@ == Json::Object(entries_view(entries@)),
        doc matches JsonValue::Array(items) ==> doc@ == Json::Array(items_view(items@)),
{
    match doc {
        JsonValue::Object(entries) => {
            assert(doc@ matches Json::Object(x) && x =~= entries_view(entries@));
        },
        JsonValue::Array(items) => {
            assert(doc@ matches Json::Array(x) && x =~= items_view(items@));
        },
        _ => {},
    }
}

/// An entry whose key no earlier entry has is the one that `lookup` finds.
pub proof fn lemma_lookup_at(entries: Seq<Member>, key: Seq<char>, i: int)
    requires
        0 <= i < entries.len(),
        entries[i].key == key,
        forall|j: int| 0 <= j < i ==> entries[j].key != key,
    ensures
        lookup(entries, key) == Some(entries[i].value),
    decreases i,
{
    if i > 0 {
        let rest = entries.drop_first();
        assert forall|j: int| 0 <= j < i - 1 implies rest[j].key != key by {
            assert(rest[j] == entries[j + 1]);
        }
        lemma_lookup_at(rest, key, i - 1);
    }
}

/// A key that no entry has is one that `lookup` does not find.
pub proof fn lemma_lookup_none(entries: Seq<Member>, key: Seq<char>)
    requires
        forall|j: int| 0 <= j < entries.len() ==> entries[j].key != key,
    ensures
        lookup(entries, key) is None,
    decreases entries.len(),
{
    if entries.len() > 0 {
        let rest = entries.drop_first();
        assert forall|j: int| 0 <= j < rest.len() implies rest[j].key != key by {
            assert(rest[j] == entries[j + 1]);
        }
        lemma_lookup_none(rest, key);
    }
}

/// No object in the document, at any depth, holds a key twice.
pub open spec fn distinct_keys(doc: Json) -> bool
    decreases doc,
{
    match doc {
        Json::Object(entries) => {
            &&& forall|i: int, j: int|
                0 <= i < j < entries.len() ==> entries[i].key != entries[j].key
            &&& forall|i: int| 0 <= i < entries.len() ==> distinct_keys(#[trigger] entries[i].value)
        },
        Json::Array(items) => forall|i: int| 0 <= i < items.len() ==> distinct_keys(#[trigger] items[i]),
        _ => true,
    }
}

/// `serde_json::Value`, the tree that the JSON reader and writer work on.
#[verifier::external_type_specification]
#[verifier::external_body]
pub struct ExValue(serde_json::Value);

/// What `serde_json::from_str` reads from `text` as a value, and nothing
/// where it reports an error.
pub uninterp spec fn parsed_value(text: Seq<char>) -> Option<Value>;

/// The document that the value `value` holds.
pub uninterp spec fn value_json(value: Value) -> Json;

/// The value that is built from the document `doc`; nothing where the
/// document holds a number by a text that `serde_json` does not read as a
/// number.
pub uninterp spec fn json_value(doc: Json) -> Option<Value>;

/// What `serde_json::to_string_pretty` writes for `value`, and nothing where
/// it reports an error.
pub uninterp spec fn pretty_text(value: Value) -> Option<Seq<char>>;

/// Calls `serde_json::from_str` for a `Value`. The reader is a
/// function of the text alone; its grammar is not restated here.
#[verifier::external_body]
fn read_value(text: &str) -> (r: Option<Value>)
    ensures
        r == parsed_value(text@),
{
    serde_json::from_str::<Value>(text).ok()
}

/// Copies a `Value` into a document, variant by variant and
/// item by item. A number comes over as a whole number where the value
/// holds one, else by the text that `serde_json` prints for it. The map of
/// an object hands out each of its keys once, so no object of the document
/// holds a key twice.
#[verifier::external_body]
fn document_of(value: &Value) -> (doc: JsonValue)
    ensures
        doc@ == value_json(*value),
        distinct_keys(doc@),
{
    match value {
        Value::Null => Null,
        Value::Bool(b) => Bool(*b),
        Value::Number(n) => JsonValue::Number(match (n.as_u64(), n.as_i64()) {
            (Some(u), _) => PosInt(u),
            (_, Some(i)) => NegInt(i),
            _ => Float(n.to_string()),
        }),
        Value::String(s) => Str(s.clone()),
        Value::Array(a) => Array(a.iter().map(document_of).collect()),
        Value::Object(m) => Object(
            m.iter().map(|(k, v)| JsonEntry { key: k.clone(), value: document_of(v) }).collect(),
        ),
    }
}

/// Copies a document into a `Value`, variant by variant and item by item.
/// The entries of an object are collected into the crate's map, which keeps
/// one value for each key. A number held by its text is read back with
/// `serde_json`'s own `FromStr`; where that reports an error, at any depth,
/// there is no value.
#[verifier::external_body]
fn value_of(doc: &JsonValue) -> (value: Option<Value>)
    ensures
        value == json_value(doc@),
{
    Some(match doc {
        Null => Value::Null,
        Bool(b) => Value::Bool(*b),
        JsonValue::Number(PosInt(u)) => Value::from(*u),
        JsonValue::Number(NegInt(i)) => Value::from(*i),
        JsonValue::Number(Float(t)) => Value::Number(t.parse().ok()?),
        Str(s) => Value::String(s.clone()),
        Array(a) => Value::Array(a.iter().map(value_of).collect::<Option<_>>()?),
        Object(o) => Value::Object(
            o.iter().map(|e| Some((e.key.clone(), value_of(&e.value)?))).collect::<Option<_>>()?,
        ),
    })
}

/// Calls `serde_json::to_string_pretty` on a value.
#[verifier::external_body]
fn write_pretty(value: &Value) -> (r: Option<String>)
    ensures
        r matches Some(text) ==> pretty_text(*value) == Some(text@),
        r is None ==> pretty_text(*value) is None,
{
    serde_json::to_string_pretty(value).ok()
}

/// The document that `text` spells, read as JSON; nothing where `text` is
/// no JSON document.
pub open spec fn parsed_json(text: Seq<char>) -> Option<Json> {
    match parsed_value(text) {
        Some(value) => Some(value_json(value)),
        None => None,
    }
}

/// The pretty-printed JSON text of the document `doc`; nothing where the
/// document has no value to print, or the printer reports an error.
pub open spec fn pretty_json(doc: Json) -> Option<Seq<char>> {
    match json_value(doc) {
        Some(value) => pretty_text(value),
        None => None,
    }
}

impl JsonValue {
    /// Reads a JSON text. No object of the document read holds a key
    /// twice: of a key that the text gives more than once, the last value
    /// is kept.
    pub fn parse(text: &str) -> (r: Option<JsonValue>)
        ensures
            r matches Some(doc) ==> parsed_json(text@) == Some(doc@) && distinct_keys(doc@),
            r is None ==> parsed_json(text@) is None,
    {
        match read_value(text) {
            Some(value) => Some(document_of(&value)),
            None => None,
        }
    }

    /// Writes the document as pretty-printed JSON text.
    pub fn to_pretty_text(&self) -> (r: Option<String>)
        ensures
            r matches Some(text) ==> pretty_json(self@) == Some(text@),
            r is None ==> pretty_json(self@) is None,
    {
        match value_of(self) {
            Some(value) => write_pretty(&value),
            None => None,
        }
    }
}

} // verus!
