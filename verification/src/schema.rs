//! Reading typed fields out of a loosely typed document.
//!
//! A record is read from an object, field by name, or from an array, field
//! by position. A field that the document lacks is filled in only where the
//! record says how; a value of the wrong kind spoils the whole record.

use vstd::prelude::*;
use crate::json::{find_entry, lemma_view_unfold, lookup, Json, JsonNumber, JsonValue, Number};
use crate::timestamp::{utc_timestamp, Timestamp};

verus! {

/// What a document holds for one field of a record.
pub enum Field {
    /// The field's value.
    Found(Json),
    /// Nothing: the object lacks the key, or the array ends before the
    /// position.
    Absent,
    /// The document is neither an object nor an array.
    Broken,
}

/// What `doc` holds for the field with the name `key` and the position
/// `index`.
pub open spec fn field(doc: Json, key: Seq<char>, index: int) -> Field {
    match doc {
        Json::Object(entries) => match lookup(entries, key) {
            Some(v) => Field::Found(v),
            None => Field::Absent,
        },
        Json::Array(items) => if 0 <= index < items.len() {
            Field::Found(items[index])
        } else {
            Field::Absent
        },
        _ => Field::Broken,
    }
}

/// `doc` can hold a record of `fields` fields: it is an object, or an array
/// of no more items than the record has fields.
pub open spec fn holds_record(doc: Json, fields: nat) -> bool {
    match doc {
        Json::Object(_) => true,
        Json::Array(items) => items.len() <= fields,
        _ => false,
    }
}

/// A field that the record needs: it must be there.
pub open spec fn required<T>(f: Field, read: spec_fn(Json) -> Option<T>) -> Option<T> {
    match f {
        Field::Found(v) => read(v),
        _ => None,
    }
}

/// A field with a stand-in: where it is absent it has the value `default`.
pub open spec fn defaulted<T>(f: Field, read: spec_fn(Json) -> Option<T>, default: T) -> Option<
    T,
> {
    match f {
        Field::Found(v) => read(v),
        Field::Absent => Some(default),
        Field::Broken => None,
    }
}

/// A field that may be null. In an object it may also be absent.
pub open spec fn optional<T>(f: Field, in_object: bool, read: spec_fn(Json) -> Option<T>) -> Option<
    Option<T>,
> {
    match f {
        Field::Found(v) => nullable(v, read),
        Field::Absent => if in_object {
            Some(None)
        } else {
            None
        },
        Field::Broken => None,
    }
}

/// A value that may be null.
pub open spec fn nullable<T>(v: Json, read: spec_fn(Json) -> Option<T>) -> Option<Option<T>> {
    match v {
        Json::Null => Some(None),
        _ => match read(v) {
            Some(x) => Some(Some(x)),
            None => None,
        },
    }
}

/// The truth value that `v` is.
pub open spec fn as_bool(v: Json) -> Option<bool> {
    match v {
        Json::Bool(b) => Some(b),
        _ => None,
    }
}

/// The text that `v` is.
pub open spec fn as_text(v: Json) -> Option<Seq<char>> {
    match v {
        Json::Str(s) => Some(s),
        _ => None,
    }
}

/// The whole number between `low` and `high` that `v` is.
pub open spec fn as_int(v: Json, low: int, high: int) -> Option<int> {
    match v {
        Json::Number(Number::Int(n)) => if low <= n <= high {
            Some(n)
        } else {
            None
        },
        _ => None,
    }
}

/// The unsigned 64-bit number that `v` is.
pub open spec fn as_u64(v: Json) -> Option<u64> {
    match as_int(v, 0, u64::MAX as int) {
        Some(n) => Some(n as u64),
        None => None,
    }
}

/// The unsigned 32-bit number that `v` is.
pub open spec fn as_u32(v: Json) -> Option<u32> {
    match as_int(v, 0, u32::MAX as int) {
        Some(n) => Some(n as u32),
        None => None,
    }
}

/// The signed 32-bit number that `v` is.
pub open spec fn as_i32(v: Json) -> Option<i32> {
    match as_int(v, i32::MIN as int, i32::MAX as int) {
        Some(n) => Some(n as i32),
        None => None,
    }
}

/// The instant that the text `v` spells, in UTC.
pub open spec fn as_timestamp(v: Json) -> Option<Seq<char>> {
    match v {
        Json::Str(s) => utc_timestamp(s),
        _ => None,
    }
}

/// What a document holds for one field of a record.
pub enum FieldRef<'a> {
    Found(&'a JsonValue),
    Absent,
    Broken,
}

impl<'a> View for FieldRef<'a> {
    type V = Field;

    open spec fn view(&self) -> Field {
        match self {
            FieldRef::Found(v) => Field::Found(v@),
            FieldRef::Absent => Field::Absent,
            FieldRef::Broken => Field::Broken,
        }
    }
}

/// Looks in `doc` for the field with the name `key` and the position
/// `index`.
pub fn get_field<'a>(doc: &'a JsonValue, key: &str, index: usize) -> (r: FieldRef<'a>)
    ensures
        r@ == field(doc@, key@, index as int),
{
    proof {
        lemma_view_unfold(*doc);
    }
    match doc {
        JsonValue::Object(entries) => match find_entry(entries, key) {
            Some(i) => FieldRef::Found(&entries[i].value),
            None => FieldRef::Absent,
        },
        JsonValue::Array(items) => if index < items.len() {
            FieldRef::Found(&items[index])
        } else {
            FieldRef::Absent
        },
        _ => FieldRef::Broken,
    }
}

/// Whether `doc` can hold a record of `fields` fields.
pub fn can_hold_record(doc: &JsonValue, fields: usize) -> (r: bool)
    ensures
        r == holds_record(doc@, fields as nat),
{
    proof {
        lemma_view_unfold(*doc);
    }
    match doc {
        JsonValue::Object(_) => true,
        JsonValue::Array(items) => items.len() <= fields,
        _ => false,
    }
}

/// Whether `doc` is an object.
pub fn is_object(doc: &JsonValue) -> (r: bool)
    ensures
        r == (doc@ is Object),
{
    match doc {
        JsonValue::Object(_) => true,
        _ => false,
    }
}

/// Whether `doc` is null.
pub fn is_null(doc: &JsonValue) -> (r: bool)
    ensures
        r == (doc@ is Null),
{
    match doc {
        JsonValue::Null => true,
        _ => false,
    }
}

/// Reads a truth value.
pub fn read_bool(v: &JsonValue) -> (r: Option<bool>)
    ensures
        r == as_bool(v@),
{
    match v {
        JsonValue::Bool(b) => Some(*b),
        _ => None,
    }
}

/// Reads a text.
pub fn read_text(v: &JsonValue) -> (r: Option<String>)
    ensures
        r matches Some(s) ==> as_text(v@) == Some(s@),
        r is None ==> as_text(v@) is None,
{
    match v {
        JsonValue::Str(s) => Some(s.clone()),
        _ => None,
    }
}

/// Reads an unsigned 64-bit number.
pub fn read_u64(v: &JsonValue) -> (r: Option<u64>)
    ensures
        r == as_u64(v@),
{
    match v {
        JsonValue::Number(JsonNumber::PosInt(u)) => Some(*u),
        JsonValue::Number(JsonNumber::NegInt(i)) => if *i >= 0 {
            Some(*i as u64)
        } else {
            None
        },
        _ => None,
    }
}

/// Reads an unsigned 32-bit number.
pub fn read_u32(v: &JsonValue) -> (r: Option<u32>)
    ensures
        r == as_u32(v@),
{
    match v {
        JsonValue::Number(JsonNumber::PosInt(u)) => if *u <= u32::MAX as u64 {
            Some(*u as u32)
        } else {
            None
        },
        JsonValue::Number(JsonNumber::NegInt(i)) => if 0 <= *i && *i <= u32::MAX as i64 {
            Some(*i as u32)
        } else {
            None
        },
        _ => None,
    }
}

/// Reads a signed 32-bit number.
pub fn read_i32(v: &JsonValue) -> (r: Option<i32>)
    ensures
        r == as_i32(v@),
{
    match v {
        JsonValue::Number(JsonNumber::PosInt(u)) => if *u <= i32::MAX as u64 {
            Some(*u as i32)
        } else {
            None
        },
        JsonValue::Number(JsonNumber::NegInt(i)) => if i32::MIN as i64 <= *i && *i
            <= i32::MAX as i64 {
            Some(*i as i32)
        } else {
            None
        },
        _ => None,
    }
}

/// Reads an instant from its text.
pub fn read_timestamp(v: &JsonValue) -> (r: Option<Timestamp>)
    ensures
        r matches Some(t) ==> as_timestamp(v@) == Some(t@),
        r is None ==> as_timestamp(v@) is None,
{
    match v {
        JsonValue::Str(s) => Timestamp::parse(s.as_str()),
        _ => None,
    }
}

} // verus!
