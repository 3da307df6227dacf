//! A JSON document as plain values, with the lookups that `serde_json::Value` offers.

use vstd::prelude::*;

verus! {

/// A JSON value. Objects keep their members in order, each name once, as `serde_json::Map`
/// holds them.
#[derive(Debug)]
pub enum JsonValue {
    Null,
    Bool(bool),
    /// A number, with its value when it is a whole number that fits an `i64`
    /// (what `serde_json::Number::as_i64` gives).
    Number(Option<i64>),
    Text(String),
    Array(Vec<JsonValue>),
    Object(Vec<(String, JsonValue)>),
}

/// The value of the first member named `key` (`Map::get`).
pub open spec fn entry_spec(entries: Seq<(String, JsonValue)>, key: Seq<char>) -> Option<JsonValue>
    decreases entries.len(),
{
    if entries.len() == 0 {
        None
    } else if entries[0].0@ == key {
        Some(entries[0].1)
    } else {
        entry_spec(entries.drop_first(), key)
    }
}

/// The member `key` of an object; nothing for any other value (`Value::get` with a name).
pub open spec fn member_spec(v: JsonValue, key: Seq<char>) -> Option<JsonValue> {
    match v {
        JsonValue::Object(entries) => entry_spec(entries@, key),
        _ => None,
    }
}

/// The items of an array (`Value::as_array`).
pub open spec fn items_spec(v: JsonValue) -> Option<Seq<JsonValue>> {
    match v {
        JsonValue::Array(items) => Some(items@),
        _ => None,
    }
}

/// The members of an object (`Value::as_object`).
pub open spec fn entries_spec(v: JsonValue) -> Option<Seq<(String, JsonValue)>> {
    match v {
        JsonValue::Object(entries) => Some(entries@),
        _ => None,
    }
}

/// The value of the first member named `key`.
pub fn entry<'a>(entries: &'a Vec<(String, JsonValue)>, key: &String) -> (res: Option<&'a JsonValue>)
    ensures
        match res {
            Some(r) => entry_spec(entries@, key@) == Some(*r),
            None => entry_spec(entries@, key@) is None,
        },
{
    let n = entries.len();
    let mut i: usize = 0;
    assert(entries@.subrange(0, n as int) =~= entries@);
    while i < n
        invariant
            i <= n,
            n == entries@.len(),
            entry_spec(entries@, key@) == entry_spec(entries@.subrange(i as int, n as int), key@),
        decreases n - i,
    {
        assert(entries@.subrange(i as int, n as int).drop_first() =~= entries@.subrange(
            i + 1,
            n as int,
        ));
        if entries[i].0 == *key {
            return Some(&entries[i].1);
        }
        i = i + 1;
    }
    None
}

/// The member `key` of an object.
pub fn member<'a>(v: &'a JsonValue, key: &String) -> (res: Option<&'a JsonValue>)
    ensures
        match res {
            Some(r) => member_spec(*v, key@) == Some(*r),
            None => member_spec(*v, key@) is None,
        },
{
    match v {
        JsonValue::Object(entries) => entry(entries, key),
        _ => None,
    }
}

/// The items of an array.
pub fn items(v: &JsonValue) -> (res: Option<&Vec<JsonValue>>)
    ensures
        match res {
            Some(r) => items_spec(*v) == Some(r@),
            None => items_spec(*v) is None,
        },
{
    match v {
        JsonValue::Array(items) => Some(items),
        _ => None,
    }
}

/// The members of an object.
pub fn entries(v: &JsonValue) -> (res: Option<&Vec<(String, JsonValue)>>)
    ensures
        match res {
            Some(r) => entries_spec(*v) == Some(r@),
            None => entries_spec(*v) is None,
        },
{
    match v {
        JsonValue::Object(entries) => Some(entries),
        _ => None,
    }
}

} // verus!
