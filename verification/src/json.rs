//! A JSON document model and the read accessors that resource extraction uses.
//!
//! Objects keep their members in order; a lookup by key finds the first member
//! with that key, as a map with unique keys would.
use vstd::prelude::*;
use crate::text::{str_eq, owned};

verus! {

/// A JSON number: a non-negative integer, a negative integer, or a number
/// with a fraction or exponent, kept as its decimal text.
pub enum JsonNumber {
    PosInt(u64),
    NegInt(i64),
    Float(String),
}

/// A JSON value.
pub enum JsonValue {
    Null,
    Bool(bool),
    Number(JsonNumber),
    Str(String),
    Array(Vec<JsonValue>),
    Object(Vec<(String, JsonValue)>),
}

// ---------------------------------------------------------------------------
// Specification of the accessors
// ---------------------------------------------------------------------------

/// The value of the first member of `entries` whose key is `key`.
pub open spec fn lookup(entries: Seq<(String, JsonValue)>, key: Seq<char>) -> Option<JsonValue>
    decreases entries.len(),
{
    if entries.len() == 0 {
        None
    } else if entries[0].0@ == key {
        Some(entries[0].1)
    } else {
        lookup(entries.skip(1), key)
    }
}

/// Member `key` of `v` when `v` is an object (what `Value::get` returns).
pub open spec fn field(v: JsonValue, key: Seq<char>) -> Option<JsonValue> {
    match v {
        JsonValue::Object(entries) => lookup(entries@, key),
        _ => None,
    }
}

/// Member `key` of an optional value.
pub open spec fn field_of(v: Option<JsonValue>, key: Seq<char>) -> Option<JsonValue> {
    match v {
        Some(x) => field(x, key),
        None => None,
    }
}

/// The text of a string value (what `Value::as_str` returns).
pub open spec fn as_str(v: JsonValue) -> Option<Seq<char>> {
    match v {
        JsonValue::Str(s) => Some(s@),
        _ => None,
    }
}

/// An integer value that fits in `i64` (what `Value::as_i64` returns).
pub open spec fn as_i64(v: JsonValue) -> Option<i64> {
    match v {
        JsonValue::Number(JsonNumber::PosInt(n)) => if n <= i64::MAX as u64 {
            Some(n as i64)
        } else {
            None
        },
        JsonValue::Number(JsonNumber::NegInt(n)) => Some(n),
        _ => None,
    }
}

/// A boolean value (what `Value::as_bool` returns).
pub open spec fn as_bool(v: JsonValue) -> Option<bool> {
    match v {
        JsonValue::Bool(b) => Some(b),
        _ => None,
    }
}

/// The items of an array value (what `Value::as_array` returns).
pub open spec fn as_array(v: JsonValue) -> Option<Seq<JsonValue>> {
    match v {
        JsonValue::Array(items) => Some(items@),
        _ => None,
    }
}

/// Text of member `key` of an optional value, when that member is a string.
pub open spec fn str_at(v: Option<JsonValue>, key: Seq<char>) -> Option<Seq<char>> {
    match field_of(v, key) {
        Some(x) => as_str(x),
        None => None,
    }
}

/// Integer member `key` of an optional value.
pub open spec fn i64_at(v: Option<JsonValue>, key: Seq<char>) -> Option<i64> {
    match field_of(v, key) {
        Some(x) => as_i64(x),
        None => None,
    }
}

/// Boolean member `key` of an optional value.
pub open spec fn bool_at(v: Option<JsonValue>, key: Seq<char>) -> Option<bool> {
    match field_of(v, key) {
        Some(x) => as_bool(x),
        None => None,
    }
}

/// Array member `key` of an optional value.
pub open spec fn array_at(v: Option<JsonValue>, key: Seq<char>) -> Option<Seq<JsonValue>> {
    match field_of(v, key) {
        Some(x) => as_array(x),
        None => None,
    }
}

/// An optional reference, read as an optional value.
pub open spec fn deref_opt(r: Option<&JsonValue>) -> Option<JsonValue> {
    match r {
        Some(x) => Some(*x),
        None => None,
    }
}

/// Two values that hold the same data (strings compared by their text).
pub open spec fn same_json(a: JsonValue, b: JsonValue) -> bool
    decreases a,
{
    match a {
        JsonValue::Null => b is Null,
        JsonValue::Bool(x) => b == JsonValue::Bool(x),
        JsonValue::Number(JsonNumber::PosInt(n)) => b == JsonValue::Number(JsonNumber::PosInt(n)),
        JsonValue::Number(JsonNumber::NegInt(n)) => b == JsonValue::Number(JsonNumber::NegInt(n)),
        JsonValue::Number(JsonNumber::Float(t)) => match b {
            JsonValue::Number(JsonNumber::Float(u)) => t@ == u@,
            _ => false,
        },
        JsonValue::Str(s) => match b {
            JsonValue::Str(u) => s@ == u@,
            _ => false,
        },
        JsonValue::Array(xs) => match b {
            JsonValue::Array(ys) => {
                &&& xs@.len() == ys@.len()
                &&& forall|i: int|
                    0 <= i < xs@.len() ==> same_json(#[trigger] xs@[i], ys@[i])
            },
            _ => false,
        },
        JsonValue::Object(xs) => match b {
            JsonValue::Object(ys) => {
                &&& xs@.len() == ys@.len()
                &&& forall|i: int|
                    0 <= i < xs@.len() ==> {
                        &&& (#[trigger] xs@[i]).0@ == ys@[i].0@
                        &&& same_json(xs@[i].1, ys@[i].1)
                    }
            },
            _ => false,
        },
    }
}

// ---------------------------------------------------------------------------
// Accessors
// ---------------------------------------------------------------------------

impl JsonValue {
    /// Member `key` when `self` is an object.
    pub fn get(&self, key: &str) -> (r: Option<&JsonValue>)
        ensures
            deref_opt(r) == field(*self, key@),
    {
        match self {
            JsonValue::Object(entries) => {
                let mut i: usize = 0;
                assert(entries@.skip(0) =~= entries@);
                while i < entries.len()
                    invariant
                        i <= entries.len(),
                        field(*self, key@) == lookup(entries@, key@),
                        lookup(entries@, key@) == lookup(entries@.skip(i as int), key@),
                    decreases entries.len() - i,
                {
                    assert(entries@.skip(i as int)[0] == entries@[i as int]);
                    assert(entries@.skip(i as int).len() > 0);
                    if str_eq(entries[i].0.as_str(), key) {
                        let e = &entries[i];
                        assert(lookup(entries@.skip(i as int), key@) == Some(e.1));
                        return Some(&e.1);
                    }
                    assert(entries@.skip(i as int).skip(1) =~= entries@.skip(i + 1));
                    i = i + 1;
                }
                None
            },
            _ => None,
        }
    }

    /// The text of a string value.
    pub fn as_str(&self) -> (r: Option<&String>)
        ensures
            match r {
                Some(s) => as_str(*self) == Some(s@),
                None => as_str(*self) is None,
            },
    {
        match self {
            JsonValue::Str(s) => Some(s),
            _ => None,
        }
    }

    /// The value of an integer that fits in `i64`.
    pub fn as_i64(&self) -> (r: Option<i64>)
        ensures
            r == as_i64(*self),
    {
        match self {
            JsonValue::Number(JsonNumber::PosInt(n)) => {
                if *n <= 9223372036854775807u64 {
                    Some(*n as i64)
                } else {
                    None
                }
            },
            JsonValue::Number(JsonNumber::NegInt(n)) => Some(*n),
            _ => None,
        }
    }

    /// The value of a boolean.
    pub fn as_bool(&self) -> (r: Option<bool>)
        ensures
            r == as_bool(*self),
    {
        match self {
            JsonValue::Bool(b) => Some(*b),
            _ => None,
        }
    }

    /// The items of an array.
    pub fn as_array(&self) -> (r: Option<&Vec<JsonValue>>)
        ensures
            match r {
                Some(items) => as_array(*self) == Some(items@),
                None => as_array(*self) is None,
            },
    {
        match self {
            JsonValue::Array(items) => Some(items),
            _ => None,
        }
    }
}

/// Member `key` of an optional value.
pub fn get_in<'a>(v: Option<&'a JsonValue>, key: &str) -> (r: Option<&'a JsonValue>)
    ensures
        deref_opt(r) == field_of(deref_opt(v), key@),
{
    match v {
        Some(x) => x.get(key),
        None => None,
    }
}

/// Text of member `key` of an optional value, as an owned string.
pub fn str_in(v: Option<&JsonValue>, key: &str) -> (r: Option<String>)
    ensures
        r.deep_view() == str_at(deref_opt(v), key@),
{
    match get_in(v, key) {
        Some(x) => match x.as_str() {
            Some(s) => Some(owned(s.as_str())),
            None => None,
        },
        None => None,
    }
}

/// Integer member `key` of an optional value.
pub fn i64_in(v: Option<&JsonValue>, key: &str) -> (r: Option<i64>)
    ensures
        r == i64_at(deref_opt(v), key@),
{
    match get_in(v, key) {
        Some(x) => x.as_i64(),
        None => None,
    }
}

/// Boolean member `key` of an optional value.
pub fn bool_in(v: Option<&JsonValue>, key: &str) -> (r: Option<bool>)
    ensures
        r == bool_at(deref_opt(v), key@),
{
    match get_in(v, key) {
        Some(x) => x.as_bool(),
        None => None,
    }
}

/// Array member `key` of an optional value.
pub fn array_in<'a>(v: Option<&'a JsonValue>, key: &str) -> (r: Option<&'a Vec<JsonValue>>)
    ensures
        match r {
            Some(items) => array_at(deref_opt(v), key@) == Some(items@),
            None => array_at(deref_opt(v), key@) is None,
        },
{
    match get_in(v, key) {
        Some(x) => x.as_array(),
        None => None,
    }
}

/// A copy of a value holding the same data.
pub fn copy_json(v: &JsonValue) -> (r: JsonValue)
    ensures
        same_json(*v, r),
    decreases v,
{
    match v {
        JsonValue::Null => JsonValue::Null,
        JsonValue::Bool(b) => JsonValue::Bool(*b),
        JsonValue::Number(JsonNumber::PosInt(n)) => JsonValue::Number(JsonNumber::PosInt(*n)),
        JsonValue::Number(JsonNumber::NegInt(n)) => JsonValue::Number(JsonNumber::NegInt(*n)),
        JsonValue::Number(JsonNumber::Float(t)) => JsonValue::Number(JsonNumber::Float(t.clone())),
        JsonValue::Str(s) => JsonValue::Str(s.clone()),
        JsonValue::Array(items) => {
            let mut out: Vec<JsonValue> = Vec::new();
            let mut i: usize = 0;
            while i < items.len()
                invariant
                    i <= items.len(),
                    *v is Array,
                    v->Array_0 == *items,
                    out@.len() == i,
                    forall|k: int| 0 <= k < i ==> same_json(#[trigger] items@[k], out@[k]),
                decreases items.len() - i,
            {
                assert(decreases_to!(*v => v->Array_0));
                assert(decreases_to!(v->Array_0 => items@));
                assert(decreases_to!(items@ => items@[i as int]));
                let c = copy_json(&items[i]);
                out.push(c);
                i = i + 1;
            }
            JsonValue::Array(out)
        },
        JsonValue::Object(entries) => {
            let mut out: Vec<(String, JsonValue)> = Vec::new();
            let mut i: usize = 0;
            while i < entries.len()
                invariant
                    i <= entries.len(),
                    *v is Object,
                    v->Object_0 == *entries,
                    out@.len() == i,
                    forall|k: int|
                        0 <= k < i ==> {
                            &&& (#[trigger] entries@[k]).0@ == out@[k].0@
                            &&& same_json(entries@[k].1, out@[k].1)
                        },
                decreases entries.len() - i,
            {
                assert(decreases_to!(*v => v->Object_0));
                assert(decreases_to!(v->Object_0 => entries@));
                assert(decreases_to!(entries@ => entries@[i as int]));
                assert(decreases_to!(entries@[i as int] => entries@[i as int].1));
                let c = copy_json(&entries[i].1);
                let k = entries[i].0.clone();
                out.push((k, c));
                i = i + 1;
            }
            JsonValue::Object(out)
        },
    }
}

} // verus!
