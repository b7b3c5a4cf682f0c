//! The untyped JSON tree that every server response is parsed into.
//!
//! Decoding is two-phase: a response is first parsed into a [`JsonValue`],
//! then the envelope discriminator is read from the tree, and only then is
//! a typed payload extracted.  The spec-level accessors here (`get_field`,
//! `get_str`, `get_int`, `get_bool`, `get_arr`) are what every decoder
//! contract in this crate is phrased over.

use vstd::prelude::*;
use vstd::string::*;

verus! {

/// An untyped JSON document.  Numbers are modelled as 64-bit integers:
/// every server-assigned id and timestamp in the protocol is integral.
#[derive(Debug, PartialEq, Eq)]
pub enum JsonValue {
    Null,
    Bool(bool),
    Int(i64),
    Str(String),
    Array(Vec<JsonValue>),
    Object(Vec<(String, JsonValue)>),
}

/// The value under `key` in an object's field list; the first match wins.
pub open spec fn obj_get(fields: Seq<(String, JsonValue)>, key: Seq<char>) -> Option<JsonValue>
    decreases fields.len(),
{
    if fields.len() == 0 {
        None
    } else if fields[0].0@ == key {
        Some(fields[0].1)
    } else {
        obj_get(fields.skip(1), key)
    }
}

/// The value under `key`, provided `v` is an object that has it.
pub open spec fn get_field(v: JsonValue, key: Seq<char>) -> Option<JsonValue> {
    match v {
        JsonValue::Object(fs) => obj_get(fs@, key),
        _ => None,
    }
}

/// The text of the string under `key`, provided `v` holds a string there.
pub open spec fn get_str(v: JsonValue, key: Seq<char>) -> Option<Seq<char>> {
    match get_field(v, key) {
        Some(JsonValue::Str(s)) => Some(s@),
        _ => None,
    }
}

/// The integer under `key`, provided `v` holds one there.
pub open spec fn get_int(v: JsonValue, key: Seq<char>) -> Option<i64> {
    match get_field(v, key) {
        Some(JsonValue::Int(i)) => Some(i),
        _ => None,
    }
}

/// The boolean under `key`, provided `v` holds one there.
pub open spec fn get_bool(v: JsonValue, key: Seq<char>) -> Option<bool> {
    match get_field(v, key) {
        Some(JsonValue::Bool(b)) => Some(b),
        _ => None,
    }
}

/// The elements of the array under `key`, provided `v` holds one there.
pub open spec fn get_arr(v: JsonValue, key: Seq<char>) -> Option<Seq<JsonValue>> {
    match get_field(v, key) {
        Some(JsonValue::Array(a)) => Some(a@),
        _ => None,
    }
}

/// serde_json's document type, declared opaquely so the conversion
/// wrappers below can pass values of it through.
#[verifier::external_type_specification]
#[verifier::external_body]
pub struct ExValue(serde_json::Value);

/// The document that `s` parses to, or `None` where `s` is not JSON.
pub uninterp spec fn json_of(s: Seq<char>) -> Option<JsonValue>;

/// The wire text that `v` prints to.
pub uninterp spec fn json_text_of(v: JsonValue) -> Seq<char>;

/// Relies on serde_json::Value: one arm per variant, fields moved over;
/// a number outside the 64-bit signed integer range becomes `Null`.
#[verifier::external_body]
fn value_to_tree(v: &serde_json::Value) -> JsonValue {
    match v {
        serde_json::Value::Null => JsonValue::Null,
        serde_json::Value::Bool(b) => JsonValue::Bool(*b),
        serde_json::Value::Number(n) => n.as_i64().map(JsonValue::Int).unwrap_or(JsonValue::Null),
        serde_json::Value::String(s) => JsonValue::Str(s.clone()),
        serde_json::Value::Array(a) => JsonValue::Array(a.iter().map(value_to_tree).collect()),
        serde_json::Value::Object(m) => JsonValue::Object(
            m.iter().map(|e| (e.0.clone(), value_to_tree(e.1))).collect(),
        ),
    }
}

/// Relies on serde_json::from_str: parses a JSON document, or reports
/// that the text is not one.
#[verifier::external_body]
pub(crate) fn parse_json(s: &str) -> (r: Option<JsonValue>)
    ensures
        r == json_of(s@),
{
    match serde_json::from_str::<serde_json::Value>(s) {
        Ok(v) => Some(value_to_tree(&v)),
        Err(_) => None,
    }
}

/// Relies on serde_json::Value: one arm per variant, fields moved over.
#[verifier::external_body]
fn tree_to_value(v: &JsonValue) -> serde_json::Value {
    match v {
        JsonValue::Null => serde_json::Value::Null,
        JsonValue::Bool(b) => serde_json::Value::Bool(*b),
        JsonValue::Int(i) => serde_json::Value::Number(serde_json::Number::from(*i)),
        JsonValue::Str(s) => serde_json::Value::String(s.clone()),
        JsonValue::Array(a) => serde_json::Value::Array(a.iter().map(tree_to_value).collect()),
        JsonValue::Object(fs) => serde_json::Value::Object(
            fs.iter().map(|f| (f.0.clone(), tree_to_value(&f.1))).collect(),
        ),
    }
}

/// Relies on serde_json::to_string: prints a JSON document; printing a
/// `serde_json::Value` never fails.
#[verifier::external_body]
pub(crate) fn to_json_text(v: &JsonValue) -> (r: String)
    ensures
        r@ == json_text_of(*v),
{
    serde_json::to_string(&tree_to_value(v)).unwrap_or_default()
}

/// An optional integer field, read strictly: `Some(None)` where the
/// field is absent, `Some(Some(i))` where it holds an integer, and
/// `None` — a protocol violation — where it is present but mistyped.
pub open spec fn opt_int(v: JsonValue, key: Seq<char>) -> Option<Option<i64>> {
    match get_field(v, key) {
        None => Some(None),
        Some(JsonValue::Int(i)) => Some(Some(i)),
        Some(_) => None,
    }
}

/// An optional boolean field, read strictly, as [`opt_int`] is.
pub open spec fn opt_bool(v: JsonValue, key: Seq<char>) -> Option<Option<bool>> {
    match get_field(v, key) {
        None => Some(None),
        Some(JsonValue::Bool(b)) => Some(Some(b)),
        Some(_) => None,
    }
}

/// Character-for-character equality of two string slices.
pub fn str_eq(a: &str, b: &str) -> (r: bool)
    ensures
        r == (a@ == b@),
{
    let alen = a.unicode_len();
    let blen = b.unicode_len();
    if alen != blen {
        return false;
    }
    let mut i: usize = 0;
    while i < alen
        invariant
            i <= alen,
            alen == a@.len(),
            alen == b@.len(),
            forall|j: int| 0 <= j < i ==> a@[j] == b@[j],
        decreases alen - i,
    {
        if a.get_char(i) != b.get_char(i) {
            return false;
        }
        i += 1;
    }
    proof {
        assert(a@ =~= b@);
    }
    true
}

proof fn lemma_obj_get_no_match_prefix(
    fields: Seq<(String, JsonValue)>,
    key: Seq<char>,
    i: int,
)
    requires
        0 <= i <= fields.len(),
        forall|j: int| 0 <= j < i ==> fields[j].0@ != key,
    ensures
        obj_get(fields, key) == obj_get(fields.skip(i), key),
    decreases i,
{
    if i > 0 {
        assert(forall|j: int| 0 <= j < i - 1 ==> fields.skip(1)[j] == fields[j + 1]);
        lemma_obj_get_no_match_prefix(fields.skip(1), key, i - 1);
        assert(fields.skip(1).skip(i - 1) =~= fields.skip(i));
    } else {
        assert(fields.skip(0) =~= fields);
    }
}

/// Borrows the value under `key` in `v`, if `v` is an object that has it.
pub fn lookup<'a>(v: &'a JsonValue, key: &str) -> (r: Option<&'a JsonValue>)
    ensures
        match r {
            Some(x) => get_field(*v, key@) == Some(*x),
            None => get_field(*v, key@) is None,
        },
{
    match v {
        JsonValue::Object(fields) => {
            proof {
                assert(get_field(*v, key@) == obj_get(fields@, key@));
            }
            let n = fields.len();
            let mut i: usize = 0;
            while i < n
                invariant
                    i <= n,
                    n == fields@.len(),
                    get_field(*v, key@) == obj_get(fields@, key@),
                    forall|j: int| 0 <= j < i ==> fields@[j].0@ != key@,
                decreases n - i,
            {
                if str_eq(fields[i].0.as_str(), key) {
                    proof {
                        lemma_obj_get_no_match_prefix(fields@, key@, i as int);
                        assert(fields@.skip(i as int)[0] == fields@[i as int]);
                        assert(obj_get(fields@.skip(i as int), key@)
                            == Some(fields@[i as int].1));
                    }
                    return Some(&fields[i].1);
                }
                i += 1;
            }
            proof {
                lemma_obj_get_no_match_prefix(fields@, key@, n as int);
            }
            None
        },
        _ => None,
    }
}

/// Copies the string under `key` out of `v`, if `v` holds a string there.
pub fn get_str_field(v: &JsonValue, key: &str) -> (r: Option<String>)
    ensures
        match r {
            Some(s) => get_str(*v, key@) == Some(s@),
            None => get_str(*v, key@) is None,
        },
{
    match lookup(v, key) {
        Some(x) => match x {
            JsonValue::Str(s) => Some(s.clone()),
            _ => None,
        },
        None => None,
    }
}

/// Reads the integer under `key` out of `v`, if `v` holds one there.
pub fn get_int_field(v: &JsonValue, key: &str) -> (r: Option<i64>)
    ensures
        r == get_int(*v, key@),
{
    match lookup(v, key) {
        Some(x) => match x {
            JsonValue::Int(i) => Some(*i),
            _ => None,
        },
        None => None,
    }
}

/// Reads the boolean under `key` out of `v`, if `v` holds one there.
pub fn get_bool_field(v: &JsonValue, key: &str) -> (r: Option<bool>)
    ensures
        r == get_bool(*v, key@),
{
    match lookup(v, key) {
        Some(x) => match x {
            JsonValue::Bool(b) => Some(*b),
            _ => None,
        },
        None => None,
    }
}

/// Reads an optional integer field strictly: present but mistyped is
/// a violation, reported as `None`.
pub fn opt_int_field(v: &JsonValue, key: &str) -> (r: Option<Option<i64>>)
    ensures
        r == opt_int(*v, key@),
{
    match lookup(v, key) {
        None => Some(None),
        Some(x) => match x {
            JsonValue::Int(i) => Some(Some(*i)),
            _ => None,
        },
    }
}

/// Reads an optional boolean field strictly: present but mistyped is
/// a violation, reported as `None`.
pub fn opt_bool_field(v: &JsonValue, key: &str) -> (r: Option<Option<bool>>)
    ensures
        r == opt_bool(*v, key@),
{
    match lookup(v, key) {
        None => Some(None),
        Some(x) => match x {
            JsonValue::Bool(b) => Some(Some(*b)),
            _ => None,
        },
    }
}

/// Borrows the array under `key` in `v`, if `v` holds one there.
pub fn get_arr_field<'a>(v: &'a JsonValue, key: &str) -> (r: Option<&'a Vec<JsonValue>>)
    ensures
        match r {
            Some(a) => get_arr(*v, key@) == Some(a@),
            None => get_arr(*v, key@) is None,
        },
{
    match lookup(v, key) {
        Some(x) => match x {
            JsonValue::Array(a) => Some(a),
            _ => None,
        },
        None => None,
    }
}

} // verus!
