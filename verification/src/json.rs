//! A model of JSON documents, as far as this library reads them, and the
//! parser that produces it.
use vstd::prelude::*;

use crate::text::chars_of;

verus! {

/// `serde_json::Value`, opaque: it stands in the signature of
/// `model_of_value`, which rebuilds it as a [`JsonValue`].
#[verifier::external_type_specification]
#[verifier::external_body]
pub struct ExJsonDocument(serde_json::Value);

/// A JSON value. Objects keep their members in the order the parser
/// yields them (sorted by key, each key once); numbers keep what
/// `as_u64` reads from them.
pub enum JsonValue {
    Null,
    Bool(bool),
    Number(Option<u64>),
    Str(String),
    Array(Vec<JsonValue>),
    Object(Vec<(String, JsonValue)>),
}

/// What `serde_json` parses `bytes` into, or, when they are not a JSON
/// document, the text of its error.
pub uninterp spec fn parsed_json(bytes: Seq<u8>) -> Result<JsonValue, Seq<char>>;

/// Rebuilds a `serde_json::Value` as a [`JsonValue`], variant for variant.
#[verifier::external_body]
fn model_of_value(v: serde_json::Value) -> JsonValue {
    match v {
        serde_json::Value::Null => JsonValue::Null,
        serde_json::Value::Bool(b) => JsonValue::Bool(b),
        serde_json::Value::Number(n) => JsonValue::Number(n.as_u64()),
        serde_json::Value::String(s) => JsonValue::Str(s),
        serde_json::Value::Array(a) => JsonValue::Array(a.into_iter().map(model_of_value).collect()),
        serde_json::Value::Object(m) => JsonValue::Object(
            m.into_iter().map(|(k, x)| (k, model_of_value(x))).collect(),
        ),
    }
}

/// `serde_json::from_slice::<serde_json::Value>`, its error taken as its
/// `Display` text: the result is the parse of `bytes`, or the error's text,
/// a function of the bytes alone.
#[verifier::external_body]
pub(crate) fn parse_json(bytes: &[u8]) -> (res: Result<JsonValue, String>)
    ensures
        parsed_json(bytes@) == (match res {
            Ok(v) => Ok::<JsonValue, Seq<char>>(v),
            Err(m) => Err::<JsonValue, Seq<char>>(m@),
        }),
{
    match serde_json::from_slice::<serde_json::Value>(bytes) {
        Ok(v) => Ok(model_of_value(v)),
        Err(e) => Err(e.to_string()),
    }
}

/// The member `key` of an object's member list (its first occurrence).
pub open spec fn member(entries: Seq<(String, JsonValue)>, key: Seq<char>) -> Option<JsonValue>
    decreases entries.len(),
{
    if entries.len() == 0 {
        None
    } else if entries[0].0@ == key {
        Some(entries[0].1)
    } else {
        member(entries.drop_first(), key)
    }
}

/// `v.get(key)`: the member `key` when `v` is an object holding it.
pub open spec fn get(v: JsonValue, key: Seq<char>) -> Option<JsonValue> {
    match v {
        JsonValue::Object(m) => member(m@, key),
        _ => None,
    }
}

/// `v.get(key).and_then(|x| x.as_str())`.
pub open spec fn get_str(v: JsonValue, key: Seq<char>) -> Option<Seq<char>> {
    match get(v, key) {
        Some(JsonValue::Str(s)) => Some(s@),
        _ => None,
    }
}

/// `v.get(key).and_then(|x| x.as_u64())`.
pub open spec fn get_u64(v: JsonValue, key: Seq<char>) -> Option<u64> {
    match get(v, key) {
        Some(JsonValue::Number(n)) => n,
        _ => None,
    }
}

/// `x.and_then(|o| o.as_object()).map(|o| o.len()).unwrap_or(0)`.
pub open spec fn object_size(x: Option<JsonValue>) -> nat {
    match x {
        Some(JsonValue::Object(m)) => m@.len(),
        _ => 0,
    }
}

/// A borrowed optional value, as a value.
pub open spec fn opt_val(x: Option<&JsonValue>) -> Option<JsonValue> {
    match x {
        Some(v) => Some(*v),
        None => None,
    }
}

/// Whether two strings hold the same characters.
pub fn same_text(a: &str, b: &str) -> (r: bool)
    ensures
        r == (a@ == b@),
{
    let x = chars_of(a);
    let y = chars_of(b);
    if x.len() != y.len() {
        return false;
    }
    let mut i: usize = 0;
    while i < x.len()
        invariant
            i <= x.len() == y.len(),
            x@ == a@,
            y@ == b@,
            forall|j: int| 0 <= j < i ==> x@[j] == y@[j],
        decreases x.len() - i,
    {
        let (cx, cy) = (x[i], y[i]);
        if cx != cy {
            assert(x@[i as int] != y@[i as int]);
            assert(a@ != b@);
            return false;
        }
        i = i + 1;
    }
    assert(x@ =~= y@);
    true
}

/// `v.get(key)`.
pub fn json_get<'a>(v: &'a JsonValue, key: &str) -> (r: Option<&'a JsonValue>)
    ensures
        opt_val(r) == get(*v, key@),
{
    match v {
        JsonValue::Object(m) => {
            let mut i: usize = 0;
            assert(m@.skip(0) =~= m@);
            while i < m.len()
                invariant
                    i <= m.len(),
                    get(*v, key@) == member(m@, key@),
                    member(m@, key@) == member(m@.skip(i as int), key@),
                decreases m.len() - i,
            {
                assert(m@.skip(i as int).drop_first() =~= m@.skip(i + 1));
                if same_text(m[i].0.as_str(), key) {
                    assert(m@.skip(i as int)[0] == m@[i as int]);
                    assert(m@[i as int].0@ == key@);
                    assert(member(m@.skip(i as int), key@) == Some(m@[i as int].1));
                    return Some(&m[i].1);
                }
                i = i + 1;
            }
            assert(m@.skip(i as int) =~= Seq::<(String, JsonValue)>::empty());
            None
        },
        _ => None,
    }
}

/// `x.and_then(|o| o.as_object()).map(|o| o.len()).unwrap_or(0)`.
pub fn json_object_size(x: Option<&JsonValue>) -> (n: usize)
    ensures
        n == object_size(opt_val(x)),
{
    match x {
        Some(JsonValue::Object(m)) => m.len(),
        _ => 0,
    }
}

} // verus!
