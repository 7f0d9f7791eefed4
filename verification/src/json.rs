//! JSON documents as serde_json reads them, mirrored as plain values, and the
//! few accessors that the contact logic uses on them.

use vstd::prelude::*;
use crate::text::str_equal;

verus! {

#[verifier::external_type_specification]
#[verifier::external_body]
pub struct ExSerdeJsonValue(serde_json::Value);

#[verifier::external_type_specification]
#[verifier::external_body]
pub struct ExSerdeJsonNumber(serde_json::Number);

#[verifier::external_type_specification]
#[verifier::external_body]
pub struct ExSerdeJsonError(serde_json::Error);

/// A JSON number, told apart the way serde_json stores it: a non-negative
/// integer, a negative integer, or a floating-point number (whose value this
/// library never reads, so it is not kept).
#[derive(Debug)]
pub enum JsonNumber {
    PosInt(u64),
    NegInt(i64),
    Float,
}

/// A parsed JSON document. Objects keep their members in the order serde_json
/// hands them out; serde_json keeps one member per key.
#[derive(Debug)]
pub enum JsonValue {
    Null,
    Bool(bool),
    Number(JsonNumber),
    String(String),
    Array(Vec<JsonValue>),
    Object(Vec<(String, JsonValue)>),
}

/// The document that `serde_json::from_str::<serde_json::Value>` reads from the
/// given text, or `None` where it rejects the text.
pub uninterp spec fn serde_json_document(text: Seq<char>) -> Option<JsonValue>;

/// Calls `serde_json::from_str::<serde_json::Value>`. Claimed: it succeeds
/// exactly where `serde_json_document` is `Some`, and then yields that
/// document. What serde_json accepts and how it reads it is left to that name.
#[verifier::external_body]
fn serde_json_from_str(text: &str) -> (r: Result<JsonValue, serde_json::Error>)
    ensures
        match r {
            Ok(doc) => serde_json_document(text@) == Some(doc),
            Err(_) => serde_json_document(text@) is None,
        },
{
    match serde_json::from_str::<serde_json::Value>(text) {
        Ok(value) => Ok(mirror_value(value)),
        Err(e) => Err(e),
    }
}

/// Moves a `serde_json::Value` into the library's `JsonValue`, variant by
/// variant. It claims nothing; it is only reached through `serde_json_from_str`.
#[verifier::external_body]
fn mirror_value(value: serde_json::Value) -> JsonValue {
    match value {
        serde_json::Value::Null => JsonValue::Null,
        serde_json::Value::Bool(b) => JsonValue::Bool(b),
        serde_json::Value::Number(n) => JsonValue::Number(mirror_number(&n)),
        serde_json::Value::String(s) => JsonValue::String(s),
        serde_json::Value::Array(items) => JsonValue::Array(items.into_iter().map(mirror_value).collect()),
        serde_json::Value::Object(members) => JsonValue::Object(
            members.into_iter().map(|(key, member)| (key, mirror_value(member))).collect(),
        ),
    }
}

/// Tells the three kinds of `serde_json::Number` apart through `as_u64` and
/// `as_i64`. It claims nothing; it is only reached through `mirror_value`.
#[verifier::external_body]
fn mirror_number(n: &serde_json::Number) -> JsonNumber {
    match (n.as_u64(), n.as_i64()) {
        (Some(u), _) => JsonNumber::PosInt(u),
        (None, Some(i)) => JsonNumber::NegInt(i),
        (None, None) => JsonNumber::Float,
    }
}

/// Parses `text` as a JSON document.
pub fn parse_json(text: &str) -> (r: Option<JsonValue>)
    ensures
        r == serde_json_document(text@),
{
    match serde_json_from_str(text) {
        Ok(doc) => Some(doc),
        Err(_) => None,
    }
}

/// The value of the first member of `members` named `key`.
pub open spec fn member_lookup(members: Seq<(String, JsonValue)>, key: Seq<char>) -> Option<JsonValue>
    decreases members.len(),
{
    if members.len() == 0 {
        None
    } else if members[0].0@ == key {
        Some(members[0].1)
    } else {
        member_lookup(members.drop_first(), key)
    }
}

/// `Value::get` with a string key: the member named `key` of an object, and
/// nothing for any other kind of value.
pub open spec fn json_get(v: JsonValue, key: Seq<char>) -> Option<JsonValue> {
    match v {
        JsonValue::Object(members) => member_lookup(members@, key),
        _ => None,
    }
}

/// `Value::as_bool`.
pub open spec fn json_as_bool(v: Option<JsonValue>) -> Option<bool> {
    match v {
        Some(JsonValue::Bool(b)) => Some(b),
        _ => None,
    }
}

/// `Value::as_u64`: only a non-negative integer has one.
pub open spec fn json_as_u64(v: Option<JsonValue>) -> Option<u64> {
    match v {
        Some(JsonValue::Number(JsonNumber::PosInt(u))) => Some(u),
        _ => None,
    }
}

/// `Value::as_str`, taken by its view.
pub open spec fn json_as_str(v: Option<JsonValue>) -> Option<Seq<char>> {
    match v {
        Some(JsonValue::String(s)) => Some(s@),
        _ => None,
    }
}

proof fn lemma_lookup_skip(members: Seq<(String, JsonValue)>, key: Seq<char>, i: int)
    requires
        0 <= i <= members.len(),
        forall|k: int| 0 <= k < i ==> members[k].0@ != key,
    ensures
        member_lookup(members, key) == member_lookup(members.subrange(i, members.len() as int), key),
    decreases i,
{
    if i == 0 {
        assert(members.subrange(0, members.len() as int) =~= members);
    } else {
        lemma_lookup_skip(members, key, i - 1);
        let rest = members.subrange(i - 1, members.len() as int);
        assert(rest[0].0@ != key);
        assert(rest.drop_first() =~= members.subrange(i, members.len() as int));
    }
}

/// The member named `key` of an object; `None` for other values.
pub fn json_member<'a>(v: &'a JsonValue, key: &str) -> (r: Option<&'a JsonValue>)
    ensures
        match r {
            Some(m) => json_get(*v, key@) == Some(*m),
            None => json_get(*v, key@) is None,
        },
{
    match v {
        JsonValue::Object(members) => {
            let mut i: usize = 0;
            while i < members.len()
                invariant
                    0 <= i <= members.len(),
                    json_get(*v, key@) == member_lookup(members@, key@),
                    forall|k: int| 0 <= k < i ==> members@[k].0@ != key@,
                decreases members.len() - i,
            {
                if str_equal(members[i].0.as_str(), key) {
                    proof {
                        lemma_lookup_skip(members@, key@, i as int);
                        let rest = members@.subrange(i as int, members@.len() as int);
                        assert(rest[0] == members@[i as int]);
                    }
                    return Some(&members[i].1);
                }
                i += 1;
            }
            proof {
                lemma_lookup_skip(members@, key@, i as int);
            }
            None
        },
        _ => None,
    }
}

/// `Value::as_bool`.
pub fn json_bool(v: Option<&JsonValue>) -> (r: Option<bool>)
    ensures
        r == json_as_bool(match v { Some(x) => Some(*x), None => None }),
{
    match v {
        Some(JsonValue::Bool(b)) => Some(*b),
        _ => None,
    }
}

/// `Value::as_u64`.
pub fn json_u64(v: Option<&JsonValue>) -> (r: Option<u64>)
    ensures
        r == json_as_u64(match v { Some(x) => Some(*x), None => None }),
{
    match v {
        Some(JsonValue::Number(JsonNumber::PosInt(u))) => Some(*u),
        _ => None,
    }
}

/// `Value::as_str`, copied into a `String`.
pub fn json_string(v: Option<&JsonValue>) -> (r: Option<String>)
    ensures
        match r {
            Some(s) => json_as_str(match v { Some(x) => Some(*x), None => None }) == Some(s@),
            None => json_as_str(match v { Some(x) => Some(*x), None => None }) is None,
        },
{
    match v {
        Some(JsonValue::String(s)) => Some(s.clone()),
        _ => None,
    }
}

} // verus!
