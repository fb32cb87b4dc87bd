//! Declarations of the outside types that the library carries through.

use vstd::prelude::*;

verus! {

/// A JSON value; the library carries it through without looking inside.
#[verifier::external_type_specification]
#[verifier::external_body]
pub struct ExJsonValue(serde_json::Value);

/// A JSON (de)serialisation error.
#[verifier::external_type_specification]
#[verifier::external_body]
pub struct ExJsonError(serde_json::Error);

/// A database error.
#[verifier::external_type_specification]
#[verifier::external_body]
pub struct ExSqlxError(sqlx::Error);

/// A configuration loading error.
#[verifier::external_type_specification]
#[verifier::external_body]
pub struct ExConfigError(config::ConfigError);

/// Options of an MQTT connection.
#[verifier::external_type_specification]
#[verifier::external_body]
pub struct ExMqttOptions(rumqttc::MqttOptions);

/// A concurrent hash map.
#[verifier::external_type_specification]
#[verifier::external_body]
#[verifier::reject_recursive_types(K)]
#[verifier::reject_recursive_types(V)]
#[verifier::reject_recursive_types(S)]
pub struct ExDashMap<K, V, S>(dashmap::DashMap<K, V, S>);

/// `Clone` of a JSON value: the impl is derived, so the copy equals the
/// value it was made from.
pub assume_specification[ <serde_json::Value as std::clone::Clone>::clone ](v: &serde_json::Value) -> (r: serde_json::Value)
    ensures
        r == *v,
;

/// The bytes that `serde_json::to_vec` writes for a JSON value, or no bytes
/// where it fails.
pub uninterp spec fn json_bytes(v: serde_json::Value) -> Seq<u8>;

/// The JSON string value `serde_json::Value::String` holding these characters.
pub uninterp spec fn json_string_value(s: Seq<char>) -> serde_json::Value;

/// Whether a JSON value is `null` (`Value::is_null`).
pub uninterp spec fn json_is_null(v: serde_json::Value) -> bool;

/// The JSON value `serde_json::from_slice` reads from bytes, or `null` where
/// they are no JSON text.
pub uninterp spec fn json_parse_or_null(bytes: Seq<u8>) -> serde_json::Value;

/// Reads bytes as JSON with `serde_json::from_slice`, giving `null` where
/// that fails. The contract names the value; the parse is not written out.
#[verifier::external_body]
pub(crate) fn json_from_bytes(bytes: &[u8]) -> (v: serde_json::Value)
    ensures
        v == json_parse_or_null(bytes@),
{
    serde_json::from_slice(bytes).unwrap_or(serde_json::Value::Null)
}

/// Whether a JSON value is an object.
pub uninterp spec fn json_is_object(v: serde_json::Value) -> bool;

/// The members of a JSON object value, by key.
pub uninterp spec fn json_object_map(v: serde_json::Value) -> Map<Seq<char>, serde_json::Value>;

/// An empty JSON object, `Value::Object(Map::new())`.
#[verifier::external_body]
pub(crate) fn empty_json_object() -> (obj: serde_json::Value)
    ensures
        json_is_object(obj),
        json_object_map(obj).dom() == Set::<Seq<char>>::empty(),
{
    serde_json::Value::Object(serde_json::Map::new())
}

/// `Value::is_object`.
#[verifier::external_body]
pub(crate) fn is_json_object(v: &serde_json::Value) -> (b: bool)
    ensures
        b == json_is_object(*v),
{
    v.is_object()
}

/// The members of a JSON object (`Value::as_object`), each key once, in the
/// map's iteration order; `None` for a value that is no object.
#[verifier::external_body]
pub(crate) fn json_object_entries(v: &serde_json::Value) -> (r: Option<Vec<(String, serde_json::Value)>>)
    ensures
        r is Some == json_is_object(*v),
        r matches Some(es) ==> {
            &&& forall|i: int, j: int| 0 <= i < j < es.len() ==> (#[trigger] es[i]).0@ != (#[trigger] es[j]).0@
            &&& forall|i: int| 0 <= i < es.len() ==> json_object_map(*v).dom().contains((#[trigger] es[i]).0@)
                && json_object_map(*v)[es[i].0@] == es[i].1
            &&& forall|k: Seq<char>| #[trigger] json_object_map(*v).dom().contains(k)
                ==> exists|i: int| 0 <= i < es.len() && es[i].0@ == k
        },
{
    v.as_object().map(|m| m.iter().map(|(k, x)| (k.clone(), x.clone())).collect())
}

/// Inserts a member into a JSON object (`Value::as_object_mut`, then
/// `Map::insert`), replacing a member with the same key.
#[verifier::external_body]
pub(crate) fn json_object_insert(v: &mut serde_json::Value, key: String, value: serde_json::Value)
    requires
        json_is_object(*old(v)),
    ensures
        json_is_object(*final(v)),
        json_object_map(*final(v)) == json_object_map(*old(v)).insert(key@, value),
{
    if let Some(m) = v.as_object_mut() {
        m.insert(key, value);
    }
}

/// The JSON number holding a signed integer (`Value::from(i64)`).
pub uninterp spec fn json_i64_value(n: i64) -> serde_json::Value;

/// The JSON number holding an unsigned integer (`Value::from(u64)`).
pub uninterp spec fn json_u64_value(n: u64) -> serde_json::Value;

/// The JSON boolean (`Value::Bool`).
pub uninterp spec fn json_bool_value(b: bool) -> serde_json::Value;

/// The text of a JSON string value (`Value::as_str`), `None` for any other.
pub uninterp spec fn json_as_str(v: serde_json::Value) -> Option<Seq<char>>;

/// The member `key` of a JSON object value; `None` where the value is no
/// object or has no such member.
pub open spec fn json_member(v: serde_json::Value, key: Seq<char>) -> Option<serde_json::Value> {
    if json_is_object(v) && json_object_map(v).dom().contains(key) {
        Some(json_object_map(v)[key])
    } else {
        None
    }
}

/// `Value::from(n)` for a signed integer.
#[verifier::external_body]
pub(crate) fn json_i64(n: i64) -> (v: serde_json::Value)
    ensures
        v == json_i64_value(n),
{
    serde_json::Value::from(n)
}

/// `Value::from(n)` for an unsigned integer.
#[verifier::external_body]
pub(crate) fn json_u64(n: u64) -> (v: serde_json::Value)
    ensures
        v == json_u64_value(n),
{
    serde_json::Value::from(n)
}

/// `Value::Bool(b)`.
#[verifier::external_body]
pub(crate) fn json_bool(b: bool) -> (v: serde_json::Value)
    ensures
        v == json_bool_value(b),
{
    serde_json::Value::Bool(b)
}

/// A copy of the member `key` of a JSON value (`Value::get`, then
/// `clone`); `None` where the value is no object or has no such member.
#[verifier::external_body]
pub(crate) fn json_get(v: &serde_json::Value, key: &str) -> (r: Option<serde_json::Value>)
    ensures
        r == json_member(*v, key@),
{
    v.get(key).cloned()
}

/// The text of a JSON string value (`Value::as_str`); `None` for any other.
#[verifier::external_body]
pub(crate) fn json_text(v: &serde_json::Value) -> (r: Option<String>)
    ensures
        match json_as_str(*v) {
            Some(t) => r matches Some(s) && s@ == t,
            None => r is None,
        },
{
    v.as_str().map(|s| s.to_string())
}

/// The text of the string member `key` of a JSON value; `None` where there
/// is no such member or it is no string.
pub(crate) fn json_get_str(v: &serde_json::Value, key: &str) -> (r: Option<String>)
    ensures
        match json_member(*v, key@) {
            Some(m) => match json_as_str(m) {
                Some(t) => r matches Some(s) && s@ == t,
                None => r is None,
            },
            None => r is None,
        },
{
    match json_get(v, key) {
        Some(m) => json_text(&m),
        None => None,
    }
}

/// Serialises a JSON value with `serde_json::to_vec`, giving no bytes where
/// that fails. The contract names the bytes (`json_bytes`); their content,
/// the compact JSON text, is not written out here.
#[verifier::external_body]
pub(crate) fn value_to_bytes(value: &serde_json::Value) -> (b: Vec<u8>)
    ensures
        b@ == json_bytes(*value),
{
    serde_json::to_vec(value).unwrap_or_default()
}

/// `serde_json::Value::String(s)`.
#[verifier::external_body]
pub(crate) fn json_string(s: String) -> (v: serde_json::Value)
    ensures
        v == json_string_value(s@),
{
    serde_json::Value::String(s)
}

/// `serde_json::Value::Null`: the `null` value, which `is_null` holds of and
/// which is no object.
#[verifier::external_body]
pub(crate) fn json_null() -> (v: serde_json::Value)
    ensures
        json_is_null(v),
        !json_is_object(v),
{
    serde_json::Value::Null
}

} // verus!
