//! Opaque JSON documents for event payloads and audit details.
//!
//! Payloads are arbitrary key/value documents whose shape the core never
//! inspects: it only stores them, copies them, and hands them back. They are
//! carried as `serde_json::Value`, declared here so that the verified code
//! can hold and move such values without reading into them.

use vstd::prelude::*;

verus! {

#[verifier::external_type_specification]
#[verifier::external_body]
pub struct ExJsonValue(serde_json::Value);

#[verifier::external_type_specification]
#[verifier::external_body]
#[verifier::reject_recursive_types(K)]
#[verifier::reject_recursive_types(V)]
pub struct ExJsonMap<K, V>(serde_json::Map<K, V>);

/// Relies on `serde_json::Value::clone`, a derived memberwise deep copy:
/// the copy is equal to the value it was made from.
pub assume_specification[ <serde_json::Value as Clone>::clone ](v: &serde_json::Value) -> (r:
    serde_json::Value)
    ensures
        r == *v,
;

/// Relies on `serde_json::Map::new`: makes a new, empty JSON object map.
#[verifier::external_body]
pub(crate) fn new_json_map() -> serde_json::Map<String, serde_json::Value> {
    serde_json::Map::new()
}

/// Relies on `serde_json::Map::insert`: binds `key` to `val` as a JSON
/// string in the object map.
#[verifier::external_body]
pub(crate) fn json_insert_str(
    m: &mut serde_json::Map<String, serde_json::Value>,
    key: &str,
    val: &str,
) {
    m.insert(key.to_string(), serde_json::Value::String(val.to_string()));
}

/// Relies on `serde_json::Map::insert`: binds `key` to a copy of `val` in
/// the object map.
#[verifier::external_body]
pub(crate) fn json_insert_value(
    m: &mut serde_json::Map<String, serde_json::Value>,
    key: &str,
    val: &serde_json::Value,
) {
    m.insert(key.to_string(), val.clone());
}

/// Relies on the `serde_json::Value::Object` constructor: wraps an object
/// map into a JSON document value.
#[verifier::external_body]
pub(crate) fn json_object(m: serde_json::Map<String, serde_json::Value>) -> serde_json::Value {
    serde_json::Value::Object(m)
}

/// An empty JSON object document, the default for audit entry details.
pub fn empty_document() -> serde_json::Value {
    json_object(new_json_map())
}

} // verus!
