//! The parts of `serde_json` that the request logic relies on, with the
//! contracts that the library's proofs rest on.

use vstd::prelude::*;

verus! {

#[verifier::external_type_specification]
#[verifier::external_body]
pub struct ExJsonValue(serde_json::Value);

#[verifier::external_type_specification]
#[verifier::external_body]
#[verifier::reject_recursive_types(K)]
#[verifier::reject_recursive_types(V)]
pub struct ExJsonMap<K, V>(serde_json::Map<K, V>);

/// The entries of a JSON object value, by key; `None` for a value of any other kind.
pub uninterp spec fn object_entries(v: serde_json::Value) -> Option<Map<Seq<char>, serde_json::Value>>;

/// The entries of a JSON map, by key.
pub uninterp spec fn map_entries(m: serde_json::Map<String, serde_json::Value>) -> Map<Seq<char>, serde_json::Value>;

/// The text of a JSON string value; `None` for a value of any other kind.
pub uninterp spec fn string_text(v: serde_json::Value) -> Option<Seq<char>>;

/// Relies on the variants of `serde_json::Value`: an object value hands out
/// its map, any other value is handed back as it was.
#[verifier::external_body]
pub(crate) fn into_object(v: serde_json::Value) -> (r: Result<serde_json::Map<String, serde_json::Value>, serde_json::Value>)
    ensures
        match r {
            Ok(m) => object_entries(v) == Some(map_entries(m)),
            Err(w) => w == v && object_entries(v) is None,
        },
{
    match v {
        serde_json::Value::Object(m) => Ok(m),
        other => Err(other),
    }
}

/// Relies on `serde_json::Value::Object`: the value holds the map's entries.
#[verifier::external_body]
pub(crate) fn from_object(m: serde_json::Map<String, serde_json::Value>) -> (r: serde_json::Value)
    ensures
        object_entries(r) == Some(map_entries(m)),
{
    serde_json::Value::Object(m)
}

/// Relies on `serde_json::Map::remove`: the entry under `key` leaves the map
/// and its value is returned; the other entries stay.
#[verifier::external_body]
pub(crate) fn remove_entry(m: &mut serde_json::Map<String, serde_json::Value>, key: &str) -> (r: Option<serde_json::Value>)
    ensures
        map_entries(*final(m)) == map_entries(*old(m)).remove(key@),
        match r {
            Some(x) => map_entries(*old(m)).contains_key(key@) && x == map_entries(*old(m))[key@],
            None => !map_entries(*old(m)).contains_key(key@),
        },
{
    m.remove(key)
}

/// Relies on `serde_json::Value::as_str`: the text of a string value, `None`
/// for any other value.
#[verifier::external_body]
pub(crate) fn text_of(v: &serde_json::Value) -> (r: Option<String>)
    ensures
        match r {
            Some(s) => string_text(*v) == Some(s@),
            None => string_text(*v) is None,
        },
{
    v.as_str().map(|s| s.to_string())
}

} // verus!
