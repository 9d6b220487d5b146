//! What the library believes of `serde_json`: the value and map types, and
//! the few calls made on them.

use vstd::prelude::*;

verus! {

/// `serde_json::Value`, any JSON value: carried through, never looked
/// into.
#[verifier::external_type_specification]
#[verifier::external_body]
pub struct ExValue(serde_json::Value);

/// `serde_json::Map`, a JSON object: carried through, never looked into.
#[verifier::external_type_specification]
#[verifier::external_body]
#[verifier::reject_recursive_types(K)]
#[verifier::reject_recursive_types(V)]
pub struct ExMap<K, V>(serde_json::Map<K, V>);

/// The text of a JSON string value; `None` for every other kind of value.
pub uninterp spec fn value_string(v: serde_json::Value) -> Option<Seq<char>>;

/// The compact JSON text that `serde_json` prints for a value.
pub uninterp spec fn value_json(v: serde_json::Value) -> Seq<char>;

/// The entries of a JSON object, keys paired with values, in the order in
/// which the map hands them out.
pub uninterp spec fn map_entries(m: serde_json::Map<String, serde_json::Value>) -> Seq<
    (Seq<char>, serde_json::Value),
>;

/// Owned entries seen as pairs of key text and value.
pub open spec fn pairs(entries: Seq<(String, serde_json::Value)>) -> Seq<
    (Seq<char>, serde_json::Value),
> {
    entries.map_values(|e: (String, serde_json::Value)| (e.0@, e.1))
}

/// Whether some entry has the key `key`.
pub open spec fn has_key(entries: Seq<(Seq<char>, serde_json::Value)>, key: Seq<char>) -> bool {
    exists|i: int| 0 <= i < entries.len() && (#[trigger] entries[i]).0 == key
}

/// `serde_json::Value::as_str`: the borrowed text of a string value, and
/// `None` for any other value.
#[verifier::external_body]
pub(crate) fn value_as_str<'a>(v: &'a serde_json::Value) -> (r: Option<&'a str>)
    ensures
        match r {
            Some(s) => value_string(*v) == Some(s@),
            None => value_string(*v) is None,
        },
{
    v.as_str()
}

/// `to_string` on a `serde_json::Value`, which goes through its `Display`
/// impl: the compact JSON text of the value.
#[verifier::external_body]
pub(crate) fn value_to_json(v: &serde_json::Value) -> (r: String)
    ensures
        r@ == value_json(*v),
{
    v.to_string()
}

/// `Clone::clone` on a `serde_json::Value`: an equal value.
#[verifier::external_body]
pub(crate) fn clone_value(v: &serde_json::Value) -> (r: serde_json::Value)
    ensures
        r == *v,
{
    v.clone()
}

/// `serde_json::Map::contains_key`: whether the map holds an entry under
/// the key.
#[verifier::external_body]
pub(crate) fn map_contains_key(m: &serde_json::Map<String, serde_json::Value>, key: &str) -> (r:
    bool)
    ensures
        r == has_key(map_entries(*m), key@),
{
    m.contains_key(key)
}

/// `IntoIterator::into_iter` on a `serde_json::Map`: every entry once, in
/// the map's own order.
#[verifier::external_body]
pub(crate) fn map_into_entries(m: serde_json::Map<String, serde_json::Value>) -> (r: Vec<
    (String, serde_json::Value),
>)
    ensures
        pairs(r@) == map_entries(m),
{
    m.into_iter().collect()
}

} // verus!
