//! Trusted boundary to serde_json for flat JSON objects of string fields.
//!
//! The wire frames of this gateway are JSON objects whose values are all
//! strings. Such an object is modelled as a `Map<Seq<char>, Seq<char>>`
//! ([`obj_entries`]); its canonical serde_json rendering is named by
//! [`obj_text`]. The rendering is a function of the entries alone because
//! serde_json's map is ordered by key (BTreeMap-backed, the crate's
//! default), and parsing a canonical rendering restores exactly the
//! rendered entries.

use vstd::prelude::*;

verus! {

#[verifier::external_type_specification]
#[verifier::external_body]
pub struct ExJsonValue(serde_json::Value);

#[verifier::external_type_specification]
#[verifier::external_body]
#[verifier::reject_recursive_types(K)]
#[verifier::reject_recursive_types(V)]
pub struct ExJsonMap<K, V>(serde_json::Map<K, V>);

/// The string-valued entries of a JSON object: each key that holds a JSON
/// string, mapped to that string's characters.
pub uninterp spec fn obj_entries(m: serde_json::Map<String, serde_json::Value>) -> Map<
    Seq<char>,
    Seq<char>,
>;

/// Whether every value of the object is a JSON string, so that
/// [`obj_entries`] describes the object completely.
pub uninterp spec fn obj_all_strings(m: serde_json::Map<String, serde_json::Value>) -> bool;

/// The canonical serde_json rendering of an all-string JSON object with
/// these entries.
pub uninterp spec fn obj_text(entries: Map<Seq<char>, Seq<char>>) -> Seq<char>;

/// The model of an object with no entries.
pub open spec fn obj_no_entries() -> Map<Seq<char>, Seq<char>> {
    Map::empty()
}

/// Relies on serde_json::Map::new: the fresh object is empty.
#[verifier::external_body]
pub(crate) fn obj_new() -> (r: serde_json::Map<String, serde_json::Value>)
    ensures
        obj_entries(r) == obj_no_entries(),
        obj_all_strings(r),
{
    serde_json::Map::new()
}

/// Relies on serde_json::Map::insert: inserting a string value adds that
/// entry, keeps every other entry, and keeps the object all-string.
#[verifier::external_body]
pub(crate) fn obj_insert_str(
    m: &mut serde_json::Map<String, serde_json::Value>,
    k: &str,
    v: &str,
)
    ensures
        obj_entries(*final(m)) == obj_entries(*old(m)).insert(k@, v@),
        obj_all_strings(*old(m)) ==> obj_all_strings(*final(m)),
{
    m.insert(k.to_owned(), serde_json::Value::String(v.to_owned()));
}

/// Relies on serde_json::Map::get and Value::as_str: the lookup yields the
/// string under the key exactly when the object holds a string there.
#[verifier::external_body]
pub(crate) fn obj_get_str(m: &serde_json::Map<String, serde_json::Value>, k: &str) -> (r: Option<
    String,
>)
    ensures
        match r {
            Some(s) => obj_entries(*m).contains_key(k@) && obj_entries(*m)[k@] == s@,
            None => !obj_entries(*m).contains_key(k@),
        },
{
    match m.get(k) {
        Some(serde_json::Value::String(s)) => Some(s.clone()),
        _ => None,
    }
}

/// Relies on serde_json::to_string: serializing a map of strings cannot
/// fail, and its rendering is the canonical text of its entries.
#[verifier::external_body]
pub(crate) fn obj_to_text(m: &serde_json::Map<String, serde_json::Value>) -> (r: String)
    ensures
        obj_all_strings(*m) ==> r@ == obj_text(obj_entries(*m)),
{
    match serde_json::to_string(m) {
        Ok(s) => s,
        Err(_) => String::new(),
    }
}

/// Relies on serde_json::from_str: parsing succeeds on the canonical
/// rendering of an all-string object and restores exactly its entries; a
/// text that parses to no JSON object is rejected.
#[verifier::external_body]
pub(crate) fn obj_from_text(s: &str) -> (r: Option<serde_json::Map<String, serde_json::Value>>)
    ensures
        match r {
            Some(m) => forall|e: Map<Seq<char>, Seq<char>>|
                s@ == #[trigger] obj_text(e) ==> obj_entries(m) == e && obj_all_strings(m),
            None => forall|e: Map<Seq<char>, Seq<char>>| s@ != #[trigger] obj_text(e),
        },
{
    serde_json::from_str::<serde_json::Map<String, serde_json::Value>>(s).ok()
}

} // verus!
