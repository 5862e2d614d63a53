//! The structured-data values that reports carry, and the one JSON
//! rendering that the library produces itself.
use vstd::prelude::*;

verus! {

/// An arbitrary JSON value, carried through unread.
#[verifier::external_type_specification]
#[verifier::external_body]
pub struct ExValue(serde_json::Value);

/// The compact JSON text of an object whose members are the given string
/// pairs, as serde_json renders it.
pub uninterp spec fn json_object_text(entries: Seq<(Seq<char>, Seq<char>)>) -> Seq<char>;

/// The view of a list of string pairs.
pub open spec fn pairs_view(entries: Seq<(String, String)>) -> Seq<(Seq<char>, Seq<char>)> {
    entries.map_values(|e: (String, String)| (e.0@, e.1@))
}

/// Relies on serde_json: a `Map` collected from the pairs, each value a
/// `Value::String`, wrapped in `Value::Object` and rendered by `to_string`.
#[verifier::external_body]
pub(crate) fn json_object_of_strings(entries: &Vec<(String, String)>) -> (r: String)
    ensures
        r@ == json_object_text(pairs_view(entries@)),
{
    let map = serde_json::Map::from_iter(
        entries.iter().map(|(k, v)| (k.clone(), serde_json::Value::String(v.clone()))),
    );
    serde_json::Value::Object(map).to_string()
}

} // verus!
