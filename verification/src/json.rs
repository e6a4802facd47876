use serde_json::{Map as JsonObject, Value};
use vstd::prelude::*;

verus! {

/// The names of the members of a JSON object, in ascending order; nothing where the text is no
/// JSON object.
pub uninterp spec fn json_members(json: Seq<u8>) -> Option<Seq<Seq<char>>>;

/// A JSON object with one member set to a text: what `serde_json::Map::insert` makes of the object
/// that the text was parsed into, written out anew. The name stands for the insertion together
/// with the two conversions round it, the parsing before and the writing after, as only bytes
/// are handed in and out. Nothing where the text is no JSON object.
pub uninterp spec fn json_with_text(json: Seq<u8>, name: Seq<char>, value: Seq<char>) -> Option<
    Seq<u8>,
>;

/// The characters of each text.
pub open spec fn texts(values: Seq<String>) -> Seq<Seq<char>> {
    values.map_values(|text: String| text@)
}

/// `serde_json::from_slice` into a `serde_json::Map`: the names of the members of the object that
/// the text holds, or nothing where it holds none.
#[verifier::external_body]
pub(crate) fn object_members(json: &[u8]) -> (r: Option<Vec<String>>)
    ensures
        match r {
            Some(names) => json_members(json@) == Some(texts(names@)),
            None => json_members(json@) is None,
        },
{
    match serde_json::from_slice::<JsonObject<String, Value>>(json) {
        Ok(object) => Some(object.keys().cloned().collect()),
        Err(_) => None,
    }
}

/// `serde_json::Map::insert` of a text into the object that the JSON holds, between two
/// conversions: the JSON is parsed before, and the object that results is written with
/// `serde_json::to_vec`. An object always gives one, and that one is an object again, with the
/// members it had and the new one.
#[verifier::external_body]
pub(crate) fn insert_text(json: &[u8], name: &str, value: &str) -> (r: Option<Vec<u8>>)
    ensures
        match r {
            Some(bytes) => json_with_text(json@, name@, value@) == Some(bytes@),
            None => json_with_text(json@, name@, value@) is None,
        },
        r is Some <==> json_members(json@) is Some,
        r matches Some(bytes) ==> {
            &&& json_members(bytes@) is Some
            &&& json_members(bytes@)->0.contains(name@)
            &&& forall|n: Seq<char>|
                json_members(json@)->0.contains(n) ==> #[trigger] json_members(
                    bytes@,
                )->0.contains(n)
        },
{
    let mut object = serde_json::from_slice::<JsonObject<String, Value>>(json).ok()?;
    object.insert(name.to_string(), Value::String(value.to_string()));
    serde_json::to_vec(&object).ok()
}

} // verus!
