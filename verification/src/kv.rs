//! The free-form key/value overrides of a theme, kept in a JSON object.
use vstd::prelude::*;

verus! {

/// `serde_json::Map`, the JSON object. Nothing is known of what is inside
/// one but through the functions below.
#[verifier::external_type_specification]
#[verifier::external_body]
#[verifier::reject_recursive_types(K)]
#[verifier::reject_recursive_types(V)]
pub struct ExJsonMap<K, V>(serde_json::Map<K, V>);

/// `serde_json::Value`, any JSON value. It is only carried along.
#[verifier::external_type_specification]
#[verifier::external_body]
pub struct ExJsonValue(serde_json::Value);

/// The entries of a key/value map: each key with the text of its value, or
/// with `None` where the value is no text.
pub type KvView = Map<Seq<char>, Option<Seq<char>>>;

/// What a JSON object holds: for each of its keys the text of the value, or
/// `None` where the value is no JSON string.
pub uninterp spec fn kv_entries(m: serde_json::Map<String, serde_json::Value>) -> KvView;

/// The text that an entry holds, if it holds one.
pub open spec fn entry_view(value: Option<String>) -> Option<Seq<char>> {
    match value {
        Some(text) => Some(text@),
        None => None,
    }
}

/// `serde_json::Map::new` makes a map without entries.
#[verifier::external_body]
pub(crate) fn kv_new() -> (fresh: serde_json::Map<String, serde_json::Value>)
    ensures
        kv_entries(fresh) == KvView::empty(),
{
    serde_json::Map::new()
}

/// `serde_json::Map::insert` with a JSON string as the value: afterwards the
/// key holds that text, whether or not the map had the key, and every other
/// key holds what it held.
#[verifier::external_body]
pub(crate) fn kv_insert(
    m: &mut serde_json::Map<String, serde_json::Value>,
    key: String,
    value: String,
)
    ensures
        kv_entries(*final(m)) == kv_entries(*old(m)).insert(key@, Some(value@)),
{
    m.insert(key, serde_json::Value::String(value));
}

/// `serde_json::Map::iter` with `serde_json::Value::as_str` on each value:
/// every entry of the map comes out once, as its key and the text of its
/// value, `None` for a value that is no string. Nothing is said of the
/// order.
#[verifier::external_body]
pub(crate) fn kv_pairs(m: &serde_json::Map<String, serde_json::Value>) -> (pairs: Vec<
    (String, Option<String>),
>)
    ensures
        (forall|i: int, j: int|
            0 <= i < j < pairs@.len() ==> (#[trigger] pairs@[i]).0@ != (#[trigger] pairs@[j]).0@),
        forall|i: int|
            0 <= i < pairs@.len() ==> kv_entries(*m).contains_pair(
                (#[trigger] pairs@[i]).0@,
                entry_view(pairs@[i].1),
            ),
        forall|key: Seq<char>| #[trigger]
            kv_entries(*m).dom().contains(key) ==> exists|i: int|
                0 <= i < pairs@.len() && (#[trigger] pairs@[i]).0@ == key,
{
    m.iter().map(|(key, value)| (key.clone(), value.as_str().map(|text| text.to_string()))).collect()
}

} // verus!
