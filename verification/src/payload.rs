//! The members of a token's payload, held in a `serde_json::Map`.

use crate::text::text_view;
use vstd::prelude::*;

verus! {

/// `serde_json::Value`: any JSON value. Nothing inside it is visible here.
#[verifier::external_type_specification]
#[verifier::external_body]
pub struct ExJsonValue(serde_json::Value);

/// `serde_json::Map`: a JSON object. What it holds is spoken of through
/// [`members`].
#[verifier::external_type_specification]
#[verifier::external_body]
#[verifier::reject_recursive_types(K)]
#[verifier::reject_recursive_types(V)]
pub struct ExJsonMap<K, V>(serde_json::Map<K, V>);

/// What one member of a JSON object holds, as far as this library reads it.
pub enum Member {
    /// A JSON string.
    Text(Seq<char>),
    /// A JSON number that is an integer within the range of `i64`.
    Integer(i64),
    /// Anything else.
    Other,
}

/// The members of a JSON object, by key: what `serde_json::Map::get` finds
/// under each key that the object holds.
pub uninterp spec fn members(object: serde_json::Map<String, serde_json::Value>) -> Map<
    Seq<char>,
    Member,
>;

/// Every member is a string or an integer.
pub open spec fn all_plain(m: Map<Seq<char>, Member>) -> bool {
    forall|k: Seq<char>| m.contains_key(k) ==> #[trigger] m[k] != Member::Other
}

/// The object without members.
pub open spec fn no_members() -> Map<Seq<char>, Member> {
    Map::empty()
}

/// The text under `key`, where `m` holds a string there.
pub open spec fn text_at(m: Map<Seq<char>, Member>, key: Seq<char>) -> Option<Seq<char>> {
    if m.contains_key(key) {
        match m[key] {
            Member::Text(text) => Some(text),
            _ => None,
        }
    } else {
        None
    }
}

/// The number under `key`, where `m` holds an integer there.
pub open spec fn integer_at(m: Map<Seq<char>, Member>, key: Seq<char>) -> Option<i64> {
    if m.contains_key(key) {
        match m[key] {
            Member::Integer(n) => Some(n),
            _ => None,
        }
    } else {
        None
    }
}

/// `serde_json::Map::new`: an object without members.
#[verifier::external_body]
pub(crate) fn new_object() -> (object: serde_json::Map<String, serde_json::Value>)
    ensures
        members(object) == no_members(),
{
    serde_json::Map::new()
}

/// `serde_json::Map::insert` of a `Value::String`: the object holds `value`
/// under `key`, in place of what it held there; its other members stay.
#[verifier::external_body]
pub(crate) fn put_text(
    object: &mut serde_json::Map<String, serde_json::Value>,
    key: &str,
    value: &str,
)
    ensures
        members(*final(object)) == members(*old(object)).insert(key@, Member::Text(value@)),
{
    object.insert(key.to_owned(), serde_json::Value::String(value.to_owned()));
}

/// `serde_json::Map::insert` of the number that `Value::from` makes of an
/// `i64`: the object holds `value` under `key`, in place of what it held
/// there; its other members stay.
#[verifier::external_body]
pub(crate) fn put_integer(
    object: &mut serde_json::Map<String, serde_json::Value>,
    key: &str,
    value: i64,
)
    ensures
        members(*final(object)) == members(*old(object)).insert(key@, Member::Integer(value)),
{
    object.insert(key.to_owned(), serde_json::Value::from(value));
}

/// `serde_json::Map::get`, for a member that is a string: its text, and
/// `None` where the key is absent or holds something else.
#[verifier::external_body]
pub(crate) fn text_member(object: &serde_json::Map<String, serde_json::Value>, key: &str) -> (r:
    Option<String>)
    ensures
        text_view(r) == text_at(members(*object), key@),
{
    match object.get(key) {
        Some(serde_json::Value::String(text)) => Some(text.clone()),
        _ => None,
    }
}

/// `serde_json::Map::get` and `Value::as_i64`, for a member that is an
/// integer within `i64`: its value, and `None` where the key is absent or
/// holds something else.
#[verifier::external_body]
pub(crate) fn integer_member(
    object: &serde_json::Map<String, serde_json::Value>,
    key: &str,
) -> (r: Option<i64>)
    ensures
        r == integer_at(members(*object), key@),
{
    match object.get(key) {
        Some(value) => value.as_i64(),
        None => None,
    }
}

} // verus!
