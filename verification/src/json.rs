//! The boundary to `serde_json`.
//!
//! JSON text is parsed and written by `serde_json`; nothing here is proved
//! about that crate. A `serde_json::Value` is opaque to the verifier. What it
//! holds is named by [`json_tree`], a tree of plain values, and each function
//! below states over that tree what one `serde_json` call does. The rest of
//! the library reads and builds values only through these functions.

use vstd::prelude::*;

verus! {

/// `serde_json::Value`, declared so that it can stand in signatures. Nothing
/// of its inside is visible to the verifier.
#[verifier::external_type_specification]
#[verifier::external_body]
pub struct ExJsonValue(serde_json::Value);

/// What a JSON number holds: an integer from zero up, an integer below zero,
/// or any other number, told apart by the bits of its double-precision value.
pub enum JsonNumber {
    Unsigned(u64),
    Negative(i64),
    Fraction(u64),
}

/// What a JSON value holds.
pub enum JsonTree {
    Null,
    Flag(bool),
    Number(JsonNumber),
    Text(Seq<char>),
    Array(Seq<JsonTree>),
    Object(Map<Seq<char>, JsonTree>),
}

/// What `value` holds.
pub uninterp spec fn json_tree(value: serde_json::Value) -> JsonTree;

/// What `serde_json::from_str` reads from `text`, or `None` where it reports
/// an error.
pub uninterp spec fn json_parsed(text: Seq<char>) -> Option<JsonTree>;

/// The compact text that `serde_json::to_string` writes for a value that
/// holds `tree`.
pub uninterp spec fn json_rendered(tree: JsonTree) -> Seq<char>;

/// What each value of a list holds.
pub open spec fn json_trees(values: Seq<serde_json::Value>) -> Seq<JsonTree> {
    values.map_values(|v: serde_json::Value| json_tree(v))
}

/// The member of an object under `key`; `None` for a missing key and for
/// anything that is no object.
pub open spec fn member_of(tree: JsonTree, key: Seq<char>) -> Option<JsonTree> {
    match tree {
        JsonTree::Object(members) => if members.contains_key(key) {
            Some(members[key])
        } else {
            None
        },
        _ => None,
    }
}

/// The element of an array at `index`; `None` past the end and for anything
/// that is no array.
pub open spec fn element_of(tree: JsonTree, index: int) -> Option<JsonTree> {
    match tree {
        JsonTree::Array(items) => if 0 <= index < items.len() {
            Some(items[index])
        } else {
            None
        },
        _ => None,
    }
}

/// The object whose members are the pairs of `members`, a later pair
/// replacing an earlier one with the same key.
pub open spec fn members_map(members: Seq<(String, serde_json::Value)>) -> Map<
    Seq<char>,
    JsonTree,
>
    decreases members.len(),
{
    if members.len() == 0 {
        Map::empty()
    } else {
        members_map(members.drop_last()).insert(members.last().0@, json_tree(members.last().1))
    }
}

/// Whether no two pairs of `members` have the same key: each pair brings a
/// key that the pairs before it do not have.
pub open spec fn distinct_keys(members: Seq<(String, serde_json::Value)>) -> bool
    decreases members.len(),
{
    members.len() == 0 || (distinct_keys(members.drop_last()) && !members_map(
        members.drop_last(),
    ).contains_key(members.last().0@))
}

/// Calls `serde_json::from_str` for a `Value`. The result is `None` where the
/// call reports an error, and else holds what the call read; what that is for
/// a given text is not stated.
#[verifier::external_body]
pub(crate) fn json_parse(text: &str) -> (r: Option<serde_json::Value>)
    ensures
        match r {
            Some(v) => json_parsed(text@) == Some(json_tree(v)),
            None => json_parsed(text@) is None,
        },
{
    serde_json::from_str::<serde_json::Value>(text).ok()
}

/// Calls `Value::get` with a string: the member under `key` where `value` is an
/// object that has it, else `None`.
#[verifier::external_body]
pub(crate) fn json_member<'a>(value: &'a serde_json::Value, key: &str) -> (r: Option<
    &'a serde_json::Value,
>)
    ensures
        match r {
            Some(m) => member_of(json_tree(*value), key@) == Some(json_tree(*m)),
            None => member_of(json_tree(*value), key@) is None,
        },
{
    value.get(key)
}

/// Calls `Value::get` with a number: the element at `index` where `value` is an
/// array that long, else `None`.
#[verifier::external_body]
pub(crate) fn json_element<'a>(value: &'a serde_json::Value, index: usize) -> (r: Option<
    &'a serde_json::Value,
>)
    ensures
        match r {
            Some(e) => element_of(json_tree(*value), index as int) == Some(json_tree(*e)),
            None => element_of(json_tree(*value), index as int) is None,
        },
{
    value.get(index)
}

/// Calls `Value::as_array` and takes the length: the number of elements where
/// `value` is an array, else `None`.
#[verifier::external_body]
pub(crate) fn json_length(value: &serde_json::Value) -> (r: Option<usize>)
    ensures
        match r {
            Some(n) => json_tree(*value) is Array && json_tree(*value)->Array_0.len() == n,
            None => !(json_tree(*value) is Array),
        },
{
    value.as_array().map(|items| items.len())
}

/// Calls `Value::as_str`: the text where `value` is a string, else `None`.
#[verifier::external_body]
pub(crate) fn json_text<'a>(value: &'a serde_json::Value) -> (r: Option<&'a str>)
    ensures
        match r {
            Some(s) => json_tree(*value) == JsonTree::Text(s@),
            None => !(json_tree(*value) is Text),
        },
{
    value.as_str()
}

/// Calls `Value::as_u64`: the number where `value` is an integer from zero up
/// to the largest `u64`, else `None`.
#[verifier::external_body]
pub(crate) fn json_unsigned(value: &serde_json::Value) -> (r: Option<u64>)
    ensures
        match r {
            Some(n) => json_tree(*value) == JsonTree::Number(JsonNumber::Unsigned(n)),
            None => !(json_tree(*value) matches JsonTree::Number(JsonNumber::Unsigned(_))),
        },
{
    value.as_u64()
}

/// Calls `Value::as_bool`: the flag where `value` is `true` or `false`, else
/// `None`.
#[verifier::external_body]
pub(crate) fn json_flag(value: &serde_json::Value) -> (r: Option<bool>)
    ensures
        match r {
            Some(b) => json_tree(*value) == JsonTree::Flag(b),
            None => !(json_tree(*value) is Flag),
        },
{
    value.as_bool()
}

/// Builds `Value::String`.
#[verifier::external_body]
pub(crate) fn json_of_text(text: String) -> (r: serde_json::Value)
    ensures
        json_tree(r) == JsonTree::Text(text@),
{
    serde_json::Value::String(text)
}

/// Calls `Value::from` on a `u64`, which gives a number that holds it.
#[verifier::external_body]
pub(crate) fn json_of_unsigned(n: u64) -> (r: serde_json::Value)
    ensures
        json_tree(r) == JsonTree::Number(JsonNumber::Unsigned(n)),
{
    serde_json::Value::from(n)
}

/// Builds `Value::Bool`.
#[verifier::external_body]
pub(crate) fn json_of_flag(flag: bool) -> (r: serde_json::Value)
    ensures
        json_tree(r) == JsonTree::Flag(flag),
{
    serde_json::Value::Bool(flag)
}

/// Builds `Value::Array` from the values, in their order.
#[verifier::external_body]
pub(crate) fn json_of_items(items: Vec<serde_json::Value>) -> (r: serde_json::Value)
    ensures
        json_tree(r) == JsonTree::Array(json_trees(items@)),
{
    serde_json::Value::Array(items)
}

/// Calls `Value::from_iter` on pairs of key and value, which gives an object
/// with those members. The keys have to differ: which of two pairs with one
/// key stays is not relied on.
#[verifier::external_body]
pub(crate) fn json_of_members(members: Vec<(String, serde_json::Value)>) -> (r: serde_json::Value)
    requires
        distinct_keys(members@),
    ensures
        json_tree(r) == JsonTree::Object(members_map(members@)),
{
    members.into_iter().collect()
}

/// Calls `serde_json::to_string` on a `Value`: the compact text of what
/// `value` holds. For a `Value` the call always gives a text: it writes into
/// a byte vector, the only errors it passes on are those of the writer, the
/// keys of an object are strings, and a number is finite.
#[verifier::external_body]
pub(crate) fn json_render(value: &serde_json::Value) -> (r: Option<String>)
    ensures
        match r {
            Some(text) => text@ == json_rendered(json_tree(*value)),
            None => false,
        },
{
    serde_json::to_string(value).ok()
}

/// Adds the pair of `key` and `value` to the pairs that will make an object.
pub(crate) fn json_add_member(
    members: &mut Vec<(String, serde_json::Value)>,
    key: &str,
    value: serde_json::Value,
)
    requires
        distinct_keys(old(members)@),
        !members_map(old(members)@).contains_key(key@),
    ensures
        distinct_keys(final(members)@),
        members_map(final(members)@) == members_map(old(members)@).insert(key@, json_tree(value)),
{
    members.push((key.to_owned(), value));
    assert(members@.drop_last() == old(members)@);
}

/// The text of a value that may be missing; `None` unless it is a string.
pub open spec fn text_of(tree: Option<JsonTree>) -> Option<Seq<char>> {
    match tree {
        Some(JsonTree::Text(s)) => Some(s),
        _ => None,
    }
}

/// The number of a value that may be missing; `None` unless it is an integer
/// from zero up to the largest `u64`.
pub open spec fn unsigned_of(tree: Option<JsonTree>) -> Option<u64> {
    match tree {
        Some(JsonTree::Number(JsonNumber::Unsigned(n))) => Some(n),
        _ => None,
    }
}

/// The flag of a value that may be missing; `None` unless it is `true` or
/// `false`.
pub open spec fn flag_of(tree: Option<JsonTree>) -> Option<bool> {
    match tree {
        Some(JsonTree::Flag(b)) => Some(b),
        _ => None,
    }
}

/// The member under `inner` of the member under `outer`.
pub open spec fn nested_member_of(tree: JsonTree, outer: Seq<char>, inner: Seq<char>) -> Option<
    JsonTree,
> {
    match member_of(tree, outer) {
        Some(t) => member_of(t, inner),
        None => None,
    }
}

/// The member under `inner` of the member under `outer`.
pub(crate) fn json_nested_member<'a>(value: &'a serde_json::Value, outer: &str, inner: &str) -> (r:
    Option<&'a serde_json::Value>)
    ensures
        match r {
            Some(m) => nested_member_of(json_tree(*value), outer@, inner@) == Some(json_tree(*m)),
            None => nested_member_of(json_tree(*value), outer@, inner@) is None,
        },
{
    match json_member(value, outer) {
        Some(t) => json_member(t, inner),
        None => None,
    }
}

/// The text of the member under `key`, where it is a string.
pub(crate) fn json_text_member(value: &serde_json::Value, key: &str) -> (r: Option<String>)
    ensures
        crate::text::opt_text(r) == text_of(member_of(json_tree(*value), key@)),
{
    match json_member(value, key) {
        Some(m) => match json_text(m) {
            Some(s) => Some(s.to_owned()),
            None => None,
        },
        None => None,
    }
}

/// The number of the member under `key`, where it is an unsigned integer.
pub(crate) fn json_unsigned_member(value: &serde_json::Value, key: &str) -> (r: Option<u64>)
    ensures
        r == unsigned_of(member_of(json_tree(*value), key@)),
{
    match json_member(value, key) {
        Some(m) => json_unsigned(m),
        None => None,
    }
}

/// The flag of the member under `key`, where it is `true` or `false`.
pub(crate) fn json_flag_member(value: &serde_json::Value, key: &str) -> (r: Option<bool>)
    ensures
        r == flag_of(member_of(json_tree(*value), key@)),
{
    match json_member(value, key) {
        Some(m) => json_flag(m),
        None => None,
    }
}

} // verus!
