//! JSON documents, read and written by `serde_json`.
//!
//! A document is carried as a `serde_json::Value`. What the verified code
//! knows of one is its [`JsonTree`]; the functions in this module that call
//! into `serde_json` are taken on trust, each stated over that tree.

use vstd::prelude::*;

verus! {

/// `serde_json::Value`, a JSON document in memory. Nothing is known of a
/// value but what [`json_tree`] says.
#[verifier::external_type_specification]
#[verifier::external_body]
pub struct ExJsonValue(serde_json::Value);

/// `serde_json::Error`, why a text was not read. Nothing is known of one.
#[verifier::external_type_specification]
#[verifier::external_body]
pub struct ExJsonError(serde_json::Error);

/// A JSON number: a non-negative integer below 2^64, another integer, or a
/// number with a fraction or an exponent, kept as the text that prints it.
pub enum JsonNumber {
    Unsigned(u64),
    Negative(i64),
    Real(Seq<char>),
}

/// What a JSON value holds.
pub enum JsonTree {
    Null,
    Bool(bool),
    Number(JsonNumber),
    Text(Seq<char>),
    Array(Seq<JsonTree>),
    Object(Map<Seq<char>, JsonTree>),
}

/// The tree that a `serde_json::Value` holds.
pub uninterp spec fn json_tree(value: serde_json::Value) -> JsonTree;

/// What `serde_json::from_str` reads from a text: the tree of the value, or
/// `None` where the text is not one JSON document.
pub uninterp spec fn parsed_json(text: Seq<char>) -> Option<JsonTree>;

/// The compact text that `serde_json` prints for a value with this tree.
pub uninterp spec fn printed_json(tree: JsonTree) -> Seq<char>;

/// The trees of a sequence of values, in order.
pub open spec fn json_trees(values: Seq<serde_json::Value>) -> Seq<JsonTree> {
    values.map_values(|value: serde_json::Value| json_tree(value))
}

/// Calls `serde_json::from_str` for a `Value`. The result is `Ok` exactly on
/// the texts that parse, and then holds the parsed tree.
#[verifier::external_body]
pub(crate) fn parse_value(text: &str) -> (parsed: Result<serde_json::Value, serde_json::Error>)
    ensures
        match parsed {
            Ok(value) => parsed_json(text@) == Some(json_tree(value)),
            Err(_) => parsed_json(text@) is None,
        },
{
    serde_json::from_str::<serde_json::Value>(text)
}

/// Calls `Value::to_string`, which prints the value in compact form.
#[verifier::external_body]
pub(crate) fn print_value(value: &serde_json::Value) -> (text: String)
    ensures
        text@ == printed_json(json_tree(*value)),
{
    value.to_string()
}

/// Calls `Value::as_array`: the elements of an array, `None` for any other value.
#[verifier::external_body]
pub(crate) fn value_as_array(value: &serde_json::Value) -> (items: Option<&Vec<serde_json::Value>>)
    ensures
        match json_tree(*value) {
            JsonTree::Array(trees) => items matches Some(found) && json_trees(found@) == trees,
            _ => items is None,
        },
{
    value.as_array()
}

/// Calls `Value::as_str`: the text of a string, `None` for any other value.
#[verifier::external_body]
pub(crate) fn value_as_str(value: &serde_json::Value) -> (text: Option<&str>)
    ensures
        match json_tree(*value) {
            JsonTree::Text(chars) => text matches Some(found) && found@ == chars,
            _ => text is None,
        },
{
    value.as_str()
}

/// Calls `Value::as_u64`: a non-negative integer below 2^64, `None` for any
/// other value.
#[verifier::external_body]
pub(crate) fn value_as_u64(value: &serde_json::Value) -> (number: Option<u64>)
    ensures
        number == match json_tree(*value) {
            JsonTree::Number(JsonNumber::Unsigned(n)) => Some(n),
            _ => None,
        },
{
    value.as_u64()
}

/// Calls `Value::as_bool`: a boolean, `None` for any other value.
#[verifier::external_body]
pub(crate) fn value_as_bool(value: &serde_json::Value) -> (flag: Option<bool>)
    ensures
        flag == match json_tree(*value) {
            JsonTree::Bool(b) => Some(b),
            _ => None,
        },
{
    value.as_bool()
}

/// Calls `Value::is_null`.
#[verifier::external_body]
pub(crate) fn value_is_null(value: &serde_json::Value) -> (null: bool)
    ensures
        null == (json_tree(*value) is Null),
{
    value.is_null()
}

/// Calls `Value::get` with a key: the member of an object under that key,
/// `None` where the value is no object or has no such member.
#[verifier::external_body]
pub(crate) fn value_member<'a>(value: &'a serde_json::Value, key: &str) -> (member: Option<&'a serde_json::Value>)
    ensures
        match json_tree(*value) {
            JsonTree::Object(members) if members.contains_key(key@) =>
                member matches Some(found) && json_tree(*found) == members[key@],
            _ => member is None,
        },
{
    value.get(key)
}

/// The tree of a value that may be absent; an absent value reads as `null`.
pub open spec fn tree_of(value: Option<&serde_json::Value>) -> JsonTree {
    match value {
        Some(v) => json_tree(*v),
        None => JsonTree::Null,
    }
}

/// The member of `tree` under `key`; `null` where `tree` is no object or has
/// no such member.
pub open spec fn member_tree(tree: JsonTree, key: Seq<char>) -> JsonTree {
    match tree {
        JsonTree::Object(members) if members.contains_key(key) => members[key],
        _ => JsonTree::Null,
    }
}

/// The text that `tree` holds, where it is a string.
pub open spec fn text_in(tree: JsonTree) -> Option<Seq<char>> {
    match tree {
        JsonTree::Text(chars) => Some(chars),
        _ => None,
    }
}

/// The number that `tree` holds, where it is a non-negative integer below 2^64.
pub open spec fn unsigned_in(tree: JsonTree) -> Option<u64> {
    match tree {
        JsonTree::Number(JsonNumber::Unsigned(n)) => Some(n),
        _ => None,
    }
}

/// The member of `value` under `key`.
pub fn member<'a>(value: Option<&'a serde_json::Value>, key: &str) -> (found: Option<&'a serde_json::Value>)
    ensures
        tree_of(found) == member_tree(tree_of(value), key@),
{
    match value {
        Some(v) => value_member(v, key),
        None => None,
    }
}

/// Whether `value` is absent or `null`.
pub fn is_null(value: Option<&serde_json::Value>) -> (null: bool)
    ensures
        null == (tree_of(value) is Null),
{
    match value {
        Some(v) => value_is_null(v),
        None => true,
    }
}

/// The text of `value`, where it is a string.
pub fn read_text(value: Option<&serde_json::Value>) -> (text: Option<String>)
    ensures
        match text {
            Some(t) => text_in(tree_of(value)) == Some(t@),
            None => text_in(tree_of(value)) is None,
        },
{
    match value {
        Some(v) => match value_as_str(v) {
            Some(t) => Some(String::from_str(t)),
            None => None,
        },
        None => None,
    }
}

/// The number of `value`, where it is a non-negative integer below 2^64.
pub fn read_u64(value: Option<&serde_json::Value>) -> (number: Option<u64>)
    ensures
        number == unsigned_in(tree_of(value)),
{
    match value {
        Some(v) => value_as_u64(v),
        None => None,
    }
}

/// The boolean of `value`, where it is one.
pub fn read_bool(value: Option<&serde_json::Value>) -> (flag: Option<bool>)
    ensures
        flag == match tree_of(value) {
            JsonTree::Bool(b) => Some(b),
            _ => None,
        },
{
    match value {
        Some(v) => value_as_bool(v),
        None => None,
    }
}

} // verus!
