//! The YAML document tree of `serde_yaml`, as far as the suite model reads
//! and builds it.
//!
//! Nothing in this file is proved. A tree is opaque here: what it holds is
//! spoken of through the names below, one for each accessor of
//! `serde_yaml::Value`, and each contract restates what the source of
//! `serde_yaml` shows of the function it names.

use serde_yaml::{Error, Mapping, Number, Value};
use vstd::prelude::*;

verus! {

/// `serde_yaml::Value`, a YAML document tree. Nothing inside it is seen.
#[verifier::external_type_specification]
#[verifier::external_body]
pub struct ExValue(Value);

/// `serde_yaml::Mapping`, the entries of a YAML mapping. Nothing inside it
/// is seen.
#[verifier::external_type_specification]
#[verifier::external_body]
pub struct ExMapping(Mapping);

/// `serde_yaml::Error`, why a text was not read or a tree not written.
#[verifier::external_type_specification]
#[verifier::external_body]
pub struct ExError(Error);

/// The tree that `serde_yaml::from_str` reads from a text, if it reads one.
pub uninterp spec fn parsed(text: Seq<char>) -> Option<Value>;

/// The text that `serde_yaml::to_string` writes for a tree, if it writes one.
pub uninterp spec fn emitted(tree: Value) -> Option<Seq<char>>;

/// Whether `Value::is_null` holds of a tree.
pub uninterp spec fn is_null(tree: Value) -> bool;

/// Whether `Value::is_number` holds of a tree.
pub uninterp spec fn is_number(tree: Value) -> bool;

/// What `Value::as_str` gives for a tree.
pub uninterp spec fn text_of(tree: Value) -> Option<Seq<char>>;

/// What `Value::as_bool` gives for a tree.
pub uninterp spec fn flag_of(tree: Value) -> Option<bool>;

/// What `Value::as_u64` gives for a tree.
pub uninterp spec fn count_of(tree: Value) -> Option<u64>;

/// What `Value::as_sequence` gives for a tree.
pub uninterp spec fn items_of(tree: Value) -> Option<Seq<Value>>;

/// What `Value::as_mapping` gives for a tree.
pub uninterp spec fn mapping_of(tree: Value) -> Option<Mapping>;

/// The entries of a mapping whose keys are strings, by key.
pub uninterp spec fn entries(m: Mapping) -> Map<Seq<char>, Value>;

/// Calls `serde_yaml::from_str` at `Value`. Claimed: whether a tree comes
/// back, and which, depends on the text alone.
#[verifier::external_body]
pub(crate) fn parse_tree(text: &str) -> (r: Result<Value, Error>)
    ensures
        match r {
            Ok(tree) => parsed(text@) == Some(tree),
            Err(_) => parsed(text@) is None,
        },
{
    serde_yaml::from_str::<Value>(text)
}

/// Calls `serde_yaml::to_string` at `Value`. Claimed: whether a text comes
/// back, and which, depends on the tree alone.
#[verifier::external_body]
pub(crate) fn emit_tree(tree: &Value) -> (r: Result<String, Error>)
    ensures
        match r {
            Ok(text) => emitted(*tree) == Some(text@),
            Err(_) => emitted(*tree) is None,
        },
{
    serde_yaml::to_string(tree)
}

/// Calls `to_string` on a `serde_yaml::Error`, for its `Display` text.
/// Nothing is claimed of the text.
#[verifier::external_body]
pub(crate) fn error_text(e: &Error) -> String {
    e.to_string()
}

/// Calls `Value::clone`. Claimed: the derived clone of a tree is that tree.
#[verifier::external_body]
pub(crate) fn copy_value(v: &Value) -> (r: Value)
    ensures
        r == *v,
{
    v.clone()
}

/// Calls `Value::is_null`. Claimed: the result is what `is_null` names.
#[verifier::external_body]
pub(crate) fn tree_is_null(v: &Value) -> (r: bool)
    ensures
        r == is_null(*v),
{
    v.is_null()
}

/// Calls `Value::is_number`. Claimed: the result is what `is_number` names.
#[verifier::external_body]
pub(crate) fn tree_is_number(v: &Value) -> (r: bool)
    ensures
        r == is_number(*v),
{
    v.is_number()
}

/// Calls `Value::as_str`. Claimed: the result is what `text_of` names, the
/// borrowed text taken by its characters.
#[verifier::external_body]
pub(crate) fn tree_text(v: &Value) -> (r: Option<&str>)
    ensures
        match r {
            Some(s) => text_of(*v) == Some(s@),
            None => text_of(*v) is None,
        },
{
    v.as_str()
}

/// Calls `Value::as_bool`. Claimed: the result is what `flag_of` names.
#[verifier::external_body]
pub(crate) fn tree_flag(v: &Value) -> (r: Option<bool>)
    ensures
        r == flag_of(*v),
{
    v.as_bool()
}

/// Calls `Value::as_u64`. Claimed: the result is what `count_of` names.
#[verifier::external_body]
pub(crate) fn tree_count(v: &Value) -> (r: Option<u64>)
    ensures
        r == count_of(*v),
{
    v.as_u64()
}

/// Calls `Value::as_sequence`. Claimed: the result is what `items_of`
/// names, the borrowed list taken by its items.
#[verifier::external_body]
pub(crate) fn tree_items(v: &Value) -> (r: Option<&Vec<Value>>)
    ensures
        match r {
            Some(items) => items_of(*v) == Some(items@),
            None => items_of(*v) is None,
        },
{
    v.as_sequence()
}

/// Calls `Value::as_mapping`. Claimed: the result is what `mapping_of`
/// names.
#[verifier::external_body]
pub(crate) fn tree_mapping(v: &Value) -> (r: Option<&Mapping>)
    ensures
        match r {
            Some(m) => mapping_of(*v) == Some(*m),
            None => mapping_of(*v) is None,
        },
{
    v.as_mapping()
}

/// Calls `Mapping::get` with a string. Claimed: the result is the value
/// under the key that is this string, and `None` exactly where no key of
/// the mapping is this string.
#[verifier::external_body]
pub(crate) fn mapping_get<'a>(m: &'a Mapping, key: &str) -> (r: Option<&'a Value>)
    ensures
        match r {
            Some(v) => entries(*m).contains_key(key@) && entries(*m)[key@] == *v,
            None => !entries(*m).contains_key(key@),
        },
{
    m.get(key)
}

/// Calls `Mapping::new`. Claimed: the mapping has no key that is a string.
#[verifier::external_body]
pub(crate) fn mapping_new() -> (r: Mapping)
    ensures
        entries(r).dom() == Set::<Seq<char>>::empty(),
{
    Mapping::new()
}

/// Calls `Mapping::insert` with `Value::String` of the key. Claimed: the
/// entry under this string is then `v`, and every entry under another
/// string is as it was.
#[verifier::external_body]
pub(crate) fn mapping_put(m: &mut Mapping, key: &str, v: Value)
    ensures
        entries(*final(m)) == entries(*old(m)).insert(key@, v),
{
    m.insert(Value::String(key.to_owned()), v);
}

/// Builds `Value::String`. Claimed: `Value::as_str` gives this text for it,
/// and `Value::is_null` is false of it.
#[verifier::external_body]
pub(crate) fn text_tree(s: &str) -> (v: Value)
    ensures
        text_of(v) == Some(s@),
        !is_null(v),
{
    Value::String(s.to_owned())
}

/// Builds `Value::Bool`. Claimed: `Value::as_bool` gives this flag for it,
/// and `Value::is_null` is false of it.
#[verifier::external_body]
pub(crate) fn flag_tree(b: bool) -> (v: Value)
    ensures
        flag_of(v) == Some(b),
        !is_null(v),
{
    Value::Bool(b)
}

/// Builds `Value::Number` from `Number::from` at `u64`. Claimed:
/// `Value::as_u64` gives this count for it, and `Value::is_null` is false
/// of it.
#[verifier::external_body]
pub(crate) fn count_tree(n: u64) -> (v: Value)
    ensures
        count_of(v) == Some(n),
        !is_null(v),
{
    Value::Number(Number::from(n))
}

/// Builds `Value::Sequence`. Claimed: `Value::as_sequence` gives these
/// items for it, and `Value::is_null` is false of it.
#[verifier::external_body]
pub(crate) fn list_tree(items: Vec<Value>) -> (v: Value)
    ensures
        items_of(v) == Some(items@),
        !is_null(v),
{
    Value::Sequence(items)
}

/// Builds `Value::Mapping`. Claimed: `Value::as_mapping` gives this mapping
/// for it, and `Value::is_null` is false of it.
#[verifier::external_body]
pub(crate) fn mapping_tree(m: Mapping) -> (v: Value)
    ensures
        mapping_of(v) == Some(m),
        !is_null(v),
{
    Value::Mapping(m)
}

} // verus!
