//! From a suite to a document tree, and to text. A key is written only for
//! a value that is set.

use crate::fields::{all_text, copy_values, entry, names_of, texts_of};
use crate::suite::{
    expression_view, ExecutorView, ResmokeExecutor, ResmokeSelector, ResmokeSuiteConfig,
    SelectorView, SuiteView, TagExpression, TagExpressionView, TestRoot, TestRootView,
};
use crate::yaml::{
    copy_value, count_of, count_tree, emit_tree, emitted, entries, error_text, flag_of, flag_tree,
    is_null, items_of, list_tree, mapping_new, mapping_of, mapping_put, mapping_tree, text_of,
    text_tree,
};
use serde_yaml::{Mapping, Value};
use vstd::prelude::*;

verus! {

/// The mapping has `key` exactly when `t` is set, and then holds that text.
pub open spec fn shows_text(m: Mapping, key: Seq<char>, t: Option<Seq<char>>) -> bool {
    match t {
        Some(x) => entry(m, key) is Some && text_of(entry(m, key)->0) == Some(x),
        None => !entries(m).contains_key(key),
    }
}

/// The mapping has `key` exactly when `e` is set, and then holds that
/// expression: its text, or the tree of a nested one.
pub open spec fn shows_expression(
    m: Mapping,
    key: Seq<char>,
    e: Option<TagExpressionView>,
) -> bool {
    match e {
        Some(TagExpressionView::Text(t)) => entry(m, key) is Some && text_of(entry(m, key)->0)
            == Some(t),
        Some(TagExpressionView::Nested(v)) => entries(m).contains_key(key) && entries(m)[key] == v,
        None => !entries(m).contains_key(key),
    }
}

/// The mapping has `key` exactly when `l` is set, and then holds that list.
pub open spec fn shows_names(m: Mapping, key: Seq<char>, l: Option<Seq<Seq<char>>>) -> bool {
    match l {
        Some(x) => entry(m, key) is Some && names_of(entry(m, key)->0) == Some(x),
        None => !entries(m).contains_key(key),
    }
}

/// The mapping has `key` exactly when `b` is set, and then holds that flag.
pub open spec fn shows_flag(m: Mapping, key: Seq<char>, b: Option<bool>) -> bool {
    match b {
        Some(x) => entry(m, key) is Some && flag_of(entry(m, key)->0) == Some(x),
        None => !entries(m).contains_key(key),
    }
}

/// The mapping has `key` exactly when `n` is set, and then holds that size.
pub open spec fn shows_size(m: Mapping, key: Seq<char>, n: Option<usize>) -> bool {
    match n {
        Some(x) => entry(m, key) is Some && count_of(entry(m, key)->0) == Some(x as u64),
        None => !entries(m).contains_key(key),
    }
}

/// The mapping has `key` exactly when `t` is set, and then holds that tree.
pub open spec fn shows_tree(m: Mapping, key: Seq<char>, t: Option<Value>) -> bool {
    match t {
        Some(x) => entries(m).contains_key(key) && entries(m)[key] == x,
        None => !entries(m).contains_key(key),
    }
}

/// The mapping has `key` exactly when `l` is set, and then holds the list
/// of those trees.
pub open spec fn shows_list(m: Mapping, key: Seq<char>, l: Option<Seq<Value>>) -> bool {
    match l {
        Some(x) => entry(m, key) is Some && items_of(entry(m, key)->0) == Some(x),
        None => !entries(m).contains_key(key),
    }
}

/// The mapping writes the root tests at its own level: `root` for a file,
/// `roots` for a list, never both, and neither where none are set.
pub open spec fn shows_root(m: Mapping, t: Option<TestRootView>) -> bool {
    match t {
        Some(TestRootView::Root { root }) => shows_text(m, "root"@, Some(root))
            && !entries(m).contains_key("roots"@),
        Some(TestRootView::Roots { roots }) => shows_names(m, "roots"@, Some(roots))
            && !entries(m).contains_key("root"@),
        None => !entries(m).contains_key("root"@) && !entries(m).contains_key("roots"@),
    }
}

/// Whether `k` is a key of a selector.
pub open spec fn selector_key(k: Seq<char>) -> bool {
    ||| k == "exclude_tags"@
    ||| k == "exclude_files"@
    ||| k == "exclude_with_any_tags"@
    ||| k == "group_size"@
    ||| k == "group_count_multiplier"@
    ||| k == "include_with_any_tags"@
    ||| k == "include_files"@
    ||| k == "include_tags"@
    ||| k == "root"@
    ||| k == "roots"@
    ||| k == "tag_file"@
    ||| k == "test"@
}

/// Whether `k` is a key of an executor.
pub open spec fn executor_key(k: Seq<char>) -> bool {
    k == "archive"@ || k == "hooks"@ || k == "config"@ || k == "fixture"@
}

/// Whether `k` is a key of a suite.
pub open spec fn suite_key(k: Seq<char>) -> bool {
    ||| k == "matrix_suite"@
    ||| k == "description"@
    ||| k == "test_kind"@
    ||| k == "selector"@
    ||| k == "executor"@
}

/// The mapping writes the selector `s`: a key for each value that is set,
/// none for one that is not, and no other string as a key.
pub open spec fn shows_selector(m: Mapping, s: SelectorView) -> bool {
    &&& forall|k: Seq<char>| #[trigger] entries(m).contains_key(k) ==> selector_key(k)
    &&& shows_expression(m, "exclude_tags"@, s.exclude_tags)
    &&& shows_names(m, "exclude_files"@, s.exclude_files)
    &&& shows_names(m, "exclude_with_any_tags"@, s.exclude_with_any_tags)
    &&& shows_size(m, "group_size"@, s.group_size)
    &&& shows_tree(m, "group_count_multiplier"@, s.group_count_multiplier)
    &&& shows_names(m, "include_with_any_tags"@, s.include_with_any_tags)
    &&& shows_names(m, "include_files"@, s.include_files)
    &&& shows_expression(m, "include_tags"@, s.include_tags)
    &&& shows_root(m, s.test_root)
    &&& shows_text(m, "tag_file"@, s.tag_file)
    &&& shows_text(m, "test"@, s.test)
}

/// The mapping writes the executor `e`.
pub open spec fn shows_executor(m: Mapping, e: ExecutorView) -> bool {
    &&& forall|k: Seq<char>| #[trigger] entries(m).contains_key(k) ==> executor_key(k)
    &&& shows_tree(m, "archive"@, e.archive)
    &&& shows_list(m, "hooks"@, e.hooks)
    &&& shows_tree(m, "config"@, e.config)
    &&& shows_tree(m, "fixture"@, e.fixture)
}

/// Under `key` the mapping holds a mapping.
pub open spec fn has_part(m: Mapping, key: Seq<char>) -> bool {
    entry(m, key) is Some && mapping_of(entry(m, key)->0) is Some
}

/// The mapping under `key`.
pub open spec fn part_at(m: Mapping, key: Seq<char>) -> Mapping {
    mapping_of(entry(m, key)->0)->0
}

/// The mapping writes the suite `c`.
pub open spec fn shows_suite(m: Mapping, c: SuiteView) -> bool {
    &&& forall|k: Seq<char>| #[trigger] entries(m).contains_key(k) ==> suite_key(k)
    &&& shows_flag(m, "matrix_suite"@, c.matrix_suite)
    &&& shows_text(m, "description"@, c.description)
    &&& shows_text(m, "test_kind"@, Some(c.test_kind))
    &&& has_part(m, "selector"@)
    &&& shows_selector(part_at(m, "selector"@), c.selector)
    &&& has_part(m, "executor"@)
    &&& shows_executor(part_at(m, "executor"@), c.executor)
}

/// The tree is a mapping that writes the suite `c`.
pub open spec fn encodes(tree: Value, c: SuiteView) -> bool {
    mapping_of(tree) is Some && shows_suite(mapping_of(tree)->0, c)
}

/// The two mappings agree on every key but `key`.
pub open spec fn same_but(a: Mapping, b: Mapping, key: Seq<char>) -> bool {
    forall|k: Seq<char>|
        #![trigger entries(a).contains_key(k)]
        #![trigger entries(a)[k]]
        k != key ==> entries(a).contains_key(k) == entries(b).contains_key(k) && entries(a)[k]
            == entries(b)[k]
}

/// The keys of a selector differ: by length, or by the first letter.
proof fn selector_keys()
    ensures
        "exclude_tags"@.len() == 12,
        "exclude_tags"@[0] == 'e',
        "exclude_files"@.len() == 13,
        "exclude_files"@[0] == 'e',
        "exclude_with_any_tags"@.len() == 21,
        "exclude_with_any_tags"@[0] == 'e',
        "group_size"@.len() == 10,
        "group_size"@[0] == 'g',
        "group_count_multiplier"@.len() == 22,
        "group_count_multiplier"@[0] == 'g',
        "include_with_any_tags"@.len() == 21,
        "include_with_any_tags"@[0] == 'i',
        "include_files"@.len() == 13,
        "include_files"@[0] == 'i',
        "include_tags"@.len() == 12,
        "include_tags"@[0] == 'i',
        "root"@.len() == 4,
        "root"@[0] == 'r',
        "roots"@.len() == 5,
        "roots"@[0] == 'r',
        "tag_file"@.len() == 8,
        "tag_file"@[0] == 't',
        "test"@.len() == 4,
        "test"@[0] == 't',
{
    reveal_strlit("exclude_tags");
    reveal_strlit("exclude_files");
    reveal_strlit("exclude_with_any_tags");
    reveal_strlit("group_size");
    reveal_strlit("group_count_multiplier");
    reveal_strlit("include_with_any_tags");
    reveal_strlit("include_files");
    reveal_strlit("include_tags");
    reveal_strlit("root");
    reveal_strlit("roots");
    reveal_strlit("tag_file");
    reveal_strlit("test");
}

/// The keys of an executor differ: by length, or by the first letter.
proof fn executor_keys()
    ensures
        "archive"@.len() == 7,
        "archive"@[0] == 'a',
        "hooks"@.len() == 5,
        "hooks"@[0] == 'h',
        "config"@.len() == 6,
        "config"@[0] == 'c',
        "fixture"@.len() == 7,
        "fixture"@[0] == 'f',
{
    reveal_strlit("archive");
    reveal_strlit("hooks");
    reveal_strlit("config");
    reveal_strlit("fixture");
}

/// The keys of a suite differ: by length, or by the first letter.
proof fn suite_keys()
    ensures
        "matrix_suite"@.len() == 12,
        "matrix_suite"@[0] == 'm',
        "description"@.len() == 11,
        "description"@[0] == 'd',
        "test_kind"@.len() == 9,
        "test_kind"@[0] == 't',
        "selector"@.len() == 8,
        "selector"@[0] == 's',
        "executor"@.len() == 8,
        "executor"@[0] == 'e',
{
    reveal_strlit("matrix_suite");
    reveal_strlit("description");
    reveal_strlit("test_kind");
    reveal_strlit("selector");
    reveal_strlit("executor");
}

/// The tree that lists `names`, each as a text.
pub fn names_tree(names: &Vec<String>) -> (v: Value)
    ensures
        names_of(v) == Some(names.deep_view()),
        !is_null(v),
{
    let mut items: Vec<Value> = Vec::new();
    let mut i: usize = 0;
    while i < names.len()
        invariant
            i <= names.len(),
            items@.len() == i,
            forall|j: int| 0 <= j < i ==> (#[trigger] text_of(items@[j])) == Some(names@[j]@),
        decreases names.len() - i,
    {
        items.push(text_tree(names[i].as_str()));
        i += 1;
    }
    assert(all_text(items@));
    assert(texts_of(items@)->0 =~= names.deep_view());
    list_tree(items)
}

fn put_text(m: &mut Mapping, key: &str, t: &Option<String>)
    requires
        !entries(*old(m)).contains_key(key@),
    ensures
        shows_text(*final(m), key@, t.deep_view()),
        same_but(*final(m), *old(m), key@),
{
    if let Some(s) = t {
        mapping_put(m, key, text_tree(s.as_str()));
    }
}

fn put_expression(m: &mut Mapping, key: &str, e: &Option<TagExpression>)
    requires
        !entries(*old(m)).contains_key(key@),
    ensures
        shows_expression(*final(m), key@, expression_view(*e)),
        same_but(*final(m), *old(m), key@),
{
    match e {
        Some(TagExpression::Text(t)) => {
            mapping_put(m, key, text_tree(t.as_str()));
        },
        Some(TagExpression::Nested(v)) => {
            mapping_put(m, key, copy_value(v));
        },
        None => {},
    }
}

fn put_names(m: &mut Mapping, key: &str, l: &Option<Vec<String>>)
    requires
        !entries(*old(m)).contains_key(key@),
    ensures
        shows_names(*final(m), key@, l.deep_view()),
        same_but(*final(m), *old(m), key@),
{
    if let Some(names) = l {
        mapping_put(m, key, names_tree(names));
    }
}

fn put_flag(m: &mut Mapping, key: &str, b: Option<bool>)
    requires
        !entries(*old(m)).contains_key(key@),
    ensures
        shows_flag(*final(m), key@, b),
        same_but(*final(m), *old(m), key@),
{
    if let Some(x) = b {
        mapping_put(m, key, flag_tree(x));
    }
}

fn put_size(m: &mut Mapping, key: &str, n: Option<usize>)
    requires
        !entries(*old(m)).contains_key(key@),
    ensures
        shows_size(*final(m), key@, n),
        same_but(*final(m), *old(m), key@),
{
    if let Some(x) = n {
        mapping_put(m, key, count_tree(x as u64));
    }
}

fn put_tree(m: &mut Mapping, key: &str, t: &Option<Value>)
    requires
        !entries(*old(m)).contains_key(key@),
    ensures
        shows_tree(*final(m), key@, *t),
        same_but(*final(m), *old(m), key@),
{
    if let Some(v) = t {
        mapping_put(m, key, copy_value(v));
    }
}

fn put_list(m: &mut Mapping, key: &str, l: &Option<Vec<Value>>)
    requires
        !entries(*old(m)).contains_key(key@),
    ensures
        shows_list(
            *final(m),
            key@,
            match *l {
                Some(x) => Some(x@),
                None => None,
            },
        ),
        same_but(*final(m), *old(m), key@),
{
    if let Some(trees) = l {
        mapping_put(m, key, list_tree(copy_values(trees)));
    }
}

fn put_root(m: &mut Mapping, t: &Option<TestRoot>)
    requires
        !entries(*old(m)).contains_key("root"@),
        !entries(*old(m)).contains_key("roots"@),
    ensures
        shows_root(
            *final(m),
            match *t {
                Some(x) => Some(x@),
                None => None,
            },
        ),
        forall|k: Seq<char>|
            #![trigger entries(*final(m)).contains_key(k)]
            #![trigger entries(*final(m))[k]]
            k != "root"@ && k != "roots"@ ==> entries(*final(m)).contains_key(k) == entries(
                *old(m),
            ).contains_key(k) && entries(*final(m))[k] == entries(*old(m))[k],
{
    proof {
        selector_keys();
    }
    match t {
        Some(TestRoot::Root { root }) => {
            mapping_put(m, "root", text_tree(root.as_str()));
        },
        Some(TestRoot::Roots { roots }) => {
            mapping_put(m, "roots", names_tree(roots));
        },
        None => {},
    }
}

/// The mapping that writes a selector.
pub fn encode_selector(s: &ResmokeSelector) -> (m: Mapping)
    ensures
        shows_selector(m, s@),
{
    proof {
        selector_keys();
    }
    let mut m = mapping_new();
    put_expression(&mut m, "exclude_tags", &s.exclude_tags);
    put_names(&mut m, "exclude_files", &s.exclude_files);
    put_names(&mut m, "exclude_with_any_tags", &s.exclude_with_any_tags);
    put_size(&mut m, "group_size", s.group_size);
    put_tree(&mut m, "group_count_multiplier", &s.group_count_multiplier);
    put_names(&mut m, "include_with_any_tags", &s.include_with_any_tags);
    put_names(&mut m, "include_files", &s.include_files);
    put_expression(&mut m, "include_tags", &s.include_tags);
    put_root(&mut m, &s.test_root);
    put_text(&mut m, "tag_file", &s.tag_file);
    put_text(&mut m, "test", &s.test);
    m
}

/// The mapping that writes an executor.
pub fn encode_executor(e: &ResmokeExecutor) -> (m: Mapping)
    ensures
        shows_executor(m, e@),
{
    proof {
        executor_keys();
    }
    let mut m = mapping_new();
    put_tree(&mut m, "archive", &e.archive);
    put_list(&mut m, "hooks", &e.hooks);
    put_tree(&mut m, "config", &e.config);
    put_tree(&mut m, "fixture", &e.fixture);
    m
}

/// The document tree that writes a suite.
pub fn encode_document(c: &ResmokeSuiteConfig) -> (tree: Value)
    ensures
        encodes(tree, c@),
{
    proof {
        suite_keys();
    }
    let mut m = mapping_new();
    put_flag(&mut m, "matrix_suite", c.matrix_suite);
    put_text(&mut m, "description", &c.description);
    mapping_put(&mut m, "test_kind", text_tree(c.test_kind.as_str()));
    mapping_put(&mut m, "selector", mapping_tree(encode_selector(&c.selector)));
    mapping_put(&mut m, "executor", mapping_tree(encode_executor(&c.executor)));
    mapping_tree(m)
}

/// A suite that could not be written as text, with the reason in words.
#[derive(Debug)]
pub struct EmitError {
    pub message: String,
}

impl ResmokeSuiteConfig {
    /// Convert this resmoke suite configuration to a string.
    ///
    /// The text is that of a document tree that writes this suite; the error
    /// comes exactly when that tree has no text.
    pub fn to_string(&self) -> (r: Result<String, EmitError>)
        ensures
            exists|tree: Value| #[trigger]
                encodes(tree, self@) && match r {
                    Ok(text) => emitted(tree) == Some(text@),
                    Err(_) => emitted(tree) is None,
                },
    {
        let tree = encode_document(self);
        match emit_tree(&tree) {
            Ok(text) => Ok(text),
            Err(e) => Err(EmitError { message: error_text(&e) }),
        }
    }
}

} // verus!
