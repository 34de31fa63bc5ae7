//! What holds of reading, writing and deriving suites, whatever the suite.

use crate::decode::{decoded, decoded_executor, decoded_selector, part, required_text, root_entry};
use crate::encode::{
    encodes, part_at, shows_executor, shows_expression, shows_names, shows_root, shows_selector,
    shows_size, shows_text, shows_tree,
};
use crate::fields::{
    distinct, expression_entry, names_entry, number_entry, size_entry, tags_entry, text_entry,
};
use crate::suite::{
    derived_selector, excluded_after, ExecutorView, SelectorView, SuiteView, TagExpressionView,
    TestRootView,
};
use crate::yaml::{emitted, entries, is_null, is_number, mapping_of, parsed};
use serde_yaml::{Mapping, Value};
use vstd::prelude::*;

verus! {

/// Every name of `distinct(s)` is a name of `s`.
pub proof fn distinct_within(s: Seq<Seq<char>>, name: Seq<char>)
    requires
        distinct(s).contains(name),
    ensures
        s.contains(name),
    decreases s.len(),
{
    if s.len() > 0 {
        let front = distinct(s.drop_last());
        if front.contains(name) {
            distinct_within(s.drop_last(), name);
            let i = choose|i: int| 0 <= i < s.drop_last().len() && s.drop_last()[i] == name;
            assert(s[i] == name);
        } else {
            let i = choose|i: int| 0 <= i < distinct(s).len() && distinct(s)[i] == name;
            assert(name == s.last());
            assert(s[s.len() - 1] == name);
        }
    }
}

/// Every name of `s` is a name of `distinct(s)`.
pub proof fn distinct_covers(s: Seq<Seq<char>>, name: Seq<char>)
    requires
        s.contains(name),
    ensures
        distinct(s).contains(name),
    decreases s.len(),
{
    let front = distinct(s.drop_last());
    let i = choose|i: int| 0 <= i < s.len() && s[i] == name;
    if i < s.len() - 1 {
        assert(s.drop_last()[i] == name);
        distinct_covers(s.drop_last(), name);
        if !front.contains(s.last()) {
            let j = choose|j: int| 0 <= j < front.len() && front[j] == name;
            assert(front.push(s.last())[j] == name);
        }
    } else {
        if !front.contains(s.last()) {
            assert(front.push(s.last())[front.len() as int] == name);
        }
    }
}

/// No name occurs twice in `distinct(s)`.
pub proof fn distinct_has_no_duplicates(s: Seq<Seq<char>>)
    ensures
        distinct(s).no_duplicates(),
    decreases s.len(),
{
    if s.len() > 0 {
        distinct_has_no_duplicates(s.drop_last());
    }
}

/// A list in which no name occurs twice is its own `distinct`.
pub proof fn distinct_keeps_a_set(s: Seq<Seq<char>>)
    requires
        s.no_duplicates(),
    ensures
        distinct(s) == s,
    decreases s.len(),
{
    if s.len() > 0 {
        let front = s.drop_last();
        distinct_keeps_a_set(front);
        if front.contains(s.last()) {
            let i = choose|i: int| 0 <= i < front.len() && front[i] == s.last();
            assert(s[i] == s[s.len() - 1]);
        }
        assert(front.push(s.last()) =~= s);
    }
}

/// A suite read from a document is well formed.
pub proof fn decoded_is_well_formed(tree: Value)
    requires
        decoded(tree) is Some,
    ensures
        decoded(tree)->0.well_formed(),
{
    let m = mapping_of(tree)->0;
    let s = part(m, "selector"@)->0;
    match names_entry(s, "exclude_with_any_tags"@) {
        Some(Some(l)) => {
            distinct_has_no_duplicates(l);
        },
        _ => {},
    }
}

/// Reading back what was written: a document tree that writes a well
/// formed suite is read as that suite, each value that is set and each
/// value that is not as it was.
pub proof fn read_after_write(tree: Value, c: SuiteView)
    requires
        encodes(tree, c),
        c.well_formed(),
    ensures
        decoded(tree) == Some(c),
{
    let m = mapping_of(tree)->0;
    selector_read_after_write(part_at(m, "selector"@), c.selector);
    executor_read_after_write(part_at(m, "executor"@), c.executor);
}

/// Reading back the text that was written, where the text written for a
/// tree is read as that tree: the suite read is the suite written.
pub proof fn read_after_write_as_text(text: Seq<char>, tree: Value, c: SuiteView)
    requires
        encodes(tree, c),
        c.well_formed(),
        emitted(tree) == Some(text),
        parsed(text) == Some(tree),
    ensures
        parsed(text) is Some,
        decoded(parsed(text)->0) == Some(c),
{
    read_after_write(tree, c);
}

/// A text that was written under a key is read back from it.
pub proof fn text_read_back(m: Mapping, key: Seq<char>, t: Option<Seq<char>>)
    requires
        shows_text(m, key, t),
    ensures
        text_entry(m, key) == Some(t),
{
}

/// A tag matching expression that was written under a key is read back
/// from it.
pub proof fn expression_read_back(m: Mapping, key: Seq<char>, e: Option<TagExpressionView>)
    requires
        shows_expression(m, key, e),
        e is Some ==> e->0.well_formed(),
    ensures
        expression_entry(m, key) == Some(e),
{
}

/// A list of names that was written under a key is read back from it.
pub proof fn names_read_back(m: Mapping, key: Seq<char>, l: Option<Seq<Seq<char>>>)
    requires
        shows_names(m, key, l),
    ensures
        names_entry(m, key) == Some(l),
{
}

/// A set of names that was written under a key is read back from it.
pub proof fn tags_read_back(m: Mapping, key: Seq<char>, l: Option<Seq<Seq<char>>>)
    requires
        shows_names(m, key, l),
        l is Some ==> l->0.no_duplicates(),
    ensures
        tags_entry(m, key) == Some(l),
{
    if l is Some {
        distinct_keeps_a_set(l->0);
    }
}

/// A size that was written under a key is read back from it.
pub proof fn size_read_back(m: Mapping, key: Seq<char>, n: Option<usize>)
    requires
        shows_size(m, key, n),
    ensures
        size_entry(m, key) == Some(n),
{
}

/// A number that was written under a key is read back from it.
pub proof fn number_read_back(m: Mapping, key: Seq<char>, t: Option<Value>)
    requires
        shows_tree(m, key, t),
        t is Some ==> is_number(t->0) && !is_null(t->0),
    ensures
        number_entry(m, key) == Some(t),
{
}

/// The root tests that were written are read back.
pub proof fn root_read_back(m: Mapping, t: Option<TestRootView>)
    requires
        shows_root(m, t),
    ensures
        root_entry(m) == t,
{
}

/// Reading back a selector that was written.
pub proof fn selector_read_after_write(m: Mapping, s: SelectorView)
    requires
        shows_selector(m, s),
        s.well_formed(),
    ensures
        decoded_selector(m) == Some(s),
{
    expression_read_back(m, "exclude_tags"@, s.exclude_tags);
    names_read_back(m, "exclude_files"@, s.exclude_files);
    tags_read_back(m, "exclude_with_any_tags"@, s.exclude_with_any_tags);
    size_read_back(m, "group_size"@, s.group_size);
    number_read_back(m, "group_count_multiplier"@, s.group_count_multiplier);
    names_read_back(m, "include_with_any_tags"@, s.include_with_any_tags);
    names_read_back(m, "include_files"@, s.include_files);
    expression_read_back(m, "include_tags"@, s.include_tags);
    root_read_back(m, s.test_root);
    text_read_back(m, "tag_file"@, s.tag_file);
    text_read_back(m, "test"@, s.test);
}

/// Reading back an executor that was written.
pub proof fn executor_read_after_write(m: Mapping, e: ExecutorView)
    requires
        shows_executor(m, e),
        e.well_formed(),
    ensures
        decoded_executor(m) == Some(e),
{
}

/// A value of a selector that is not set has no key in what is written.
pub proof fn unset_selector_keys_are_omitted(m: Mapping, s: SelectorView)
    requires
        shows_selector(m, s),
    ensures
        s.exclude_tags is None ==> !entries(m).contains_key("exclude_tags"@),
        s.exclude_files is None ==> !entries(m).contains_key("exclude_files"@),
        s.exclude_with_any_tags is None ==> !entries(m).contains_key("exclude_with_any_tags"@),
        s.group_size is None ==> !entries(m).contains_key("group_size"@),
        s.group_count_multiplier is None ==> !entries(m).contains_key("group_count_multiplier"@),
        s.include_with_any_tags is None ==> !entries(m).contains_key("include_with_any_tags"@),
        s.include_files is None ==> !entries(m).contains_key("include_files"@),
        s.include_tags is None ==> !entries(m).contains_key("include_tags"@),
        !(s.test_root is Some && s.test_root->0 is Root) ==> !entries(m).contains_key("root"@),
        !(s.test_root is Some && s.test_root->0 is Roots) ==> !entries(m).contains_key("roots"@),
        s.tag_file is None ==> !entries(m).contains_key("tag_file"@),
        s.test is None ==> !entries(m).contains_key("test"@),
{
}

/// A value of an executor that is not set has no key in what is written.
pub proof fn unset_executor_keys_are_omitted(m: Mapping, e: ExecutorView)
    requires
        shows_executor(m, e),
    ensures
        e.archive is None ==> !entries(m).contains_key("archive"@),
        e.hooks is None ==> !entries(m).contains_key("hooks"@),
        e.config is None ==> !entries(m).contains_key("config"@),
        e.fixture is None ==> !entries(m).contains_key("fixture"@),
{
}

/// A value of a suite that is not set has no key in what is written, at
/// the top and in both of its parts.
pub proof fn unset_keys_are_omitted(tree: Value, c: SuiteView)
    requires
        encodes(tree, c),
    ensures
        c.matrix_suite is None ==> !entries(mapping_of(tree)->0).contains_key("matrix_suite"@),
        c.description is None ==> !entries(mapping_of(tree)->0).contains_key("description"@),
        shows_selector(part_at(mapping_of(tree)->0, "selector"@), c.selector),
        shows_executor(part_at(mapping_of(tree)->0, "executor"@), c.executor),
{
}

/// A selector without the keys `root` and `roots` is read without root
/// tests; one read with root tests has them from one of the two keys.
pub proof fn root_tests_come_from_one_key(m: Mapping)
    ensures
        !entries(m).contains_key("root"@) && !entries(m).contains_key("roots"@) ==> root_entry(
            m,
        ) is None,
        root_entry(m) is Some && root_entry(m)->0 is Root ==> entries(m).contains_key("root"@),
        root_entry(m) is Some && root_entry(m)->0 is Roots ==> entries(m).contains_key("roots"@),
{
}

/// A document that is read as a suite is a mapping with a text under
/// `test_kind` and a mapping under each of `selector` and `executor`: one
/// that lacks any of them is refused.
pub proof fn required_keys(tree: Value)
    requires
        decoded(tree) is Some,
    ensures
        mapping_of(tree) is Some,
        required_text(mapping_of(tree)->0, "test_kind"@) == Some(decoded(tree)->0.test_kind),
        part(mapping_of(tree)->0, "selector"@) is Some,
        part(mapping_of(tree)->0, "executor"@) is Some,
{
}

/// Leaving tests out appends them to the exclusions, in order and as often
/// as given, and changes nothing else of the selector: the root tests stay.
pub proof fn exclusion_appends(
    s: SelectorView,
    run: Option<Seq<Seq<char>>>,
    added: Seq<Seq<char>>,
)
    ensures
        derived_selector(s, run, Some(added)) == (SelectorView {
            exclude_files: Some(excluded_after(s.exclude_files, added)),
            ..s
        }),
        derived_selector(s, run, Some(added)).test_root == s.test_root,
        s.exclude_files is Some ==> derived_selector(s, run, Some(added)).exclude_files
            == Some(s.exclude_files->0 + added),
        s.exclude_files is None ==> derived_selector(s, run, Some(added)).exclude_files == Some(
            added,
        ),
        excluded_after(s.exclude_files, added).len() == (match s.exclude_files {
            Some(f) => f.len(),
            None => 0,
        }) + added.len(),
{
}

/// Running given tests makes them the root tests, drops the exclusions and
/// changes nothing else of the selector.
pub proof fn running_replaces(s: SelectorView, tests: Seq<Seq<char>>)
    ensures
        derived_selector(s, Some(tests), None) == (SelectorView {
            exclude_files: None,
            test_root: Some(TestRootView::Roots { roots: tests }),
            ..s
        }),
{
}

/// Where tests are left out, the tests to run are not looked at.
pub proof fn exclusion_decides(
    s: SelectorView,
    run: Option<Seq<Seq<char>>>,
    other: Option<Seq<Seq<char>>>,
    added: Seq<Seq<char>>,
)
    ensures
        derived_selector(s, run, Some(added)) == derived_selector(s, other, Some(added)),
        derived_selector(s, run, Some(added)) == derived_selector(s, None, Some(added)),
{
}

/// Without either list the selector stays as it is.
pub proof fn nothing_asked_nothing_changed(s: SelectorView)
    ensures
        derived_selector(s, None, None) == s,
{
}

/// Deriving keeps a selector well formed.
pub proof fn derived_stays_well_formed(
    s: SelectorView,
    run: Option<Seq<Seq<char>>>,
    exclude: Option<Seq<Seq<char>>>,
)
    requires
        s.well_formed(),
    ensures
        derived_selector(s, run, exclude).well_formed(),
{
}

} // verus!
