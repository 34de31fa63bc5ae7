//! From a document tree, and from text, to a suite.

use crate::fields::{
    entry, expression_entry, flag_entry, list_entry, names_entry, names_of, number_entry,
    read_entry, read_expression, read_flag, read_list, read_names, read_names_of, read_number,
    read_size, read_tags, read_text, read_tree, size_entry, tags_entry, text_entry,
};
use crate::laws::decoded_is_well_formed;
use crate::suite::{
    ExecutorView, ResmokeExecutor, ResmokeSelector, ResmokeSuiteConfig, SelectorView, SuiteView,
    TestRoot, TestRootView,
};
use crate::yaml::{error_text, mapping_of, parse_tree, parsed, text_of, tree_mapping, tree_text};
use serde_yaml::{Mapping, Value};
use vstd::prelude::*;

verus! {

/// The root tests that the keys of a selector give. A `root` that is a text
/// decides; else a `roots` that is a list of names; else there are none.
pub open spec fn root_entry(m: Mapping) -> Option<TestRootView> {
    let by_file = match entry(m, "root"@) {
        Some(v) => text_of(v),
        None => None,
    };
    let by_list = match entry(m, "roots"@) {
        Some(v) => names_of(v),
        None => None,
    };
    match by_file {
        Some(root) => Some(TestRootView::Root { root }),
        None => match by_list {
            Some(roots) => Some(TestRootView::Roots { roots }),
            None => None,
        },
    }
}

/// The selector that a mapping describes, where each key that it has holds
/// a value of its kind.
pub open spec fn decoded_selector(m: Mapping) -> Option<SelectorView> {
    if expression_entry(m, "exclude_tags"@) is Some
        && names_entry(m, "exclude_files"@) is Some
        && tags_entry(m, "exclude_with_any_tags"@) is Some
        && size_entry(m, "group_size"@) is Some
        && number_entry(m, "group_count_multiplier"@) is Some
        && names_entry(m, "include_with_any_tags"@) is Some
        && names_entry(m, "include_files"@) is Some
        && expression_entry(m, "include_tags"@) is Some
        && text_entry(m, "tag_file"@) is Some
        && text_entry(m, "test"@) is Some {
        Some(
            SelectorView {
                exclude_tags: expression_entry(m, "exclude_tags"@)->0,
                exclude_files: names_entry(m, "exclude_files"@)->0,
                exclude_with_any_tags: tags_entry(m, "exclude_with_any_tags"@)->0,
                group_size: size_entry(m, "group_size"@)->0,
                group_count_multiplier: number_entry(m, "group_count_multiplier"@)->0,
                include_with_any_tags: names_entry(m, "include_with_any_tags"@)->0,
                include_files: names_entry(m, "include_files"@)->0,
                include_tags: expression_entry(m, "include_tags"@)->0,
                test_root: root_entry(m),
                tag_file: text_entry(m, "tag_file"@)->0,
                test: text_entry(m, "test"@)->0,
            },
        )
    } else {
        None
    }
}

/// The executor that a mapping describes, where `hooks`, if there, is a list.
pub open spec fn decoded_executor(m: Mapping) -> Option<ExecutorView> {
    match list_entry(m, "hooks"@) {
        Some(hooks) => Some(
            ExecutorView {
                archive: entry(m, "archive"@),
                hooks,
                config: entry(m, "config"@),
                fixture: entry(m, "fixture"@),
            },
        ),
        None => None,
    }
}

/// The mapping under a key that must be there and hold a mapping.
pub open spec fn part(m: Mapping, key: Seq<char>) -> Option<Mapping> {
    match entry(m, key) {
        Some(v) => mapping_of(v),
        None => None,
    }
}

/// The text under a key that must be there and hold a text.
pub open spec fn required_text(m: Mapping, key: Seq<char>) -> Option<Seq<char>> {
    match entry(m, key) {
        Some(v) => text_of(v),
        None => None,
    }
}

/// The suite that a mapping describes: `test_kind`, `selector` and
/// `executor` are there, and each key holds a value of its kind.
pub open spec fn decoded_suite(m: Mapping) -> Option<SuiteView> {
    if flag_entry(m, "matrix_suite"@) is Some
        && text_entry(m, "description"@) is Some
        && required_text(m, "test_kind"@) is Some
        && part(m, "selector"@) is Some
        && part(m, "executor"@) is Some
        && decoded_selector(part(m, "selector"@)->0) is Some
        && decoded_executor(part(m, "executor"@)->0) is Some {
        Some(
            SuiteView {
                matrix_suite: flag_entry(m, "matrix_suite"@)->0,
                description: text_entry(m, "description"@)->0,
                test_kind: required_text(m, "test_kind"@)->0,
                selector: decoded_selector(part(m, "selector"@)->0)->0,
                executor: decoded_executor(part(m, "executor"@)->0)->0,
            },
        )
    } else {
        None
    }
}

/// The suite that a document tree describes, if it describes one.
pub open spec fn decoded(tree: Value) -> Option<SuiteView> {
    match mapping_of(tree) {
        Some(m) => decoded_suite(m),
        None => None,
    }
}

/// The root tests that the keys of a selector give.
pub fn read_root(m: &Mapping) -> (r: Option<TestRoot>)
    ensures
        match r {
            Some(t) => root_entry(*m) == Some(t@),
            None => root_entry(*m) is None,
        },
{
    if let Some(v) = read_entry(m, "root") {
        if let Some(s) = tree_text(v) {
            return Some(TestRoot::Root { root: s.to_owned() });
        }
    }
    if let Some(v) = read_entry(m, "roots") {
        if let Some(roots) = read_names_of(v) {
            return Some(TestRoot::Roots { roots });
        }
    }
    None
}

/// The selector that a mapping describes, or `None` where a key holds a
/// value of another kind than the selector asks for.
pub fn decode_selector(m: &Mapping) -> (r: Option<ResmokeSelector>)
    ensures
        match r {
            Some(s) => decoded_selector(*m) == Some(s@),
            None => decoded_selector(*m) is None,
        },
{
    let exclude_tags = read_expression(m, "exclude_tags")?;
    let exclude_files = read_names(m, "exclude_files")?;
    let exclude_with_any_tags = read_tags(m, "exclude_with_any_tags")?;
    let group_size = read_size(m, "group_size")?;
    let group_count_multiplier = read_number(m, "group_count_multiplier")?;
    let include_with_any_tags = read_names(m, "include_with_any_tags")?;
    let include_files = read_names(m, "include_files")?;
    let include_tags = read_expression(m, "include_tags")?;
    let test_root = read_root(m);
    let tag_file = read_text(m, "tag_file")?;
    let test = read_text(m, "test")?;
    Some(
        ResmokeSelector {
            exclude_tags,
            exclude_files,
            exclude_with_any_tags,
            group_size,
            group_count_multiplier,
            include_with_any_tags,
            include_files,
            include_tags,
            test_root,
            tag_file,
            test,
        },
    )
}

/// The executor that a mapping describes, or `None` where `hooks` is no
/// list.
pub fn decode_executor(m: &Mapping) -> (r: Option<ResmokeExecutor>)
    ensures
        match r {
            Some(e) => decoded_executor(*m) == Some(e@),
            None => decoded_executor(*m) is None,
        },
{
    let hooks = read_list(m, "hooks")?;
    Some(
        ResmokeExecutor {
            archive: read_tree(m, "archive"),
            hooks,
            config: read_tree(m, "config"),
            fixture: read_tree(m, "fixture"),
        },
    )
}

fn read_part<'a>(m: &'a Mapping, key: &str) -> (r: Option<&'a Mapping>)
    ensures
        match r {
            Some(p) => part(*m, key@) == Some(*p),
            None => part(*m, key@) is None,
        },
{
    match read_entry(m, key) {
        Some(v) => tree_mapping(v),
        None => None,
    }
}

/// The suite that a document tree describes, or `None` where it describes
/// none.
pub fn decode_document(tree: &Value) -> (r: Option<ResmokeSuiteConfig>)
    ensures
        match r {
            Some(c) => decoded(*tree) == Some(c@) && c.well_formed(),
            None => decoded(*tree) is None,
        },
{
    let m = tree_mapping(tree)?;
    let matrix_suite = read_flag(m, "matrix_suite")?;
    let description = read_text(m, "description")?;
    let test_kind = match read_entry(m, "test_kind") {
        Some(v) => tree_text(v)?.to_owned(),
        None => {
            return None;
        },
    };
    let selector = decode_selector(read_part(m, "selector")?)?;
    let executor = decode_executor(read_part(m, "executor")?)?;
    proof {
        decoded_is_well_formed(*tree);
    }
    Some(ResmokeSuiteConfig { matrix_suite, description, test_kind, selector, executor })
}

/// Why a text gave no suite.
#[derive(Debug, Clone, Copy, PartialEq, Eq, Structural)]
pub enum ParseErrorKind {
    /// The text is no YAML document.
    Syntax,
    /// The document is not a suite: a required key is missing, or a key
    /// holds a value of another kind than the suite asks for.
    Structure,
}

/// A text that gave no suite, with the reason.
#[derive(Debug)]
pub struct ParseError {
    pub kind: ParseErrorKind,
    /// The text that was refused.
    pub text: String,
    /// The reason in words.
    pub message: String,
}

impl ResmokeSuiteConfig {
    /// Read Resmoke suite configuration from the given string.
    ///
    /// A text that is a YAML document describing a suite gives that suite;
    /// any other gives an error that holds the text, never a suite.
    pub fn from_str(s: &str) -> (r: Result<ResmokeSuiteConfig, ParseError>)
        ensures
            match r {
                Ok(c) => parsed(s@) is Some && decoded(parsed(s@)->0) == Some(c@)
                    && c.well_formed(),
                Err(e) => e.text@ == s@ && match parsed(s@) {
                    None => e.kind == ParseErrorKind::Syntax,
                    Some(tree) => decoded(tree) is None && e.kind == ParseErrorKind::Structure
                        && e.message@ == "the document does not describe a suite"@,
                },
            },
    {
        match parse_tree(s) {
            Ok(tree) => match decode_document(&tree) {
                Some(c) => Ok(c),
                None => Err(
                    ParseError {
                        kind: ParseErrorKind::Structure,
                        text: s.to_owned(),
                        message: "the document does not describe a suite".to_owned(),
                    },
                ),
            },
            Err(e) => Err(
                ParseError {
                    kind: ParseErrorKind::Syntax,
                    text: s.to_owned(),
                    message: error_text(&e),
                },
            ),
        }
    }
}

} // verus!
