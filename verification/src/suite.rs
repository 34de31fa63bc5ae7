//! The suite model and the derivation of a suite for other tests.

use crate::fields::copy_values;
use crate::names::{append_names, copy_names};
use crate::yaml::{copy_value, is_null, is_number, mapping_of, text_of};
use serde_yaml::Value;
use vstd::prelude::*;

verus! {

/// Where the root tests of a suite come from.
#[derive(Debug)]
pub enum TestRoot {
    /// The path to a file containing the list of root tests.
    Root { root: String },
    /// A list of root tests.
    Roots { roots: Vec<String> },
}

/// What a `TestRoot` stands for.
pub enum TestRootView {
    Root { root: Seq<char> },
    Roots { roots: Seq<Seq<char>> },
}

impl View for TestRoot {
    type V = TestRootView;

    open spec fn view(&self) -> TestRootView {
        match *self {
            TestRoot::Root { root } => TestRootView::Root { root: root@ },
            TestRoot::Roots { roots } => TestRootView::Roots { roots: roots.deep_view() },
        }
    }
}

impl Clone for TestRoot {
    fn clone(&self) -> (r: Self)
        ensures
            r@ == self@,
    {
        match self {
            TestRoot::Root { root } => TestRoot::Root { root: root.clone() },
            TestRoot::Roots { roots } => TestRoot::Roots { roots: copy_names(roots.as_slice()) },
        }
    }
}


/// A tag matching expression: a text, or a nested expression, which is a
/// mapping carried as the document held it.
#[derive(Debug)]
pub enum TagExpression {
    Text(String),
    Nested(Value),
}

/// What a `TagExpression` stands for.
pub enum TagExpressionView {
    Text(Seq<char>),
    Nested(Value),
}

impl TagExpressionView {
    /// A nested expression is a mapping, and so neither null nor a text.
    pub open spec fn well_formed(self) -> bool {
        match self {
            TagExpressionView::Text(_) => true,
            TagExpressionView::Nested(v) => {
                !is_null(v) && text_of(v) is None && mapping_of(v) is Some
            },
        }
    }
}

impl View for TagExpression {
    type V = TagExpressionView;

    open spec fn view(&self) -> TagExpressionView {
        match *self {
            TagExpression::Text(t) => TagExpressionView::Text(t@),
            TagExpression::Nested(v) => TagExpressionView::Nested(v),
        }
    }
}

impl Clone for TagExpression {
    fn clone(&self) -> (r: Self)
        ensures
            r@ == self@,
    {
        match self {
            TagExpression::Text(t) => TagExpression::Text(t.clone()),
            TagExpression::Nested(v) => TagExpression::Nested(copy_value(v)),
        }
    }
}

/// What an optional tag matching expression stands for.
pub open spec fn expression_view(e: Option<TagExpression>) -> Option<TagExpressionView> {
    match e {
        Some(x) => Some(x@),
        None => None,
    }
}

fn copy_expression(e: &Option<TagExpression>) -> (r: Option<TagExpression>)
    ensures
        expression_view(r) == expression_view(*e),
{
    match e {
        Some(x) => Some(x.clone()),
        None => None,
    }
}

/// Which tests a suite runs.
#[derive(Debug)]
pub struct ResmokeSelector {
    /// A tag matching expression that the tags of the selected tests must
    /// not match. Incompatible with `include_tags`.
    pub exclude_tags: Option<TagExpression>,
    /// Paths or glob patterns the tests must not be included in.
    pub exclude_files: Option<Vec<String>>,
    /// Tags, each held once. No selected test can have any of them.
    pub exclude_with_any_tags: Option<Vec<String>>,
    pub group_size: Option<usize>,
    /// A number, carried as the document held it.
    pub group_count_multiplier: Option<Value>,
    /// Tags. All selected tests must have at least one of them.
    pub include_with_any_tags: Option<Vec<String>>,
    /// Paths or glob patterns the tests must be included in.
    pub include_files: Option<Vec<String>>,
    /// A tag matching expression that the tags of the selected tests must
    /// match. Incompatible with `exclude_tags`.
    pub include_tags: Option<TagExpression>,
    /// Written at the level of the other keys, as `root` or as `roots`.
    pub test_root: Option<TestRoot>,
    /// Filename of a tag file associating tests to tags.
    pub tag_file: Option<String>,
    pub test: Option<String>,
}

/// What a `ResmokeSelector` stands for.
pub struct SelectorView {
    pub exclude_tags: Option<TagExpressionView>,
    pub exclude_files: Option<Seq<Seq<char>>>,
    pub exclude_with_any_tags: Option<Seq<Seq<char>>>,
    pub group_size: Option<usize>,
    pub group_count_multiplier: Option<Value>,
    pub include_with_any_tags: Option<Seq<Seq<char>>>,
    pub include_files: Option<Seq<Seq<char>>>,
    pub include_tags: Option<TagExpressionView>,
    pub test_root: Option<TestRootView>,
    pub tag_file: Option<Seq<char>>,
    pub test: Option<Seq<char>>,
}

impl SelectorView {
    /// The tag matching expressions are well formed, the tags to leave out
    /// are held once each, and the multiplier is a number.
    pub open spec fn well_formed(self) -> bool {
        &&& self.exclude_tags is Some ==> self.exclude_tags->0.well_formed()
        &&& self.include_tags is Some ==> self.include_tags->0.well_formed()
        &&& self.exclude_with_any_tags is Some ==> self.exclude_with_any_tags->0.no_duplicates()
        &&& self.group_count_multiplier is Some ==> is_number(self.group_count_multiplier->0)
            && !is_null(self.group_count_multiplier->0)
    }
}

impl View for ResmokeSelector {
    type V = SelectorView;

    open spec fn view(&self) -> SelectorView {
        SelectorView {
            exclude_tags: expression_view(self.exclude_tags),
            exclude_files: self.exclude_files.deep_view(),
            exclude_with_any_tags: self.exclude_with_any_tags.deep_view(),
            group_size: self.group_size,
            group_count_multiplier: self.group_count_multiplier,
            include_with_any_tags: self.include_with_any_tags.deep_view(),
            include_files: self.include_files.deep_view(),
            include_tags: expression_view(self.include_tags),
            test_root: match self.test_root {
                Some(t) => Some(t@),
                None => None,
            },
            tag_file: self.tag_file.deep_view(),
            test: self.test.deep_view(),
        }
    }
}

fn copy_text(t: &Option<String>) -> (r: Option<String>)
    ensures
        r.deep_view() == t.deep_view(),
{
    match t {
        Some(s) => Some(s.clone()),
        None => None,
    }
}

fn copy_list(t: &Option<Vec<String>>) -> (r: Option<Vec<String>>)
    ensures
        r.deep_view() == t.deep_view(),
{
    match t {
        Some(v) => Some(copy_names(v.as_slice())),
        None => None,
    }
}

fn copy_tree(t: &Option<Value>) -> (r: Option<Value>)
    ensures
        r == *t,
{
    match t {
        Some(v) => Some(copy_value(v)),
        None => None,
    }
}

fn copy_trees(t: &Option<Vec<Value>>) -> (r: Option<Vec<Value>>)
    ensures
        r is Some == t is Some,
        t is Some ==> r->0@ == t->0@,
{
    match t {
        Some(v) => Some(copy_values(v)),
        None => None,
    }
}

impl Clone for ResmokeSelector {
    fn clone(&self) -> (r: Self)
        ensures
            r@ == self@,
    {
        ResmokeSelector {
            exclude_tags: copy_expression(&self.exclude_tags),
            exclude_files: copy_list(&self.exclude_files),
            exclude_with_any_tags: copy_list(&self.exclude_with_any_tags),
            group_size: self.group_size,
            group_count_multiplier: copy_tree(&self.group_count_multiplier),
            include_with_any_tags: copy_list(&self.include_with_any_tags),
            include_files: copy_list(&self.include_files),
            include_tags: copy_expression(&self.include_tags),
            test_root: match &self.test_root {
                Some(t) => Some(t.clone()),
                None => None,
            },
            tag_file: copy_text(&self.tag_file),
            test: copy_text(&self.test),
        }
    }
}

/// How the selected tests are run. Each value is carried as the document
/// held it and is never read.
#[derive(Debug)]
pub struct ResmokeExecutor {
    pub archive: Option<Value>,
    pub hooks: Option<Vec<Value>>,
    pub config: Option<Value>,
    pub fixture: Option<Value>,
}

/// What a `ResmokeExecutor` stands for.
pub struct ExecutorView {
    pub archive: Option<Value>,
    pub hooks: Option<Seq<Value>>,
    pub config: Option<Value>,
    pub fixture: Option<Value>,
}

impl ExecutorView {
    /// A value that is set is not null.
    pub open spec fn well_formed(self) -> bool {
        &&& self.archive is Some ==> !is_null(self.archive->0)
        &&& self.config is Some ==> !is_null(self.config->0)
        &&& self.fixture is Some ==> !is_null(self.fixture->0)
    }
}

impl View for ResmokeExecutor {
    type V = ExecutorView;

    open spec fn view(&self) -> ExecutorView {
        ExecutorView {
            archive: self.archive,
            hooks: match self.hooks {
                Some(h) => Some(h@),
                None => None,
            },
            config: self.config,
            fixture: self.fixture,
        }
    }
}

impl Clone for ResmokeExecutor {
    fn clone(&self) -> (r: Self)
        ensures
            r@ == self@,
    {
        ResmokeExecutor {
            archive: copy_tree(&self.archive),
            hooks: copy_trees(&self.hooks),
            config: copy_tree(&self.config),
            fixture: copy_tree(&self.fixture),
        }
    }
}

/// Configuration of a resmoke test suite.
#[derive(Debug)]
pub struct ResmokeSuiteConfig {
    pub matrix_suite: Option<bool>,
    pub description: Option<String>,
    pub test_kind: String,
    pub selector: ResmokeSelector,
    pub executor: ResmokeExecutor,
}

/// What a `ResmokeSuiteConfig` stands for.
pub struct SuiteView {
    pub matrix_suite: Option<bool>,
    pub description: Option<Seq<char>>,
    pub test_kind: Seq<char>,
    pub selector: SelectorView,
    pub executor: ExecutorView,
}

impl SuiteView {
    pub open spec fn well_formed(self) -> bool {
        self.selector.well_formed() && self.executor.well_formed()
    }
}

impl View for ResmokeSuiteConfig {
    type V = SuiteView;

    open spec fn view(&self) -> SuiteView {
        SuiteView {
            matrix_suite: self.matrix_suite,
            description: self.description.deep_view(),
            test_kind: self.test_kind@,
            selector: self.selector@,
            executor: self.executor@,
        }
    }
}

impl Clone for ResmokeSuiteConfig {
    fn clone(&self) -> (r: Self)
        ensures
            r@ == self@,
    {
        ResmokeSuiteConfig {
            matrix_suite: self.matrix_suite,
            description: copy_text(&self.description),
            test_kind: self.test_kind.clone(),
            selector: self.selector.clone(),
            executor: self.executor.clone(),
        }
    }
}

/// The list that a request to leave out `added` makes of the exclusions
/// `present`: what was there, then every name of `added`, as often as given.
pub open spec fn excluded_after(
    present: Option<Seq<Seq<char>>>,
    added: Seq<Seq<char>>,
) -> Seq<Seq<char>> {
    match present {
        Some(files) => files + added,
        None => added,
    }
}

/// The selector that `s` becomes for the two optional lists.
///
/// A list of tests to leave out decides alone, whether or not a list of
/// tests to run came with it. Only without one does a list of tests to run
/// replace the root tests and drop the exclusions.
pub open spec fn derived_selector(
    s: SelectorView,
    run: Option<Seq<Seq<char>>>,
    exclude: Option<Seq<Seq<char>>>,
) -> SelectorView {
    match exclude {
        Some(added) => SelectorView {
            exclude_files: Some(excluded_after(s.exclude_files, added)),
            ..s
        },
        None => match run {
            Some(tests) => SelectorView {
                exclude_files: None,
                test_root: Some(TestRootView::Roots { roots: tests }),
                ..s
            },
            None => s,
        },
    }
}

/// The names of an optional slice of names.
pub open spec fn listed(tests: Option<&[String]>) -> Option<Seq<Seq<char>>> {
    match tests {
        Some(t) => Some(t.deep_view()),
        None => None,
    }
}

impl ResmokeSuiteConfig {
    /// What every suite read from a document satisfies, and what a suite
    /// must satisfy to be read back as it was written.
    pub open spec fn well_formed(&self) -> bool {
        self@.well_formed()
    }

    /// Create a new resmoke suite configuration based on this one but
    /// running certain tests.
    ///
    /// * `run_tests` - When provided, the new configuration should only run
    ///   these tests.
    /// * `exclude_tests` - When provided, the new configuration should
    ///   exclude these tests, whatever `run_tests` holds.
    ///
    /// Nothing but the selector differs from this configuration, which is
    /// left as it is.
    pub fn with_new_tests(
        &self,
        run_tests: Option<&[String]>,
        exclude_tests: Option<&[String]>,
    ) -> (r: Self)
        ensures
            r@ == (SuiteView {
                selector: derived_selector(
                    self@.selector,
                    listed(run_tests),
                    listed(exclude_tests),
                ),
                ..self@
            }),
            self.well_formed() ==> r.well_formed(),
    {
        let mut config = self.clone();
        if let Some(added) = exclude_tests {
            let mut files: Vec<String> = match &self.selector.exclude_files {
                Some(present) => copy_names(present.as_slice()),
                None => Vec::new(),
            };
            append_names(&mut files, added);
            assert(files.deep_view() =~= excluded_after(
                self@.selector.exclude_files,
                added.deep_view(),
            ));
            config.selector.exclude_files = Some(files);
        } else if let Some(tests) = run_tests {
            config.selector.exclude_files = None;
            config.selector.test_root = Some(TestRoot::Roots { roots: copy_names(tests) });
        }
        config
    }
}

} // verus!
