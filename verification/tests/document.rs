use resmoke_suite::fields::distinct_names;
use resmoke_suite::names::{append_names, copy_names};
use resmoke_suite::{ParseErrorKind, ResmokeSuiteConfig, TagExpression, TestRoot};
use serde_yaml::value::{Tag, TaggedValue};
use serde_yaml::Value;

const FULL: &str = "
matrix_suite: true
description: every key set
test_kind: js_test
selector:
  exclude_tags: slow
  exclude_files: [a.js, b.js]
  exclude_with_any_tags: [requires_x, requires_y]
  group_size: 4
  group_count_multiplier: 1.5
  include_with_any_tags: [fast, fast]
  include_files: ['jstests/**/*.js']
  include_tags: core
  roots: [r1.js, r2.js]
  tag_file: tags.yml
  test: one.js
executor:
  archive:
    hooks: [CheckReplDBHash]
  hooks:
    - class: CleanEveryN
      n: 20
    - plain
  config:
    shell_options:
      nodb: ''
  fixture:
    class: MyFixture
    num_nodes: 3
";

const BARE: &str = "test_kind: js_test\nselector: {}\nexecutor: {}\n";

fn list(items: &[&str]) -> Vec<String> {
    items.iter().map(|s| s.to_string()).collect()
}

#[test]
fn parse_reads_every_key() {
    let c = ResmokeSuiteConfig::from_str(FULL).unwrap();
    assert_eq!(c.matrix_suite, Some(true));
    assert_eq!(c.description, Some("every key set".to_string()));
    assert_eq!(c.test_kind, "js_test");
    let s = &c.selector;
    match &s.exclude_tags {
        Some(TagExpression::Text(t)) => assert_eq!(t, "slow"),
        other => panic!("unexpected expression: {:?}", other),
    }
    assert_eq!(s.exclude_files, Some(list(&["a.js", "b.js"])));
    assert_eq!(s.exclude_with_any_tags, Some(list(&["requires_x", "requires_y"])));
    assert_eq!(s.group_size, Some(4));
    assert_eq!(s.group_count_multiplier.as_ref().and_then(|v| v.as_f64()), Some(1.5));
    assert_eq!(s.include_with_any_tags, Some(list(&["fast", "fast"])));
    assert_eq!(s.include_files, Some(list(&["jstests/**/*.js"])));
    match &s.include_tags {
        Some(TagExpression::Text(t)) => assert_eq!(t, "core"),
        other => panic!("unexpected expression: {:?}", other),
    }
    match &s.test_root {
        Some(TestRoot::Roots { roots }) => assert_eq!(roots, &list(&["r1.js", "r2.js"])),
        other => panic!("unexpected root tests: {:?}", other),
    }
    assert_eq!(s.tag_file, Some("tags.yml".to_string()));
    assert_eq!(s.test, Some("one.js".to_string()));
    let e = &c.executor;
    assert_eq!(
        e.fixture.as_ref().and_then(|f| f.get("class")).and_then(|v| v.as_str()),
        Some("MyFixture")
    );
    assert_eq!(
        e.fixture.as_ref().and_then(|f| f.get("num_nodes")).and_then(|v| v.as_u64()),
        Some(3)
    );
    let hooks = e.hooks.as_ref().unwrap();
    assert_eq!(hooks.len(), 2);
    assert_eq!(hooks[0].get("n").and_then(|v| v.as_u64()), Some(20));
    assert_eq!(hooks[1], Value::String("plain".to_string()));
    assert!(e.archive.as_ref().unwrap().get("hooks").unwrap().is_sequence());
    assert!(e.config.as_ref().unwrap().get("shell_options").unwrap().is_mapping());
}

#[test]
fn parse_leaves_missing_keys_unset() {
    let c = ResmokeSuiteConfig::from_str(BARE).unwrap();
    assert_eq!(c.matrix_suite, None);
    assert_eq!(c.description, None);
    assert_eq!(c.test_kind, "js_test");
    let s = &c.selector;
    assert!(s.exclude_tags.is_none() && s.exclude_files.is_none());
    assert!(s.exclude_with_any_tags.is_none() && s.group_size.is_none());
    assert!(s.group_count_multiplier.is_none() && s.include_with_any_tags.is_none());
    assert!(s.include_files.is_none() && s.include_tags.is_none());
    assert!(s.test_root.is_none() && s.tag_file.is_none() && s.test.is_none());
    let e = &c.executor;
    assert!(e.archive.is_none() && e.hooks.is_none() && e.config.is_none() && e.fixture.is_none());
}

#[test]
fn round_trip_of_a_full_suite() {
    let c = ResmokeSuiteConfig::from_str(FULL).unwrap();
    let text = c.to_string().unwrap();
    let again = ResmokeSuiteConfig::from_str(&text).unwrap();
    assert_eq!(format!("{:?}", again), format!("{:?}", c));
    assert_eq!(again.to_string().unwrap(), text);
}

#[test]
fn round_trip_of_a_bare_suite() {
    let c = ResmokeSuiteConfig::from_str(BARE).unwrap();
    let text = c.to_string().unwrap();
    let again = ResmokeSuiteConfig::from_str(&text).unwrap();
    assert_eq!(format!("{:?}", again), format!("{:?}", c));
}

#[test]
fn round_trip_of_a_derived_suite() {
    let c = ResmokeSuiteConfig::from_str(FULL).unwrap();
    let derived = c.with_new_tests(Some(&list(&["t.js"])), None);
    let again = ResmokeSuiteConfig::from_str(&derived.to_string().unwrap()).unwrap();
    assert_eq!(format!("{:?}", again), format!("{:?}", derived));
    assert!(again.selector.exclude_files.is_none());
}

#[test]
fn unset_values_write_no_key() {
    let text = ResmokeSuiteConfig::from_str(BARE).unwrap().to_string().unwrap();
    for key in [
        "matrix_suite",
        "description",
        "exclude_tags",
        "exclude_files",
        "exclude_with_any_tags",
        "group_size",
        "group_count_multiplier",
        "include_with_any_tags",
        "include_files",
        "include_tags",
        "root",
        "tag_file",
        "archive",
        "hooks",
        "config",
        "fixture",
        "null",
        "~",
    ] {
        assert!(!text.contains(key), "{} in {}", key, text);
    }
    let tree: Value = serde_yaml::from_str(&text).unwrap();
    assert_eq!(tree.as_mapping().unwrap().len(), 3);
    assert_eq!(tree.get("test_kind").and_then(|v| v.as_str()), Some("js_test"));
    assert_eq!(tree.get("selector").unwrap().as_mapping().unwrap().len(), 0);
    assert_eq!(tree.get("executor").unwrap().as_mapping().unwrap().len(), 0);
}

#[test]
fn set_values_write_their_key() {
    let text = ResmokeSuiteConfig::from_str(FULL).unwrap().to_string().unwrap();
    let tree: Value = serde_yaml::from_str(&text).unwrap();
    assert_eq!(tree.as_mapping().unwrap().len(), 5);
    let selector = tree.get("selector").unwrap();
    assert_eq!(selector.as_mapping().unwrap().len(), 11);
    assert_eq!(selector.get("group_size").and_then(|v| v.as_u64()), Some(4));
    assert_eq!(selector.get("exclude_tags").and_then(|v| v.as_str()), Some("slow"));
    assert!(selector.get("root").is_none());
    assert_eq!(selector.get("roots").unwrap().as_sequence().unwrap().len(), 2);
    assert_eq!(tree.get("matrix_suite").and_then(|v| v.as_bool()), Some(true));
    assert_eq!(tree.get("executor").unwrap().as_mapping().unwrap().len(), 4);
}

#[test]
fn root_file_is_written_under_root() {
    let c = ResmokeSuiteConfig::from_str("test_kind: k\nselector:\n  root: f.txt\nexecutor: {}\n")
        .unwrap();
    let tree: Value = serde_yaml::from_str(&c.to_string().unwrap()).unwrap();
    let selector = tree.get("selector").unwrap();
    assert_eq!(selector.get("root").and_then(|v| v.as_str()), Some("f.txt"));
    assert!(selector.get("roots").is_none());
}

#[test]
fn root_decides_before_roots() {
    let c = ResmokeSuiteConfig::from_str(
        "test_kind: k\nselector:\n  roots: [a.js]\n  root: f.txt\nexecutor: {}\n",
    )
    .unwrap();
    match c.selector.test_root {
        Some(TestRoot::Root { root }) => assert_eq!(root, "f.txt"),
        other => panic!("unexpected root tests: {:?}", other),
    }
}

#[test]
fn roots_are_tried_when_root_is_no_text() {
    let c = ResmokeSuiteConfig::from_str(
        "test_kind: k\nselector:\n  root: [f.txt]\n  roots: [a.js]\nexecutor: {}\n",
    )
    .unwrap();
    match c.selector.test_root {
        Some(TestRoot::Roots { roots }) => assert_eq!(roots, list(&["a.js"])),
        other => panic!("unexpected root tests: {:?}", other),
    }
}

#[test]
fn no_root_key_gives_no_root_tests() {
    let c = ResmokeSuiteConfig::from_str(BARE).unwrap();
    assert!(c.selector.test_root.is_none());
    let odd = ResmokeSuiteConfig::from_str("test_kind: k\nselector:\n  roots: 3\nexecutor: {}\n")
        .unwrap();
    assert!(odd.selector.test_root.is_none());
}

#[test]
fn null_counts_as_unset() {
    let c = ResmokeSuiteConfig::from_str(
        "description: ~\ntest_kind: k\nselector:\n  exclude_files: null\nexecutor:\n  fixture:\n",
    )
    .unwrap();
    assert!(c.description.is_none());
    assert!(c.selector.exclude_files.is_none());
    assert!(c.executor.fixture.is_none());
}

#[test]
fn nested_tag_expression_is_carried() {
    let c = ResmokeSuiteConfig::from_str(
        "test_kind: k\nselector:\n  exclude_tags:\n    $anyOf: [a, b]\n  include_tags: c\nexecutor: {}\n",
    )
    .unwrap();
    match &c.selector.exclude_tags {
        Some(TagExpression::Nested(v)) => {
            assert_eq!(v.get("$anyOf").unwrap().as_sequence().unwrap().len(), 2)
        }
        other => panic!("unexpected expression: {:?}", other),
    }
    let derived = c.with_new_tests(None, Some(&list(&["x.js"])));
    let again = ResmokeSuiteConfig::from_str(&derived.to_string().unwrap()).unwrap();
    assert_eq!(format!("{:?}", again), format!("{:?}", derived));
    assert!(matches!(again.selector.exclude_tags, Some(TagExpression::Nested(_))));
    assert!(matches!(again.selector.include_tags, Some(TagExpression::Text(_))));
}

#[test]
fn tags_to_exclude_are_held_once() {
    let c = ResmokeSuiteConfig::from_str(
        "test_kind: k\nselector:\n  exclude_with_any_tags: [a, b, a, c, b]\nexecutor: {}\n",
    )
    .unwrap();
    assert_eq!(c.selector.exclude_with_any_tags, Some(list(&["a", "b", "c"])));
}

#[test]
fn missing_test_kind_is_refused() {
    let text = "selector: {}\nexecutor: {}\n";
    let e = ResmokeSuiteConfig::from_str(text).unwrap_err();
    assert_eq!(e.kind, ParseErrorKind::Structure);
    assert_eq!(e.text, text);
    assert!(!e.message.is_empty());
}

#[test]
fn selector_that_is_no_mapping_is_refused() {
    for text in [
        "test_kind: k\nselector: all\nexecutor: {}\n",
        "test_kind: k\nselector: [a]\nexecutor: {}\n",
        "test_kind: k\nselector:\nexecutor: {}\n",
        "test_kind: k\nexecutor: {}\n",
        "test_kind: k\nselector: {}\n",
        "test_kind: k\nselector: {}\nexecutor: 3\n",
        "- test_kind\n",
        "",
    ] {
        let e = ResmokeSuiteConfig::from_str(text).unwrap_err();
        assert_eq!(e.kind, ParseErrorKind::Structure, "{}", text);
        assert_eq!(e.text, text);
    }
}

#[test]
fn value_of_another_kind_is_refused() {
    for text in [
        "test_kind: [k]\nselector: {}\nexecutor: {}\n",
        "test_kind: 7\nselector: {}\nexecutor: {}\n",
        "matrix_suite: maybe\ntest_kind: k\nselector: {}\nexecutor: {}\n",
        "description: [d]\ntest_kind: k\nselector: {}\nexecutor: {}\n",
        "test_kind: k\nselector:\n  exclude_files: a.js\nexecutor: {}\n",
        "test_kind: k\nselector:\n  exclude_files: [a.js, [b.js]]\nexecutor: {}\n",
        "test_kind: k\nselector:\n  exclude_tags: [a, b]\nexecutor: {}\n",
        "test_kind: k\nselector:\n  include_tags: 3\nexecutor: {}\n",
        "test_kind: k\nselector:\n  exclude_with_any_tags: a\nexecutor: {}\n",
        "test_kind: k\nselector:\n  group_size: -1\nexecutor: {}\n",
        "test_kind: k\nselector:\n  group_size: four\nexecutor: {}\n",
        "test_kind: k\nselector:\n  group_count_multiplier: much\nexecutor: {}\n",
        "test_kind: k\nselector:\n  include_files: 1\nexecutor: {}\n",
        "test_kind: k\nselector:\n  test: [t]\nexecutor: {}\n",
        "test_kind: k\nselector: {}\nexecutor:\n  hooks: one\n",
    ] {
        let e = ResmokeSuiteConfig::from_str(text).unwrap_err();
        assert_eq!(e.kind, ParseErrorKind::Structure, "{}", text);
        assert_eq!(e.text, text);
    }
}

#[test]
fn text_that_is_no_document_is_refused() {
    for text in ["test_kind: [unclosed\n", "a: b: c: d\n  - x\n", "key: \"open\n"] {
        let e = ResmokeSuiteConfig::from_str(text).unwrap_err();
        assert_eq!(e.kind, ParseErrorKind::Syntax, "{}", text);
        assert_eq!(e.text, text);
        assert!(!e.message.is_empty());
    }
}

#[test]
fn whole_multiplier_is_kept_as_written() {
    let c = ResmokeSuiteConfig::from_str(
        "test_kind: k\nselector:\n  group_count_multiplier: 2\n  group_size: 0\nexecutor: {}\n",
    )
    .unwrap();
    assert_eq!(c.selector.group_size, Some(0));
    assert_eq!(c.selector.group_count_multiplier.as_ref().and_then(|v| v.as_u64()), Some(2));
    let again = ResmokeSuiteConfig::from_str(&c.to_string().unwrap()).unwrap();
    assert_eq!(format!("{:?}", again), format!("{:?}", c));
}

#[test]
fn unknown_keys_are_passed_over() {
    let c = ResmokeSuiteConfig::from_str(
        "test_kind: k\nowner: me\nselector:\n  other: 1\nexecutor:\n  more: [x]\n",
    )
    .unwrap();
    let text = c.to_string().unwrap();
    assert!(!text.contains("owner") && !text.contains("other") && !text.contains("more"));
}

#[test]
fn copy_names_copies() {
    let src = list(&["a", "b", "a"]);
    assert_eq!(copy_names(&src), src);
    assert_eq!(copy_names(&[]), Vec::<String>::new());
}

#[test]
fn append_names_appends_in_order() {
    let mut dst = list(&["a", "b"]);
    append_names(&mut dst, &list(&["c", "a"]));
    assert_eq!(dst, list(&["a", "b", "c", "a"]));
    append_names(&mut dst, &[]);
    assert_eq!(dst, list(&["a", "b", "c", "a"]));
}

#[test]
fn distinct_names_keeps_first_occurrences() {
    assert_eq!(distinct_names(list(&["b", "a", "b", "c", "a"])), list(&["b", "a", "c"]));
    assert_eq!(distinct_names(list(&["a", "b"])), list(&["a", "b"]));
    assert_eq!(distinct_names(Vec::new()), Vec::<String>::new());
}

#[test]
fn tree_without_text_gives_an_error() {
    let mut c = ResmokeSuiteConfig::from_str(BARE).unwrap();
    let inner = Value::Tagged(Box::new(TaggedValue { tag: Tag::new("b"), value: Value::Null }));
    let outer = Value::Tagged(Box::new(TaggedValue { tag: Tag::new("a"), value: inner }));
    c.executor.config = Some(outer);
    let e = c.to_string().unwrap_err();
    assert!(!e.message.is_empty());
}

#[test]
fn tagged_value_is_carried() {
    let c = ResmokeSuiteConfig::from_str(
        "test_kind: k\nselector: {}\nexecutor:\n  config: !shell {nodb: true}\n",
    )
    .unwrap();
    let again = ResmokeSuiteConfig::from_str(&c.to_string().unwrap()).unwrap();
    assert_eq!(format!("{:?}", again), format!("{:?}", c));
    assert!(matches!(again.executor.config, Some(Value::Tagged(_))));
}
