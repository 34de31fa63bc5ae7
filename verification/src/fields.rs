//! Reading the entries of a mapping, each as the kind of value that a key
//! of the suite document holds.

use crate::suite::{expression_view, TagExpression, TagExpressionView};
use crate::yaml::{
    copy_value, count_of, entries, flag_of, is_null, is_number, items_of, mapping_get, mapping_of,
    text_of, tree_count, tree_flag, tree_is_null, tree_is_number, tree_items, tree_mapping,
    tree_text,
};
use serde_yaml::{Mapping, Value};
use vstd::prelude::*;

verus! {

/// The value under `key`, where the mapping has the key and the value is
/// not null. A key with a null value counts as a key that is not there.
pub open spec fn entry(m: Mapping, key: Seq<char>) -> Option<Value> {
    if entries(m).contains_key(key) && !is_null(entries(m)[key]) {
        Some(entries(m)[key])
    } else {
        None
    }
}

/// Whether each tree of a list is a text.
pub open spec fn all_text(items: Seq<Value>) -> bool {
    forall|i: int| 0 <= i < items.len() ==> (#[trigger] text_of(items[i])) is Some
}

/// The texts of a list of trees, where each of them is a text.
pub open spec fn texts_of(items: Seq<Value>) -> Option<Seq<Seq<char>>> {
    if all_text(items) {
        Some(Seq::new(items.len(), |i: int| text_of(items[i])->0))
    } else {
        None
    }
}

/// The names that a tree lists, where it is a list of texts.
pub open spec fn names_of(tree: Value) -> Option<Seq<Seq<char>>> {
    match items_of(tree) {
        Some(items) => texts_of(items),
        None => None,
    }
}

/// The names of `s` without repetition: each where it first occurs.
pub open spec fn distinct(s: Seq<Seq<char>>) -> Seq<Seq<char>>
    decreases s.len(),
{
    if s.len() == 0 {
        s
    } else {
        let front = distinct(s.drop_last());
        if front.contains(s.last()) {
            front
        } else {
            front.push(s.last())
        }
    }
}

/// What an optional key says when its value is to be a text: `None` where
/// the value is of another kind.
pub open spec fn text_entry(m: Mapping, key: Seq<char>) -> Option<Option<Seq<char>>> {
    match entry(m, key) {
        None => Some(None),
        Some(v) => match text_of(v) {
            Some(t) => Some(Some(t)),
            None => None,
        },
    }
}

/// The tag matching expression that a tree is: a text, or else a mapping.
pub open spec fn expression_of(tree: Value) -> Option<TagExpressionView> {
    match text_of(tree) {
        Some(t) => Some(TagExpressionView::Text(t)),
        None => if mapping_of(tree) is Some {
            Some(TagExpressionView::Nested(tree))
        } else {
            None
        },
    }
}

/// What an optional key says when its value is to be a tag matching
/// expression.
pub open spec fn expression_entry(m: Mapping, key: Seq<char>) -> Option<
    Option<TagExpressionView>,
> {
    match entry(m, key) {
        None => Some(None),
        Some(v) => match expression_of(v) {
            Some(e) => Some(Some(e)),
            None => None,
        },
    }
}

/// What an optional key says when its value is to be a list of names.
pub open spec fn names_entry(m: Mapping, key: Seq<char>) -> Option<Option<Seq<Seq<char>>>> {
    match entry(m, key) {
        None => Some(None),
        Some(v) => match names_of(v) {
            Some(l) => Some(Some(l)),
            None => None,
        },
    }
}

/// What an optional key says when its value is to be a set of names.
pub open spec fn tags_entry(m: Mapping, key: Seq<char>) -> Option<Option<Seq<Seq<char>>>> {
    match names_entry(m, key) {
        Some(Some(l)) => Some(Some(distinct(l))),
        Some(None) => Some(None),
        None => None,
    }
}

/// What an optional key says when its value is to be a flag.
pub open spec fn flag_entry(m: Mapping, key: Seq<char>) -> Option<Option<bool>> {
    match entry(m, key) {
        None => Some(None),
        Some(v) => match flag_of(v) {
            Some(b) => Some(Some(b)),
            None => None,
        },
    }
}

/// What an optional key says when its value is to be a size.
pub open spec fn size_entry(m: Mapping, key: Seq<char>) -> Option<Option<usize>> {
    match entry(m, key) {
        None => Some(None),
        Some(v) => match count_of(v) {
            Some(n) => if n <= usize::MAX {
                Some(Some(n as usize))
            } else {
                None
            },
            None => None,
        },
    }
}

/// What an optional key says when its value is to be a number.
pub open spec fn number_entry(m: Mapping, key: Seq<char>) -> Option<Option<Value>> {
    match entry(m, key) {
        None => Some(None),
        Some(v) => if is_number(v) {
            Some(Some(v))
        } else {
            None
        },
    }
}

/// What an optional key says when its value is to be a list of trees.
pub open spec fn list_entry(m: Mapping, key: Seq<char>) -> Option<Option<Seq<Value>>> {
    match entry(m, key) {
        None => Some(None),
        Some(v) => match items_of(v) {
            Some(items) => Some(Some(items)),
            None => None,
        },
    }
}

/// A copy of a list of trees, tree for tree.
pub fn copy_values(trees: &Vec<Value>) -> (r: Vec<Value>)
    ensures
        r@ == trees@,
{
    let mut out: Vec<Value> = Vec::new();
    let mut i: usize = 0;
    while i < trees.len()
        invariant
            i <= trees.len(),
            out@ =~= trees@.take(i as int),
        decreases trees.len() - i,
    {
        out.push(copy_value(&trees[i]));
        i += 1;
    }
    assert(trees@.take(i as int) =~= trees@);
    out
}

/// The value under `key`, unless the key is missing or its value is null.
pub fn read_entry<'a>(m: &'a Mapping, key: &str) -> (r: Option<&'a Value>)
    ensures
        match r {
            Some(v) => entry(*m, key@) == Some(*v),
            None => entry(*m, key@) is None,
        },
{
    match mapping_get(m, key) {
        Some(v) => if tree_is_null(v) {
            None
        } else {
            Some(v)
        },
        None => None,
    }
}

/// The names that a tree lists, or `None` where it is no list of texts.
pub fn read_names_of(tree: &Value) -> (r: Option<Vec<String>>)
    ensures
        r.deep_view() == names_of(*tree),
{
    let items = match tree_items(tree) {
        Some(items) => items,
        None => {
            return None;
        },
    };
    let mut out: Vec<String> = Vec::new();
    let mut i: usize = 0;
    while i < items.len()
        invariant
            i <= items.len(),
            out@.len() == i,
            items_of(*tree) == Some(items@),
            forall|j: int| 0 <= j < i ==> (#[trigger] text_of(items@[j])) == Some(out@[j]@),
        decreases items.len() - i,
    {
        match tree_text(&items[i]) {
            Some(s) => {
                out.push(s.to_owned());
            },
            None => {
                assert(!all_text(items@));
                return None;
            },
        }
        i += 1;
    }
    assert(all_text(items@));
    assert(out.deep_view() =~= texts_of(items@)->0);
    Some(out)
}

fn holds_name(names: &Vec<String>, name: &String) -> (r: bool)
    ensures
        r == names.deep_view().contains(name@),
{
    let mut i: usize = 0;
    while i < names.len()
        invariant
            i <= names.len(),
            forall|j: int| 0 <= j < i ==> names@[j]@ != name@,
        decreases names.len() - i,
    {
        if names[i] == *name {
            assert(names.deep_view()[i as int] == name@);
            return true;
        }
        i += 1;
    }
    assert forall|j: int| 0 <= j < names.deep_view().len() implies names.deep_view()[j]
        != name@ by {
        assert(names.deep_view()[j] == names@[j]@);
    }
    false
}

/// The names of `names` without repetition, each where it first occurs.
pub fn distinct_names(names: Vec<String>) -> (r: Vec<String>)
    ensures
        r.deep_view() == distinct(names.deep_view()),
{
    let mut out: Vec<String> = Vec::new();
    let mut i: usize = 0;
    assert(names.deep_view().take(0) =~= Seq::<Seq<char>>::empty());
    assert(out.deep_view() =~= Seq::<Seq<char>>::empty());
    while i < names.len()
        invariant
            i <= names.len(),
            out.deep_view() == distinct(names.deep_view().take(i as int)),
        decreases names.len() - i,
    {
        let ghost before = out.deep_view();
        let ghost upto = names.deep_view().take(i as int + 1);
        assert(upto.drop_last() =~= names.deep_view().take(i as int));
        assert(upto.last() == names@[i as int]@);
        if !holds_name(&out, &names[i]) {
            out.push(names[i].clone());
            assert(out.deep_view() =~= before.push(names@[i as int]@));
        }
        i += 1;
    }
    assert(names.deep_view().take(i as int) =~= names.deep_view());
    out
}

/// The text under an optional key; the outer `None` where the value is no
/// text.
pub fn read_text(m: &Mapping, key: &str) -> (r: Option<Option<String>>)
    ensures
        r.deep_view() == text_entry(*m, key@),
{
    match read_entry(m, key) {
        None => Some(None),
        Some(v) => match tree_text(v) {
            Some(s) => Some(Some(s.to_owned())),
            None => None,
        },
    }
}

/// The tag matching expression under an optional key; the outer `None`
/// where the value is neither a text nor a mapping.
pub fn read_expression(m: &Mapping, key: &str) -> (r: Option<Option<TagExpression>>)
    ensures
        r is Some == expression_entry(*m, key@) is Some,
        r is Some ==> expression_view(r->0) == expression_entry(*m, key@)->0,
{
    match read_entry(m, key) {
        None => Some(None),
        Some(v) => match tree_text(v) {
            Some(s) => Some(Some(TagExpression::Text(s.to_owned()))),
            None => match tree_mapping(v) {
                Some(_) => Some(Some(TagExpression::Nested(copy_value(v)))),
                None => None,
            },
        },
    }
}

/// The names under an optional key; the outer `None` where the value is no
/// list of texts.
pub fn read_names(m: &Mapping, key: &str) -> (r: Option<Option<Vec<String>>>)
    ensures
        r.deep_view() == names_entry(*m, key@),
{
    match read_entry(m, key) {
        None => Some(None),
        Some(v) => match read_names_of(v) {
            Some(l) => Some(Some(l)),
            None => None,
        },
    }
}

/// The names under an optional key, each once; the outer `None` where the
/// value is no list of texts.
pub fn read_tags(m: &Mapping, key: &str) -> (r: Option<Option<Vec<String>>>)
    ensures
        r.deep_view() == tags_entry(*m, key@),
{
    match read_names(m, key) {
        Some(Some(l)) => Some(Some(distinct_names(l))),
        Some(None) => Some(None),
        None => None,
    }
}

/// The flag under an optional key; the outer `None` where the value is no
/// flag.
pub fn read_flag(m: &Mapping, key: &str) -> (r: Option<Option<bool>>)
    ensures
        r == flag_entry(*m, key@),
{
    match read_entry(m, key) {
        None => Some(None),
        Some(v) => match tree_flag(v) {
            Some(b) => Some(Some(b)),
            None => None,
        },
    }
}

/// The size under an optional key; the outer `None` where the value is no
/// whole number from 0 to `usize::MAX`.
pub fn read_size(m: &Mapping, key: &str) -> (r: Option<Option<usize>>)
    ensures
        r == size_entry(*m, key@),
{
    match read_entry(m, key) {
        None => Some(None),
        Some(v) => match tree_count(v) {
            Some(n) => if n <= usize::MAX as u64 {
                Some(Some(n as usize))
            } else {
                None
            },
            None => None,
        },
    }
}

/// The number under an optional key, as a tree; the outer `None` where the
/// value is no number.
pub fn read_number(m: &Mapping, key: &str) -> (r: Option<Option<Value>>)
    ensures
        r == number_entry(*m, key@),
{
    match read_entry(m, key) {
        None => Some(None),
        Some(v) => if tree_is_number(v) {
            Some(Some(copy_value(v)))
        } else {
            None
        },
    }
}

/// A copy of the tree under an optional key.
pub fn read_tree(m: &Mapping, key: &str) -> (r: Option<Value>)
    ensures
        r == entry(*m, key@),
{
    match read_entry(m, key) {
        None => None,
        Some(v) => Some(copy_value(v)),
    }
}

/// The trees that the value under an optional key lists; the outer `None`
/// where the value is no list.
pub fn read_list(m: &Mapping, key: &str) -> (r: Option<Option<Vec<Value>>>)
    ensures
        r is Some == list_entry(*m, key@) is Some,
        r is Some ==> (r->0 is Some == list_entry(*m, key@)->0 is Some),
        r is Some && r->0 is Some ==> r->0->0@ == list_entry(*m, key@)->0->0,
{
    match read_entry(m, key) {
        None => Some(None),
        Some(v) => match tree_items(v) {
            Some(items) => Some(Some(copy_values(items))),
            None => None,
        },
    }
}

} // verus!
