use vstd::prelude::*;
use crate::error::{failures_of, CompilerError, ErrorGroup};
use crate::helpers::{
    bool_for_scalar_node, items_of, map_value_for_key, scalar_text, scalar_texts, string_array_for_sequence_node,
    string_for_scalar_node,
};
use crate::node::{Node, Tree};
use crate::text::texts;
use crate::yaml::{debug_yaml, yaml_debug, yaml_from_node};

verus! {

/// The text under a key: the text of the scalar there, and the empty text
/// where the key is missing or its value is no scalar.
pub open spec fn text_at(tree: Tree, key: Seq<char>) -> Seq<char> {
    match optional_text_at(tree, key) {
        Some(text) => text,
        None => Seq::<char>::empty(),
    }
}

/// The text of the scalar under a key, where there is one.
pub open spec fn optional_text_at(tree: Tree, key: Seq<char>) -> Option<Seq<char>> {
    match tree.value_for(key) {
        Some(value) => scalar_text(value),
        None => None,
    }
}

/// The truth value under a key; false where the key is missing or its value is
/// no truth value.
pub open spec fn flag_at(tree: Tree, key: Seq<char>) -> bool {
    match tree.value_for(key) {
        Some(Tree::Boolean(b)) => b,
        _ => false,
    }
}

/// The texts of the scalars in the sequence under a key; none where the key is
/// missing or its value is no sequence.
pub open spec fn texts_at(tree: Tree, key: Seq<char>) -> Seq<Seq<char>> {
    match tree.value_for(key) {
        Some(value) => scalar_texts(items_of(value)),
        None => Seq::<Seq<char>>::empty(),
    }
}

/// The words for a node that should have been a mapping.
pub open spec fn expected_mapping(tree: Tree) -> Seq<char> {
    "expected mapping, got "@ + yaml_debug(tree)
}

/// Reads the text under a key.
pub fn text_field(node: &Node, key: &str) -> (text: String)
    ensures
        text@ == text_at(node@, key@),
{
    match optional_text_field(node, key) {
        Some(text) => text,
        None => String::new(),
    }
}

/// Reads the text of the scalar under a key, where there is one.
pub fn optional_text_field(node: &Node, key: &str) -> (text: Option<String>)
    ensures
        match text {
            Some(t) => optional_text_at(node@, key@) == Some(t@),
            None => optional_text_at(node@, key@) is None,
        },
{
    match map_value_for_key(node, key) {
        Some(value) => string_for_scalar_node(value),
        None => None,
    }
}

/// Reads the truth value under a key.
pub fn flag_field(node: &Node, key: &str) -> (flag: bool)
    ensures
        flag == flag_at(node@, key@),
{
    match map_value_for_key(node, key) {
        Some(value) => match bool_for_scalar_node(value) {
            Some(b) => b,
            None => false,
        },
        None => false,
    }
}

/// Reads the texts in the sequence under a key.
pub fn list_field(node: &Node, key: &str) -> (list: Vec<String>)
    ensures
        texts(list@) == texts_at(node@, key@),
{
    match map_value_for_key(node, key) {
        Some(value) => string_array_for_sequence_node(value),
        None => {
            let list: Vec<String> = Vec::new();
            assert(texts(list@) =~= Seq::<Seq<char>>::empty());
            list
        },
    }
}

/// The words for a node that should have been a mapping.
pub fn expected_mapping_message(node: &Node) -> (message: String)
    ensures
        message@ == expected_mapping(node@),
{
    let value = yaml_from_node(node);
    String::from_str("expected mapping, got ").concat(debug_yaml(&value).as_str())
}

/// Adds the errors of a group at the end of a list.
pub fn absorb(errors: &mut Vec<CompilerError>, group: ErrorGroup)
    ensures
        failures_of(final(errors)@) == failures_of(old(errors)@) + group@,
{
    let ghost added = group@;
    let mut group = group;
    errors.append(&mut group.errors);
    assert(failures_of(errors@) =~= failures_of(old(errors)@) + added);
}

/// Adds an error at the end of a list.
pub fn note(errors: &mut Vec<CompilerError>, error: CompilerError)
    ensures
        failures_of(final(errors)@) == failures_of(old(errors)@).push(error@),
{
    errors.push(error);
    assert(failures_of(errors@) =~= failures_of(old(errors)@).push(error@));
}

/// The outcome of a pass: what was decoded when nothing failed, and the
/// failures otherwise.
pub fn conclude<T>(value: T, errors: Vec<CompilerError>) -> (result: Result<T, ErrorGroup>)
    ensures
        match result {
            Ok(v) => errors@.len() == 0 && v == value,
            Err(group) => errors@.len() > 0 && group.errors == errors,
        },
{
    if errors.is_empty() {
        Ok(value)
    } else {
        Err(ErrorGroup::new(errors))
    }
}

} // verus!
