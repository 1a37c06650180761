use vstd::prelude::*;
use vstd::utf8::encode_utf8;
use crate::node::{trees, Mapping, Node, Tree};
use crate::text::{decimal, decimal_text, same_text, signed_decimal, signed_decimal_text, texts};
use crate::yaml::{dump_yaml, yaml_from_node, yaml_text};
use regex::Regex;

verus! {

/// A compiled pattern, `regex::Regex`. Nothing is known of what it holds.
#[verifier::external_type_specification]
#[verifier::external_body]
pub struct ExRegex(Regex);

/// Whether a compiled pattern matches somewhere in a text. Assumed, not proved:
/// it names what `regex::Regex::is_match` returns. It speaks of the compiled
/// pattern and not of its source, since the flags of a pattern are not in its
/// source.
pub uninterp spec fn regex_match(pattern: Regex, text: Seq<char>) -> bool;

/// `regex::Regex::is_match`: whether the pattern matches somewhere in the text.
/// Assumed, not proved.
#[verifier::external_body]
pub(crate) fn pattern_matches(pattern: &Regex, text: &str) -> (matched: bool)
    ensures
        matched == regex_match(*pattern, text@),
{
    pattern.is_match(text)
}

/// The order of texts: by the first character in which they differ, a text
/// before every text that it begins.
pub open spec fn lex_le(a: Seq<char>, b: Seq<char>) -> bool
    decreases a.len(),
{
    if a.len() == 0 {
        true
    } else if b.len() == 0 {
        false
    } else if a[0] != b[0] {
        (a[0] as u32) < (b[0] as u32)
    } else {
        lex_le(a.drop_first(), b.drop_first())
    }
}

/// `str`'s `<=`: string slices are ordered lexicographically, character by
/// character in the order of the code points. Assumed, not proved.
#[verifier::external_body]
pub(crate) fn text_le(a: &str, b: &str) -> (le: bool)
    ensures
        le == lex_le(a@, b@),
{
    a <= b
}

/// Of two texts, one is before the other or they are equal.
pub proof fn lemma_lex_total(a: Seq<char>, b: Seq<char>)
    ensures
        lex_le(a, b) || lex_le(b, a),
    decreases a.len(),
{
    if a.len() > 0 && b.len() > 0 {
        if a[0] == b[0] {
            lemma_lex_total(a.drop_first(), b.drop_first());
        } else {
            vstd::utf8::char_u32_cast(a[0], a[0] as u32);
            vstd::utf8::char_u32_cast(b[0], b[0] as u32);
        }
    }
}

/// Whether each text is at or before the next.
pub open spec fn ascending(items: Seq<Seq<char>>) -> bool {
    forall|i: int| 0 <= i < items.len() - 1 ==> lex_le(#[trigger] items[i], items[i + 1])
}

/// The text keys of the entries, in order.
pub open spec fn string_keys(entries: Seq<(Tree, Tree)>) -> Seq<Seq<char>>
    decreases entries.len(),
{
    if entries.len() == 0 {
        Seq::<Seq<char>>::empty()
    } else {
        let before = string_keys(entries.drop_last());
        match entries.last().0 {
            Tree::String(key) => before.push(key),
            _ => before,
        }
    }
}

/// The entries with a text key, in order.
pub open spec fn string_entries(entries: Seq<(Tree, Tree)>) -> Seq<(Seq<char>, Tree)>
    decreases entries.len(),
{
    if entries.len() == 0 {
        Seq::<(Seq<char>, Tree)>::empty()
    } else {
        let before = string_entries(entries.drop_last());
        match entries.last().0 {
            Tree::String(key) => before.push((key, entries.last().1)),
            _ => before,
        }
    }
}

/// The entries of a tree: those of a mapping, none of any other tree.
pub open spec fn entries_of(tree: Tree) -> Seq<(Tree, Tree)> {
    match tree {
        Tree::Mapping(entries) => entries,
        _ => Seq::<(Tree, Tree)>::empty(),
    }
}

/// The items of a tree: those of a sequence, none of any other tree.
pub open spec fn items_of(tree: Tree) -> Seq<Tree> {
    match tree {
        Tree::Sequence(items) => items,
        _ => Seq::<Tree>::empty(),
    }
}

/// The text that a scalar stands for: a text itself, a number in decimal, a
/// real as it was written, `true` or `false`, the empty text for null. Other
/// trees stand for no text.
pub open spec fn scalar_text(tree: Tree) -> Option<Seq<char>> {
    match tree {
        Tree::String(s) => Some(s),
        Tree::Integer(i) => Some(signed_decimal(i)),
        Tree::Real(r) => Some(r),
        Tree::Boolean(b) => Some(if b { "true"@ } else { "false"@ }),
        Tree::Null => Some(Seq::<char>::empty()),
        _ => None,
    }
}

/// The texts of the scalars among the items, in order.
pub open spec fn scalar_texts(items: Seq<Tree>) -> Seq<Seq<char>>
    decreases items.len(),
{
    if items.len() == 0 {
        Seq::<Seq<char>>::empty()
    } else {
        let before = scalar_texts(items.drop_last());
        match scalar_text(items.last()) {
            Some(text) => before.push(text),
            None => before,
        }
    }
}

/// The keys among `required` that the tree does not have, in order.
pub open spec fn missing_keys(tree: Tree, required: Seq<Seq<char>>) -> Seq<Seq<char>>
    decreases required.len(),
{
    if required.len() == 0 {
        Seq::<Seq<char>>::empty()
    } else {
        let before = missing_keys(tree, required.drop_last());
        if tree.value_for(required.last()) is Some {
            before
        } else {
            before.push(required.last())
        }
    }
}

/// The views of the string slices, in order.
pub open spec fn slice_texts(items: Seq<&str>) -> Seq<Seq<char>> {
    Seq::new(items.len(), |i: int| items[i]@)
}

/// Whether a key is allowed: it is one of the allowed keys, or one of the
/// patterns matches it.
pub open spec fn key_allowed(key: Seq<char>, allowed: Seq<Seq<char>>, patterns: Seq<&Regex>) -> bool {
    ||| exists|i: int| 0 <= i < allowed.len() && allowed[i] == key
    ||| exists|j: int| 0 <= j < patterns.len() && regex_match(*patterns[j], key)
}

/// The text keys of the entries that are not allowed, in order.
pub open spec fn invalid_keys(entries: Seq<(Tree, Tree)>, allowed: Seq<Seq<char>>, patterns: Seq<&Regex>) -> Seq<
    Seq<char>,
>
    decreases entries.len(),
{
    if entries.len() == 0 {
        Seq::<Seq<char>>::empty()
    } else {
        let before = invalid_keys(entries.drop_last(), allowed, patterns);
        match entries.last().0 {
            Tree::String(key) => if key_allowed(key, allowed, patterns) {
                before
            } else {
                before.push(key)
            },
            _ => before,
        }
    }
}

/// The words that describe a tree.
pub open spec fn described(tree: Tree) -> Seq<char> {
    match tree {
        Tree::String(s) => s + " (string)"@,
        Tree::Integer(i) => signed_decimal(i) + " (integer)"@,
        Tree::Real(r) => r + " (float)"@,
        Tree::Boolean(b) => (if b { "true"@ } else { "false"@ }) + " (boolean)"@,
        Tree::Null => "null"@,
        Tree::Sequence(_) => "[array]"@,
        Tree::Mapping(_) => "{object}"@,
        Tree::Alias(n) => "Alias("@ + decimal(n as nat) + ")"@,
        Tree::BadValue => "BadValue"@,
    }
}

/// Whether a node is a mapping.
pub fn is_mapping(node: &Node) -> (yes: bool)
    ensures
        yes == (node@ is Mapping),
{
    match node {
        Node::Mapping(_) => true,
        _ => false,
    }
}

/// Whether a node is a sequence.
pub fn is_sequence(node: &Node) -> (yes: bool)
    ensures
        yes == (node@ is Sequence),
{
    match node {
        Node::Sequence(_) => true,
        _ => false,
    }
}

/// Whether a node is a scalar: a text, a number, a truth value or null.
pub fn is_scalar(node: &Node) -> (yes: bool)
    ensures
        yes == (node@ is String || node@ is Integer || node@ is Real || node@ is Boolean || node@ is Null),
{
    match node {
        Node::String(_) | Node::Integer(_) | Node::Real(_) | Node::Boolean(_) | Node::Null => true,
        _ => false,
    }
}

/// The mapping of a mapping node.
pub fn unpack_map(node: &Node) -> (map: Option<&Mapping>)
    ensures
        match map {
            Some(m) => node@ == Tree::Mapping(m@),
            None => !(node@ is Mapping),
        },
{
    match node {
        Node::Mapping(m) => Some(m),
        _ => None,
    }
}

/// Puts a text into a list that is in ascending order, at its place.
fn insert_ascending(sorted: &mut Vec<String>, key: String)
    requires
        ascending(texts(old(sorted)@)),
    ensures
        ascending(texts(final(sorted)@)),
        texts(final(sorted)@).to_multiset() == texts(old(sorted)@).to_multiset().insert(key@),
{
    let mut at: usize = 0;
    while at < sorted.len() && text_le(sorted[at].as_str(), key.as_str())
        invariant
            at <= sorted.len(),
            forall|k: int| 0 <= k < at ==> lex_le(#[trigger] sorted@[k]@, key@),
        decreases sorted.len() - at,
    {
        at += 1;
    }
    let ghost before = texts(sorted@);
    sorted.insert(at, key);
    proof {
        let after = texts(sorted@);
        assert(after =~= before.insert(at as int, key@));
        assert(after.remove(at as int) =~= before);
        after.to_multiset_ensures();
        assert(after.to_multiset().count(key@) > 0) by {
            assert(after[at as int] == key@);
            assert(after.contains(key@));
        }
        assert(after.to_multiset() =~= before.to_multiset().insert(key@));
        assert forall|i: int| 0 <= i < after.len() - 1 implies lex_le(#[trigger] after[i], after[i + 1]) by {
            if i + 1 < at {
                assert(lex_le(before[i], before[i + 1]));
            } else if i + 1 == at {
                assert(lex_le(sorted@[i]@, key@));
            } else if i == at {
                lemma_lex_total(before[at as int], key@);
            } else {
                assert(lex_le(before[i - 1], before[i - 1 + 1]));
            }
        }
    }
}

/// The text keys of a mapping node, in ascending order; none for any other node.
pub fn sorted_keys_for_map(node: &Node) -> (keys: Vec<String>)
    ensures
        ascending(texts(keys@)),
        texts(keys@).to_multiset() == string_keys(entries_of(node@)).to_multiset(),
{
    let mut keys: Vec<String> = Vec::new();
    if let Node::Mapping(map) = node {
        let mut i: usize = 0;
        assert(texts(keys@) =~= string_keys(map@.take(0)));
        while i < map.len()
            invariant
                i <= map@.len(),
                ascending(texts(keys@)),
                texts(keys@).to_multiset() == string_keys(map@.take(i as int)).to_multiset(),
            decreases map@.len() - i,
        {
            proof {
                assert(map@.take(i + 1).drop_last() =~= map@.take(i as int));
                string_keys(map@.take(i as int)).to_multiset_ensures();
            }
            if let Node::String(s) = map.key_at(i) {
                insert_ascending(&mut keys, s.clone());
            }
            i += 1;
        }
        assert(map@.take(i as int) =~= map@);
    } else {
        assert(texts(keys@) =~= string_keys(entries_of(node@)));
    }
    keys
}

/// Whether a mapping node has a text key.
pub fn map_has_key(node: &Node, key: &str) -> (found: bool)
    ensures
        found == (node@.value_for(key@) is Some),
{
    map_value_for_key(node, key).is_some()
}

/// The value under a text key in a mapping node.
pub fn map_value_for_key<'a>(node: &'a Node, key: &str) -> (value: Option<&'a Node>)
    ensures
        match value {
            Some(v) => node@.value_for(key@) == Some(v@) && decreases_to!(node => v),
            None => node@.value_for(key@) is None,
        },
{
    match node {
        Node::Mapping(map) => {
            let wanted = Node::String(key.to_owned());
            map.get(&wanted)
        },
        _ => None,
    }
}

/// The items of a sequence node.
pub fn sequence_node_for_node(node: &Node) -> (items: Option<&Vec<Node>>)
    ensures
        match items {
            Some(list) => node@ == Tree::Sequence(trees(list@)),
            None => !(node@ is Sequence),
        },
{
    match node {
        Node::Sequence(list) => {
            proof {
                crate::node::lemma_sequence_view(*list);
            }
            Some(list)
        },
        _ => None,
    }
}

/// The truth value of a boolean node.
pub fn bool_for_scalar_node(node: &Node) -> (value: Option<bool>)
    ensures
        match node@ {
            Tree::Boolean(b) => value == Some(b),
            _ => value is None,
        },
{
    match node {
        Node::Boolean(b) => Some(*b),
        _ => None,
    }
}

/// The number of an integer node.
pub fn int_for_scalar_node(node: &Node) -> (value: Option<i64>)
    ensures
        match node@ {
            Tree::Integer(i) => value matches Some(v) && v == i,
            _ => value is None,
        },
{
    match node {
        Node::Integer(i) => Some(*i),
        _ => None,
    }
}

/// The text that a scalar node stands for.
pub fn string_for_scalar_node(node: &Node) -> (text: Option<String>)
    ensures
        match text {
            Some(t) => scalar_text(node@) == Some(t@),
            None => scalar_text(node@) is None,
        },
{
    match node {
        Node::String(s) => Some(s.clone()),
        Node::Integer(i) => Some(signed_decimal_text(*i)),
        Node::Real(r) => Some(r.clone()),
        Node::Boolean(b) => Some(
            if *b {
                String::from_str("true")
            } else {
                String::from_str("false")
            },
        ),
        Node::Null => Some(String::new()),
        _ => None,
    }
}

/// The texts of the scalars among the items of a sequence node, in order.
pub fn string_array_for_sequence_node(node: &Node) -> (strings: Vec<String>)
    ensures
        texts(strings@) == scalar_texts(items_of(node@)),
{
    let mut strings: Vec<String> = Vec::new();
    if let Node::Sequence(items) = node {
        proof {
            crate::node::lemma_sequence_view(*items);
        }
        let mut i: usize = 0;
        while i < items.len()
            invariant
                i <= items.len(),
                texts(strings@) == scalar_texts(trees(items@).take(i as int)),
            decreases items.len() - i,
        {
            proof {
                assert(trees(items@).take(i + 1).drop_last() =~= trees(items@).take(i as int));
            }
            let ghost before = strings@;
            match string_for_scalar_node(&items[i]) {
                Some(s) => {
                    strings.push(s);
                    assert(texts(strings@) =~= texts(before).push(s@));
                },
                None => {},
            }
            i += 1;
        }
        assert(trees(items@).take(i as int) =~= trees(items@));
    } else {
        assert(texts(strings@) =~= scalar_texts(items_of(node@)));
    }
    strings
}

/// The keys among `required_keys` that a node does not have, in order.
pub fn missing_keys_in_map(node: &Node, required_keys: &[&str]) -> (missing: Vec<String>)
    ensures
        texts(missing@) == missing_keys(node@, slice_texts(required_keys@)),
{
    let mut missing: Vec<String> = Vec::new();
    let mut i: usize = 0;
    while i < required_keys.len()
        invariant
            i <= required_keys.len(),
            texts(missing@) == missing_keys(node@, slice_texts(required_keys@).take(i as int)),
        decreases required_keys.len() - i,
    {
        proof {
            assert(slice_texts(required_keys@).take(i + 1).drop_last() =~= slice_texts(required_keys@).take(
                i as int,
            ));
        }
        let ghost before = missing@;
        if !map_has_key(node, required_keys[i]) {
            missing.push(required_keys[i].to_owned());
            assert(texts(missing@) =~= texts(before).push(required_keys@[i as int]@));
        }
        i += 1;
    }
    assert(slice_texts(required_keys@).take(i as int) =~= slice_texts(required_keys@));
    missing
}

/// Whether a key is one of the allowed keys or matches one of the patterns.
pub fn is_allowed_key(key: &str, allowed_keys: &[&str], allowed_patterns: &[&Regex]) -> (allowed: bool)
    ensures
        allowed == key_allowed(key@, slice_texts(allowed_keys@), allowed_patterns@),
{
    let mut i: usize = 0;
    while i < allowed_keys.len()
        invariant
            i <= allowed_keys.len(),
            forall|k: int| 0 <= k < i ==> slice_texts(allowed_keys@)[k] != key@,
        decreases allowed_keys.len() - i,
    {
        if same_text(key, allowed_keys[i]) {
            assert(slice_texts(allowed_keys@)[i as int] == key@);
            return true;
        }
        i += 1;
    }
    let mut j: usize = 0;
    while j < allowed_patterns.len()
        invariant
            j <= allowed_patterns.len(),
            forall|k: int| 0 <= k < j ==> !regex_match(*allowed_patterns@[k], key@),
        decreases allowed_patterns.len() - j,
    {
        if pattern_matches(allowed_patterns[j], key) {
            return true;
        }
        j += 1;
    }
    false
}

/// The text keys of a mapping node that are neither among the allowed keys nor
/// matched by one of the allowed patterns, in the order of the mapping.
pub fn invalid_keys_in_map(node: &Node, allowed_keys: &[&str], allowed_patterns: &[&Regex]) -> (invalid: Vec<String>)
    ensures
        texts(invalid@) == invalid_keys(entries_of(node@), slice_texts(allowed_keys@), allowed_patterns@),
{
    let mut invalid: Vec<String> = Vec::new();
    if let Node::Mapping(map) = node {
        let mut i: usize = 0;
        while i < map.len()
            invariant
                i <= map@.len(),
                texts(invalid@) == invalid_keys(map@.take(i as int), slice_texts(allowed_keys@), allowed_patterns@),
            decreases map@.len() - i,
        {
            proof {
                assert(map@.take(i + 1).drop_last() =~= map@.take(i as int));
            }
            let ghost before = invalid@;
            if let Node::String(key) = map.key_at(i) {
                if !is_allowed_key(key.as_str(), allowed_keys, allowed_patterns) {
                    invalid.push(key.clone());
                    assert(texts(invalid@) =~= texts(before).push(key@));
                }
            }
            i += 1;
        }
        assert(map@.take(i as int) =~= map@);
    } else {
        assert(texts(invalid@) =~= invalid_keys(
            entries_of(node@),
            slice_texts(allowed_keys@),
            allowed_patterns@,
        ));
    }
    invalid
}

/// Makes a null node.
pub fn new_null_node() -> (node: Node)
    ensures
        node@ == Tree::Null,
{
    Node::Null
}

/// Makes a mapping node without entries.
pub fn new_mapping_node() -> (node: Node)
    ensures
        node@ == Tree::Mapping(Seq::<(Tree, Tree)>::empty()),
{
    Node::Mapping(Mapping::new())
}

/// Makes a sequence node without items.
pub fn new_sequence_node() -> (node: Node)
    ensures
        node@ == Tree::Sequence(Seq::<Tree>::empty()),
{
    let items: Vec<Node> = Vec::new();
    proof {
        crate::node::lemma_sequence_view(items);
        assert(trees(items@) =~= Seq::<Tree>::empty());
    }
    Node::Sequence(items)
}

/// Makes a text node.
pub fn new_scalar_node_for_string(s: &str) -> (node: Node)
    ensures
        node@ == Tree::String(s@),
{
    Node::String(s.to_owned())
}

/// Makes a sequence node of text nodes.
pub fn new_sequence_node_for_string_array(strings: &[String]) -> (node: Node)
    ensures
        node@ == Tree::Sequence(Seq::new(strings@.len(), |i: int| Tree::String(strings@[i]@))),
{
    let mut items: Vec<Node> = Vec::new();
    let mut i: usize = 0;
    while i < strings.len()
        invariant
            i <= strings.len(),
            items.len() == i,
            forall|k: int| 0 <= k < i ==> items@[k]@ == Tree::String(strings@[k]@),
        decreases strings.len() - i,
    {
        items.push(Node::String(strings[i].clone()));
        i += 1;
    }
    proof {
        crate::node::lemma_sequence_view(items);
        assert(trees(items@) =~= Seq::new(strings@.len(), |i: int| Tree::String(strings@[i]@)));
    }
    Node::Sequence(items)
}

/// Makes a boolean node.
pub fn new_scalar_node_for_bool(b: bool) -> (node: Node)
    ensures
        node@ == Tree::Boolean(b),
{
    Node::Boolean(b)
}

/// Makes an integer node.
pub fn new_scalar_node_for_int(i: i64) -> (node: Node)
    ensures
        node@ == Tree::Integer(i as int),
{
    Node::Integer(i)
}

/// The noun that agrees with a count of properties.
pub fn plural_properties(count: usize) -> (noun: &'static str)
    ensures
        noun@ == (if count == 1 { "property"@ } else { "properties"@ }),
{
    if count == 1 {
        "property"
    } else {
        "properties"
    }
}

/// Whether a list of texts holds a text.
pub fn string_array_contains_value(array: &[String], value: &str) -> (found: bool)
    ensures
        found == texts(array@).contains(value@),
{
    let mut i: usize = 0;
    while i < array.len()
        invariant
            i <= array.len(),
            forall|k: int| 0 <= k < i ==> texts(array@)[k] != value@,
        decreases array.len() - i,
    {
        if same_text(array[i].as_str(), value) {
            assert(texts(array@)[i as int] == value@);
            return true;
        }
        i += 1;
    }
    false
}

/// Whether a list of texts holds each of the given texts.
pub fn string_array_contains_values(array: &[String], values: &[&str]) -> (found: bool)
    ensures
        found == (forall|i: int| 0 <= i < values@.len() ==> texts(array@).contains(#[trigger] values@[i]@)),
{
    let mut i: usize = 0;
    while i < values.len()
        invariant
            i <= values.len(),
            forall|k: int| 0 <= k < i ==> texts(array@).contains(#[trigger] values@[k]@),
        decreases values.len() - i,
    {
        if !string_array_contains_value(array, values[i]) {
            return false;
        }
        i += 1;
    }
    true
}

/// The words that describe a node.
pub fn display(node: &Node) -> (text: String)
    ensures
        text@ == described(node@),
{
    match node {
        Node::String(s) => s.clone().concat(" (string)"),
        Node::Integer(i) => signed_decimal_text(*i).concat(" (integer)"),
        Node::Real(r) => r.clone().concat(" (float)"),
        Node::Boolean(b) => {
            let word = if *b {
                String::from_str("true")
            } else {
                String::from_str("false")
            };
            word.concat(" (boolean)")
        },
        Node::Null => String::from_str("null"),
        Node::Sequence(_) => String::from_str("[array]"),
        Node::Mapping(_) => String::from_str("{object}"),
        Node::Alias(n) => String::from_str("Alias(").concat(decimal_text(*n as u64).as_str()).concat(")"),
        Node::BadValue => String::from_str("BadValue"),
    }
}

/// The text of a node, as bytes.
pub fn marshal(node: &Node) -> (bytes: Vec<u8>)
    ensures
        bytes@ == encode_utf8(yaml_text(node@)),
{
    let value = yaml_from_node(node);
    let text = dump_yaml(&value);
    text.as_str().as_bytes_vec()
}

/// The entries of a mapping node that have a text key, in the order of the mapping.
pub fn iter_map<'a>(node: &'a Node) -> (entries: Vec<(&'a String, &'a Node)>)
    ensures
        Seq::new(entries@.len(), |i: int| (entries@[i].0@, entries@[i].1@)) == string_entries(entries_of(node@)),
        forall|i: int| 0 <= i < entries@.len() ==> decreases_to!(node => (#[trigger] entries@[i]).1),
{
    let mut entries: Vec<(&'a String, &'a Node)> = Vec::new();
    if let Node::Mapping(map) = node {
        let mut i: usize = 0;
        while i < map.len()
            invariant
                i <= map@.len(),
                Seq::new(entries@.len(), |k: int| (entries@[k].0@, entries@[k].1@)) == string_entries(
                    map@.take(i as int),
                ),
                forall|k: int| 0 <= k < entries@.len() ==> decreases_to!(node => (#[trigger] entries@[k]).1),
                *node == Node::Mapping(*map),
            decreases map@.len() - i,
        {
            proof {
                assert(map@.take(i + 1).drop_last() =~= map@.take(i as int));
            }
            let ghost before = entries@;
            if let Node::String(key) = map.key_at(i) {
                let value = map.value_at(i);
                assert(decreases_to!(node => node->Mapping_0));
                entries.push((key, value));
                assert(Seq::new(entries@.len(), |k: int| (entries@[k].0@, entries@[k].1@)) =~= Seq::new(
                    before.len(),
                    |k: int| (before[k].0@, before[k].1@),
                ).push((key@, value@)));
            }
            i += 1;
        }
        assert(map@.take(i as int) =~= map@);
    } else {
        assert(Seq::new(entries@.len(), |k: int| (entries@[k].0@, entries@[k].1@)) =~= string_entries(
            entries_of(node@),
        ));
    }
    entries
}

/// The items of a sequence node, each with its index.
pub fn iter_sequence<'a>(node: &'a Node) -> (items: Vec<(usize, &'a Node)>)
    ensures
        items@.len() == items_of(node@).len(),
        forall|i: int| 0 <= i < items@.len() ==> (#[trigger] items@[i]).0 == i && items@[i].1@ == items_of(node@)[i],
{
    let mut items: Vec<(usize, &'a Node)> = Vec::new();
    if let Node::Sequence(list) = node {
        proof {
            crate::node::lemma_sequence_view(*list);
        }
        let mut i: usize = 0;
        while i < list.len()
            invariant
                i <= list.len(),
                items@.len() == i,
                forall|k: int| 0 <= k < i ==> (#[trigger] items@[k]).0 == k && items@[k].1@ == list@[k]@,
            decreases list.len() - i,
        {
            items.push((i, &list[i]));
            i += 1;
        }
    }
    items
}

/// The position of a node in its source: this tree keeps none, so neither a
/// line nor a column.
pub fn position_from_yaml(node: &Node) -> (position: (Option<usize>, Option<usize>))
    ensures
        position.0 is None,
        position.1 is None,
{
    (None, None)
}

} // verus!
