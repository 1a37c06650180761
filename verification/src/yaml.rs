use vstd::prelude::*;
use crate::node::{Mapping, Node, Tree};
use yaml_rust2::{Yaml, YamlEmitter, YamlLoader};

verus! {

/// The node type of the YAML parser, `yaml_rust2::Yaml`. Nothing is known of
/// what a value holds but through `yaml_tree`.
#[verifier::external_type_specification]
#[verifier::external_body]
pub struct ExYaml(Yaml);

/// The tree that a `yaml_rust2::Yaml` holds: the same variants, with the same
/// contents in the same order. Assumed, not proved.
pub uninterp spec fn yaml_tree(y: Yaml) -> Tree;

/// What the YAML parser makes of a text: the trees of its documents, or the
/// message of its error. Assumed, not proved: it names what
/// `yaml_rust2::YamlLoader::load_from_str` returns.
pub uninterp spec fn yaml_documents(text: Seq<char>) -> Result<Seq<Tree>, Seq<char>>;

/// The text that the YAML emitter writes for a tree. Assumed, not proved: it
/// names what `yaml_rust2::YamlEmitter::dump` writes.
pub uninterp spec fn yaml_text(tree: Tree) -> Seq<char>;

/// The text that shows a tree for debugging. Assumed, not proved: it names what
/// the `Debug` format of `yaml_rust2::Yaml` writes.
pub uninterp spec fn yaml_debug(tree: Tree) -> Seq<char>;

/// The trees of the documents, in order.
pub open spec fn trees_of(docs: Seq<Yaml>) -> Seq<Tree> {
    Seq::new(docs.len(), |i: int| yaml_tree(docs[i]))
}

/// `yaml_rust2::YamlLoader::load_from_str`: the documents of a text, or the
/// message of the `ScanError` that stopped the parser. Assumed, not proved.
#[verifier::external_body]
pub(crate) fn load_documents(text: &str) -> (r: Result<Vec<Yaml>, String>)
    ensures
        match r {
            Ok(docs) => yaml_documents(text@) == Ok::<Seq<Tree>, Seq<char>>(trees_of(docs@)),
            Err(message) => yaml_documents(text@) == Err::<Seq<Tree>, Seq<char>>(message@),
        },
{
    YamlLoader::load_from_str(text).map_err(|e| e.to_string())
}

/// Turns a `yaml_rust2::Yaml` into a node, variant by variant: the node stands
/// for the tree that the value holds. The keys of a `yaml_rust2::yaml::Hash`
/// are distinct, so the mapping's are. Assumed, not proved.
#[verifier::external_body]
pub(crate) fn node_from_yaml(y: &Yaml) -> (n: Node)
    ensures
        n@ == yaml_tree(*y),
{
    match y {
        Yaml::Real(s) => Node::Real(s.clone()),
        Yaml::Integer(i) => Node::Integer(*i),
        Yaml::String(s) => Node::String(s.clone()),
        Yaml::Boolean(b) => Node::Boolean(*b),
        Yaml::Array(a) => Node::Sequence(a.iter().map(node_from_yaml).collect()),
        Yaml::Hash(h) => Node::Mapping(Mapping {
            entries: h.iter().map(|(k, v)| (node_from_yaml(k), node_from_yaml(v))).collect(),
        }),
        Yaml::Alias(n) => Node::Alias(*n),
        Yaml::Null => Node::Null,
        Yaml::BadValue => Node::BadValue,
    }
}

/// Turns a node into a `yaml_rust2::Yaml`, variant by variant: the value holds
/// the tree that the node stands for. No key of a mapping occurs twice, so no
/// entry is lost when the entries enter the `Hash` in order. Assumed, not
/// proved.
#[verifier::external_body]
pub(crate) fn yaml_from_node(n: &Node) -> (y: Yaml)
    ensures
        yaml_tree(y) == n@,
{
    match n {
        Node::Real(s) => Yaml::Real(s.clone()),
        Node::Integer(i) => Yaml::Integer(*i),
        Node::String(s) => Yaml::String(s.clone()),
        Node::Boolean(b) => Yaml::Boolean(*b),
        Node::Sequence(a) => Yaml::Array(a.iter().map(yaml_from_node).collect()),
        Node::Mapping(m) => Yaml::Hash(
            m.entries.iter().map(|(k, v)| (yaml_from_node(k), yaml_from_node(v))).collect(),
        ),
        Node::Alias(n) => Yaml::Alias(*n),
        Node::Null => Yaml::Null,
        Node::BadValue => Yaml::BadValue,
    }
}

/// `yaml_rust2::YamlEmitter::dump` into a `String`: the text of the tree.
/// Assumed, not proved.
#[verifier::external_body]
pub(crate) fn dump_yaml(y: &Yaml) -> (text: String)
    ensures
        text@ == yaml_text(yaml_tree(*y)),
{
    let mut text = String::new();
    let _ = YamlEmitter::new(&mut text).dump(y);
    text
}

/// The `Debug` format of `yaml_rust2::Yaml`: the text that shows the tree.
/// Assumed, not proved.
#[verifier::external_body]
pub(crate) fn debug_yaml(y: &Yaml) -> (text: String)
    ensures
        text@ == yaml_debug(yaml_tree(*y)),
{
    format!("{:?}", y)
}

} // verus!
