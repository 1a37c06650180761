use vstd::prelude::*;

verus! {

/// The mathematical model of a document node.
pub enum Tree {
    Null,
    Boolean(bool),
    Integer(int),
    Real(Seq<char>),
    String(Seq<char>),
    Sequence(Seq<Tree>),
    Mapping(Seq<(Tree, Tree)>),
    Alias(int),
    BadValue,
}

/// A node of a parsed document, whatever the format it was written in.
#[derive(Debug)]
pub enum Node {
    /// The null value.
    Null,
    /// A truth value.
    Boolean(bool),
    /// A whole number.
    Integer(i64),
    /// A number with a fraction, as it was written.
    Real(String),
    /// A text.
    String(String),
    /// A list of nodes.
    Sequence(Vec<Node>),
    /// Keys with their values, in the order of the document.
    Mapping(Mapping),
    /// A reference to an anchor that was not resolved.
    Alias(usize),
    /// A value that could not be read.
    BadValue,
}

/// The entries of a mapping node, in the order of the document. No key occurs
/// twice.
#[derive(Debug)]
pub struct Mapping {
    pub(crate) entries: Vec<(Node, Node)>,
}

/// Whether no key occurs twice among the entries.
pub open spec fn distinct_keys(entries: Seq<(Tree, Tree)>) -> bool {
    forall|i: int, j: int| 0 <= i < j < entries.len() ==> entries[i].0 != entries[j].0
}

/// The index of the first entry at or after `from` whose key is `key`; the
/// number of entries when there is none.
pub open spec fn first_index(entries: Seq<(Tree, Tree)>, key: Tree, from: int) -> int
    decreases entries.len() - from,
{
    if from >= entries.len() {
        entries.len() as int
    } else if entries[from].0 == key {
        from
    } else {
        first_index(entries, key, from + 1)
    }
}

/// The value of the first entry whose key is `key`.
pub open spec fn lookup(entries: Seq<(Tree, Tree)>, key: Tree) -> Option<Tree> {
    let i = first_index(entries, key, 0);
    if 0 <= i < entries.len() {
        Some(entries[i].1)
    } else {
        None
    }
}

/// What `first_index` returns: an index of `key` with no index of it between
/// `from` and there, or the number of entries where no entry from `from` on has
/// that key.
pub proof fn lemma_first_index(entries: Seq<(Tree, Tree)>, key: Tree, from: int)
    requires
        0 <= from,
    ensures
        from <= first_index(entries, key, from) || first_index(entries, key, from) == entries.len(),
        first_index(entries, key, from) <= entries.len() || from > entries.len(),
        first_index(entries, key, from) < entries.len() ==> entries[first_index(entries, key, from)].0 == key,
        forall|i: int| from <= i < first_index(entries, key, from) ==> entries[i].0 != key,
    decreases entries.len() - from,
{
    if from < entries.len() && entries[from].0 != key {
        lemma_first_index(entries, key, from + 1);
    }
}

impl Tree {
    /// The value under the text key `key`, where this tree is a mapping that has it.
    pub open spec fn value_for(self, key: Seq<char>) -> Option<Tree> {
        match self {
            Tree::Mapping(entries) => lookup(entries, Tree::String(key)),
            _ => None,
        }
    }
}

impl View for Node {
    type V = Tree;

    open spec fn view(&self) -> Tree
        decreases self,
    {
        match self {
            Node::Null => Tree::Null,
            Node::Boolean(b) => Tree::Boolean(*b),
            Node::Integer(i) => Tree::Integer(*i as int),
            Node::Real(s) => Tree::Real(s@),
            Node::String(s) => Tree::String(s@),
            Node::Sequence(items) => Tree::Sequence(
                Seq::new(
                    items.len() as nat,
                    |i: int|
                        if 0 <= i < items.len() {
                            items[i]@
                        } else {
                            Tree::Null
                        },
                ),
            ),
            Node::Mapping(m) => Tree::Mapping(m@),
            Node::Alias(n) => Tree::Alias(*n as int),
            Node::BadValue => Tree::BadValue,
        }
    }
}

impl View for Mapping {
    type V = Seq<(Tree, Tree)>;

    closed spec fn view(&self) -> Seq<(Tree, Tree)>
        decreases self,
    {
        Seq::new(
            self.entries.len() as nat,
            |i: int|
                if 0 <= i < self.entries.len() {
                    (self.entries[i].0@, self.entries[i].1@)
                } else {
                    (Tree::Null, Tree::Null)
                },
        )
    }
}

/// The trees of the keys and values, in order.
pub open spec fn pairs(entries: Seq<(Node, Node)>) -> Seq<(Tree, Tree)> {
    Seq::new(entries.len(), |i: int| (entries[i].0@, entries[i].1@))
}

/// The trees of the nodes, in order.
pub open spec fn trees(nodes: Seq<Node>) -> Seq<Tree> {
    Seq::new(nodes.len(), |i: int| nodes[i]@)
}

/// A sequence node stands for the trees of its items.
pub proof fn lemma_sequence_view(items: Vec<Node>)
    ensures
        Node::Sequence(items)@ == Tree::Sequence(trees(items@)),
{
    let t = Node::Sequence(items)@;
    assert(t->Sequence_0 =~= trees(items@));
}

impl Node {
    /// Whether two nodes stand for the same tree.
    pub fn same(&self, other: &Node) -> (same: bool)
        ensures
            same == (self@ == other@),
        decreases self,
    {
        match (self, other) {
            (Node::Null, Node::Null) => true,
            (Node::BadValue, Node::BadValue) => true,
            (Node::Boolean(a), Node::Boolean(b)) => *a == *b,
            (Node::Integer(a), Node::Integer(b)) => *a == *b,
            (Node::Alias(a), Node::Alias(b)) => *a == *b,
            (Node::Real(a), Node::Real(b)) => *a == *b,
            (Node::String(a), Node::String(b)) => *a == *b,
            (Node::Sequence(a), Node::Sequence(b)) => {
                proof {
                    lemma_sequence_view(*a);
                    lemma_sequence_view(*b);
                }
                assert(self@ == Tree::Sequence(trees(a@)));
                assert(other@ == Tree::Sequence(trees(b@)));
                if a.len() != b.len() {
                    assert(trees(a@).len() != trees(b@).len());
                    return false;
                }
                let mut i: usize = 0;
                while i < a.len()
                    invariant
                        i <= a.len(),
                        a.len() == b.len(),
                        forall|k: int| 0 <= k < i ==> a@[k]@ == b@[k]@,
                        *self == Node::Sequence(*a),
                        self@ == Tree::Sequence(trees(a@)),
                        other@ == Tree::Sequence(trees(b@)),
                    decreases a.len() - i,
                {
                    assert(decreases_to!(*a => a[i as int]));
                    assert(decreases_to!(*self => *a));
                    if !a[i].same(&b[i]) {
                        assert(trees(a@)[i as int] != trees(b@)[i as int]);
                        return false;
                    }
                    i += 1;
                }
                assert(trees(a@) =~= trees(b@));
                true
            },
            (Node::Mapping(a), Node::Mapping(b)) => {
                assert(self@ == Tree::Mapping(a@));
                assert(other@ == Tree::Mapping(b@));
                if a.entries.len() != b.entries.len() {
                    assert(a@.len() != b@.len());
                    return false;
                }
                let mut i: usize = 0;
                while i < a.entries.len()
                    invariant
                        i <= a.entries.len(),
                        a.entries.len() == b.entries.len(),
                        forall|k: int| 0 <= k < i ==> a@[k] == b@[k],
                        *self == Node::Mapping(*a),
                        self@ == Tree::Mapping(a@),
                        other@ == Tree::Mapping(b@),
                    decreases a.entries.len() - i,
                {
                    assert(decreases_to!(a.entries => a.entries[i as int]));
                    assert(decreases_to!(*self => a.entries));
                    if !a.entries[i].0.same(&b.entries[i].0) || !a.entries[i].1.same(&b.entries[i].1) {
                        assert(a@[i as int] != b@[i as int]);
                        return false;
                    }
                    i += 1;
                }
                assert(a@ =~= b@);
                true
            },
            _ => false,
        }
    }

    /// A copy of the node that stands for the same tree.
    pub fn clone(&self) -> (copy: Node)
        ensures
            copy@ == self@,
        decreases self,
    {
        match self {
            Node::Null => Node::Null,
            Node::Boolean(b) => Node::Boolean(*b),
            Node::Integer(i) => Node::Integer(*i),
            Node::Real(s) => Node::Real(s.clone()),
            Node::String(s) => Node::String(s.clone()),
            Node::Sequence(items) => {
                let mut copies: Vec<Node> = Vec::new();
                let mut i: usize = 0;
                while i < items.len()
                    invariant
                        i <= items.len(),
                        copies.len() == i,
                        forall|k: int| 0 <= k < i ==> copies@[k]@ == items@[k]@,
                        *self == Node::Sequence(*items),
                    decreases items.len() - i,
                {
                    assert(decreases_to!(*items => items[i as int]));
                    assert(decreases_to!(*self => self->Sequence_0));
                    copies.push(items[i].clone());
                    i += 1;
                }
                proof {
                    lemma_sequence_view(*items);
                    lemma_sequence_view(copies);
                    assert(trees(copies@) =~= trees(items@));
                }
                Node::Sequence(copies)
            },
            Node::Mapping(m) => Node::Mapping(m.clone()),
            Node::Alias(n) => Node::Alias(*n),
            Node::BadValue => Node::BadValue,
        }
    }
}

impl Mapping {
    /// A copy of the mapping with the same entries.
    pub fn clone(&self) -> (copy: Mapping)
        ensures
            copy@ == self@,
        decreases self,
    {
        let mut entries: Vec<(Node, Node)> = Vec::new();
        let mut i: usize = 0;
        while i < self.entries.len()
            invariant
                i <= self.entries.len(),
                entries.len() == i,
                forall|k: int| 0 <= k < i ==> entries@[k].0@ == self.entries@[k].0@ && entries@[k].1@ == self.entries@[k].1@,
            decreases self.entries.len() - i,
        {
            entries.push((self.entries[i].0.clone(), self.entries[i].1.clone()));
            i += 1;
        }
        proof {
            use_type_invariant(self);
            assert(Mapping { entries }@ =~= self@);
        }
        Mapping { entries }
    }

    /// The invariant of the type: no key occurs twice.
    #[verifier::type_invariant]
    pub open spec fn keys_are_distinct(self) -> bool {
        distinct_keys(self@)
    }

    /// Makes a mapping without entries.
    pub fn new() -> (m: Mapping)
        ensures
            m@ == Seq::<(Tree, Tree)>::empty(),
    {
        let m = Mapping { entries: Vec::new() };
        assert(m@ =~= Seq::<(Tree, Tree)>::empty());
        m
    }

    /// The number of entries.
    pub fn len(&self) -> (n: usize)
        ensures
            n == self@.len(),
    {
        self.entries.len()
    }

    /// Whether the mapping has no entry.
    pub fn is_empty(&self) -> (empty: bool)
        ensures
            empty == (self@.len() == 0),
    {
        self.entries.len() == 0
    }

    /// The key of the entry at `index`.
    pub fn key_at(&self, index: usize) -> (key: &Node)
        requires
            index < self@.len(),
        ensures
            key@ == self@[index as int].0,
    {
        &self.entries[index].0
    }

    /// The value of the entry at `index`.
    pub fn value_at(&self, index: usize) -> (value: &Node)
        requires
            index < self@.len(),
        ensures
            value@ == self@[index as int].1,
            decreases_to!(self => value),
    {
        assert(decreases_to!(self.entries => self.entries[index as int]));
        &self.entries[index].1
    }

    /// The position of the entry with that key, if there is one.
    pub fn position(&self, key: &Node) -> (found: Option<usize>)
        ensures
            match found {
                Some(i) => i < self@.len() && i == first_index(self@, key@, 0),
                None => first_index(self@, key@, 0) == self@.len(),
            },
    {
        let mut i: usize = 0;
        while i < self.entries.len()
            invariant
                i <= self.entries.len(),
                first_index(self@, key@, 0) == first_index(self@, key@, i as int),
            decreases self.entries.len() - i,
        {
            if self.entries[i].0.same(key) {
                return Some(i);
            }
            i += 1;
        }
        None
    }

    /// The value under that key, if the mapping has the key.
    pub fn get(&self, key: &Node) -> (value: Option<&Node>)
        ensures
            match value {
                Some(v) => lookup(self@, key@) == Some(v@) && decreases_to!(self => v),
                None => lookup(self@, key@) is None,
            },
    {
        match self.position(key) {
            Some(i) => {
                assert(decreases_to!(self.entries => self.entries[i as int]));
                Some(&self.entries[i].1)
            },
            None => None,
        }
    }

    /// Whether the mapping has that key.
    pub fn contains_key(&self, key: &Node) -> (found: bool)
        ensures
            found == (lookup(self@, key@) is Some),
    {
        self.position(key).is_some()
    }

    /// Puts the entry at the end of the mapping. Where the key was there already,
    /// its earlier entry leaves the mapping and its value is returned.
    pub fn insert(&mut self, key: Node, value: Node) -> (previous: Option<Node>)
        ensures
            match previous {
                Some(p) => {
                    let i = first_index(old(self)@, key@, 0);
                    &&& 0 <= i < old(self)@.len()
                    &&& p@ == old(self)@[i].1
                    &&& final(self)@ == old(self)@.remove(i).push((key@, value@))
                },
                None => {
                    &&& lookup(old(self)@, key@) is None
                    &&& final(self)@ == old(self)@.push((key@, value@))
                },
            },
    {
        proof {
            use_type_invariant(&*self);
            lemma_first_index(self@, key@, 0);
        }
        let ghost before = self@;
        let found = self.position(&key);
        let mut entries: Vec<(Node, Node)> = Vec::new();
        std::mem::swap(&mut entries, &mut self.entries);
        assert(pairs(entries@) =~= before);
        let previous = match found {
            Some(i) => {
                let entry = entries.remove(i);
                assert(pairs(entries@) =~= before.remove(i as int));
                Some(entry.1)
            },
            None => None,
        };
        let ghost between = pairs(entries@);
        entries.push((key, value));
        proof {
            let after = pairs(entries@);
            assert(after =~= between.push((key@, value@)));
            assert forall|i: int, j: int| 0 <= i < j < after.len() implies after[i].0 != after[j].0 by {
                if previous is Some {
                    let at = first_index(before, key@, 0);
                    let i0 = if i < at { i } else { i + 1 };
                    if j < between.len() {
                        let j0 = if j < at { j } else { j + 1 };
                        assert(between[i] == before[i0] && between[j] == before[j0]);
                    } else {
                        assert(between[i] == before[i0]);
                    }
                } else {
                    if j < between.len() {
                    } else {
                        assert(between[i] == before[i]);
                    }
                }
            }
        }
        proof {
            assert(Mapping { entries }@ =~= pairs(entries@));
        }
        *self = Mapping { entries };
        previous
    }
}

} // verus!
