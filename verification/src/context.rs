use vstd::prelude::*;
use std::sync::Arc;
use crate::extensions::ExtensionHandler;
use crate::text::{
    count_char, count_in_parts, decimal, decimal_text, join, lemma_join_count, lemma_join_len, total_len,
};

verus! {

/// A position in the tree of a document: the element's name, where it stands in
/// the source when that is known, and the context of the enclosing element.
#[derive(Debug, Clone)]
pub struct Context {
    /// The context of the enclosing element; `None` at the root.
    pub parent: Option<Arc<Context>>,
    /// The name of the element.
    pub name: String,
    /// The line of the element in the source, if known.
    pub line: Option<usize>,
    /// The column of the element in the source, if known.
    pub column: Option<usize>,
    /// The handlers for vendor extensions that apply to this subtree.
    pub extension_handlers: Option<Arc<Vec<ExtensionHandler>>>,
}

/// `Arc::clone`: a second pointer to the same value. Assumed, not proved.
#[verifier::external_body]
pub(crate) fn share<T>(pointer: &Arc<T>) -> (other: Arc<T>)
    ensures
        other == *pointer,
{
    Arc::clone(pointer)
}

/// What an error needs to know of a context: its dotted path, and its line
/// and column where both are known.
pub struct Place {
    pub path: Seq<char>,
    pub position: Option<(nat, nat)>,
}

impl Place {
    /// The place of an element of that name below this place, at an unknown
    /// position.
    pub open spec fn child(self, name: Seq<char>) -> Place {
        Place { path: self.path + seq!['.'] + name, position: None }
    }
}

/// The text `"[line,column] "` that precedes a located description.
pub open spec fn position_prefix(line: nat, column: nat) -> Seq<char> {
    seq!['['] + decimal(line) + seq![','] + decimal(column) + seq![']', ' ']
}

impl Context {
    /// The names from the root down to this context.
    pub open spec fn names(&self) -> Seq<Seq<char>>
        decreases self,
    {
        match self.parent {
            Some(parent) => parent.names().push(self.name@),
            None => seq![self.name@],
        }
    }

    /// The number of contexts above this one.
    pub open spec fn depth(&self) -> nat
        decreases self,
    {
        match self.parent {
            Some(parent) => parent.depth() + 1,
            None => 0,
        }
    }

    /// The dotted path from the root to this context.
    pub open spec fn path(&self) -> Seq<char> {
        join(self.names(), seq!['.'])
    }

    /// The path and the position of this context.
    pub open spec fn place(&self) -> Place {
        Place {
            path: self.path(),
            position: match (self.line, self.column) {
                (Some(line), Some(column)) => Some((line as nat, column as nat)),
                _ => None,
            },
        }
    }

    /// The dotted path, preceded by the position when line and column are known.
    pub open spec fn located_path(&self) -> Seq<char> {
        match (self.line, self.column) {
            (Some(line), Some(column)) => position_prefix(line as nat, column as nat) + self.path(),
            _ => self.path(),
        }
    }

    /// The handlers that a context below `parent` inherits.
    pub open spec fn inherited_handlers(parent: Option<Arc<Context>>) -> Option<Arc<Vec<ExtensionHandler>>> {
        match parent {
            Some(p) => p.extension_handlers,
            None => None,
        }
    }

    /// Makes a context with the given extension handlers.
    pub fn new_with_extensions(
        name: &str,
        line: Option<usize>,
        column: Option<usize>,
        parent: Option<Arc<Context>>,
        extension_handlers: Option<Arc<Vec<ExtensionHandler>>>,
    ) -> (context: Context)
        ensures
            context.parent == parent,
            context.name@ == name@,
            context.line == line,
            context.column == column,
            context.extension_handlers == extension_handlers,
    {
        Context { parent, name: name.to_owned(), line, column, extension_handlers }
    }

    /// Makes a context below `parent`, with the parent's extension handlers.
    pub fn new(name: &str, line: Option<usize>, column: Option<usize>, parent: Option<Arc<Context>>) -> (context: Context)
        ensures
            context.parent == parent,
            context.name@ == name@,
            context.line == line,
            context.column == column,
            context.extension_handlers == Self::inherited_handlers(parent),
    {
        let extension_handlers = match &parent {
            Some(p) => match &p.extension_handlers {
                Some(handlers) => Some(share(handlers)),
                None => None,
            },
            None => None,
        };
        Context { parent, name: name.to_owned(), line, column, extension_handlers }
    }

    /// Makes a root context: no parent, no position, no handlers.
    pub fn root(name: &str) -> (context: Context)
        ensures
            context.parent is None,
            context.name@ == name@,
            context.line is None,
            context.column is None,
            context.extension_handlers is None,
            context.names() == seq![name@],
            context.depth() == 0,
    {
        Context { parent: None, name: name.to_owned(), line: None, column: None, extension_handlers: None }
    }

    /// Makes a context for an element of this one.
    pub fn child(self: &Arc<Self>, name: &str) -> (context: Context)
        ensures
            context.parent == Some(*self),
            context.name@ == name@,
            context.line is None,
            context.column is None,
            context.extension_handlers == self.extension_handlers,
            context.names() == self.names().push(name@),
            context.depth() == self.depth() + 1,
            context.place() == self.place().child(name@),
    {
        proof {
            self.lemma_names_nonempty();
            assert(self.names().push(name@).drop_last() =~= self.names());
        }
        Context::new(name, None, None, Some(share(self)))
    }

    /// Makes a context for an element of this one, at a known position.
    pub fn child_with_position(self: &Arc<Self>, name: &str, line: usize, column: usize) -> (context: Context)
        ensures
            context.parent == Some(*self),
            context.name@ == name@,
            context.line == Some(line),
            context.column == Some(column),
            context.extension_handlers == self.extension_handlers,
            context.names() == self.names().push(name@),
            context.depth() == self.depth() + 1,
    {
        Context::new(name, Some(line), Some(column), Some(share(self)))
    }

    /// The dotted path from the root to this context.
    pub fn description(&self) -> (text: String)
        ensures
            text@ == self.path(),
        decreases self,
    {
        match &self.parent {
            Some(parent) => {
                let mut text = parent.description();
                proof {
                    parent.lemma_names_nonempty();
                    assert(self.names().drop_last() =~= parent.names());
                }
                text.append(".");
                text.append(self.name.as_str());
                proof {
                    reveal_strlit(".");
                    assert("."@ =~= seq!['.']);
                }
                text
            },
            None => self.name.clone(),
        }
    }

    /// The description, preceded by `"[line,column] "` when both are known.
    pub fn location_description(&self) -> (text: String)
        ensures
            text@ == self.located_path(),
    {
        match (self.line, self.column) {
            (Some(line), Some(column)) => {
                let mut text = String::from_str("[");
                text.append(decimal_text(line as u64).as_str());
                text.append(",");
                text.append(decimal_text(column as u64).as_str());
                text.append("] ");
                text.append(self.description().as_str());
                proof {
                    reveal_strlit("[");
                    reveal_strlit(",");
                    reveal_strlit("] ");
                    assert(text@ =~= position_prefix(line as nat, column as nat) + self.path());
                }
                text
            },
            _ => self.description(),
        }
    }

    /// The description of a context is made of the names from the root down to
    /// it, with one dot between each two: it is as long as the names and one dot
    /// for each context above, and it holds a dot for each context above besides
    /// the dots in the names.
    pub proof fn lemma_description_joins_names(&self)
        ensures
            self.path() == join(self.names(), seq!['.']),
            self.names().len() == self.depth() + 1,
            self.names().last() == self.name@,
            self.path().len() == total_len(self.names()) + self.depth(),
            count_char(self.path(), '.') == count_in_parts(self.names(), '.') + self.depth(),
    {
        self.lemma_names_nonempty();
        lemma_join_len(self.names(), seq!['.']);
        lemma_join_count(self.names(), '.');
        assert(self.depth() * 1 == self.depth()) by (nonlinear_arith);
    }

    /// Where no name holds a dot, the description holds exactly one dot for each
    /// context above.
    pub proof fn lemma_description_separators(&self)
        requires
            count_in_parts(self.names(), '.') == 0,
        ensures
            count_char(self.path(), '.') == self.depth(),
    {
        self.lemma_description_joins_names();
    }

    /// The description with the position is the description itself exactly when
    /// the line or the column is unknown; with both known it is the description
    /// behind `"[line,column] "`.
    pub proof fn lemma_location_description(&self)
        ensures
            self.located_path() == self.path() <==> (self.line is None || self.column is None),
            (self.line is Some && self.column is Some) ==> self.located_path() == position_prefix(
                self.line.unwrap() as nat,
                self.column.unwrap() as nat,
            ) + self.path(),
    {
        if self.line is Some && self.column is Some {
            let prefix = position_prefix(self.line.unwrap() as nat, self.column.unwrap() as nat);
            assert(prefix.len() > 0);
            assert((prefix + self.path()).len() == prefix.len() + self.path().len());
        }
    }

    /// A context has as many names as it has contexts above it, and one more.
    pub proof fn lemma_names_nonempty(&self)
        ensures
            self.names().len() == self.depth() + 1,
        decreases self,
    {
        match self.parent {
            Some(parent) => {
                parent.lemma_names_nonempty();
            },
            None => {},
        }
    }
}

} // verus!
