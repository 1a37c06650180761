use vstd::prelude::*;
use crate::context::{position_prefix, Context, Place};
use crate::text::{decimal_text, join};

verus! {

/// A failure found while reading or decoding a document.
#[derive(Debug, Clone)]
pub enum CompilerError {
    /// A failure at a known line and column of the document.
    Located { line: usize, column: usize, path: String, message: String },
    /// A failure at a known path whose position in the source is unknown.
    Unlocated { path: String, message: String },
    /// A failure with no place in a document.
    Simple(String),
    /// A failure to read a local resource.
    Io(String),
    /// A failure to parse a document.
    Yaml(String),
    /// A failure to fetch a remote resource.
    Http(String),
}

/// The mathematical model of a `CompilerError`.
pub enum Failure {
    Located { line: nat, column: nat, path: Seq<char>, message: Seq<char> },
    Unlocated { path: Seq<char>, message: Seq<char> },
    Simple(Seq<char>),
    Io(Seq<char>),
    Yaml(Seq<char>),
    Http(Seq<char>),
}

/// The failure that a message gives at a place: located where the position is
/// known, unlocated otherwise.
pub open spec fn failure_in(place: Place, message: Seq<char>) -> Failure {
    match place.position {
        Some((line, column)) => Failure::Located { line, column, path: place.path, message },
        None => Failure::Unlocated { path: place.path, message },
    }
}

/// The failure that a message gives at a context: located when the context has
/// both a line and a column, unlocated otherwise.
pub open spec fn failure_at(context: &Context, message: Seq<char>) -> Failure {
    failure_in(context.place(), message)
}

/// The failure that a message gives at a context, or alone where there is none.
pub open spec fn failure_at_opt(context: Option<&Context>, message: Seq<char>) -> Failure {
    match context {
        Some(c) => failure_at(c, message),
        None => Failure::Simple(message),
    }
}

/// The line of text that reports a failure.
pub open spec fn rendered(failure: Failure) -> Seq<char> {
    match failure {
        Failure::Located { line, column, path, message } => position_prefix(line, column) + path + seq![' ']
            + message,
        Failure::Unlocated { path, message } => path + seq![' '] + message,
        Failure::Simple(message) => message,
        Failure::Io(message) => "IO error: "@ + message,
        Failure::Yaml(message) => "YAML error: "@ + message,
        Failure::Http(message) => "HTTP error: "@ + message,
    }
}

/// The lines that report the failures, in order.
pub open spec fn rendered_each(failures: Seq<Failure>) -> Seq<Seq<char>> {
    Seq::new(failures.len(), |i: int| rendered(failures[i]))
}

/// The models of the errors, in order.
pub open spec fn failures_of(errors: Seq<CompilerError>) -> Seq<Failure> {
    Seq::new(errors.len(), |i: int| errors[i]@)
}

impl View for CompilerError {
    type V = Failure;

    open spec fn view(&self) -> Failure {
        match self {
            CompilerError::Located { line, column, path, message } => Failure::Located {
                line: *line as nat,
                column: *column as nat,
                path: path@,
                message: message@,
            },
            CompilerError::Unlocated { path, message } => Failure::Unlocated { path: path@, message: message@ },
            CompilerError::Simple(message) => Failure::Simple(message@),
            CompilerError::Io(message) => Failure::Io(message@),
            CompilerError::Yaml(message) => Failure::Yaml(message@),
            CompilerError::Http(message) => Failure::Http(message@),
        }
    }
}

impl CompilerError {
    /// Makes the error that `message` gives at `context`.
    pub fn new(context: &Context, message: &str) -> (error: CompilerError)
        ensures
            error@ == failure_at(context, message@),
    {
        match (context.line, context.column) {
            (Some(line), Some(column)) => CompilerError::Located {
                line,
                column,
                path: context.description(),
                message: message.to_owned(),
            },
            _ => CompilerError::Unlocated { path: context.description(), message: message.to_owned() },
        }
    }

    /// Makes the error that `message` gives at `context`, or a simple error where
    /// there is no context.
    pub fn new_opt(context: Option<&Context>, message: &str) -> (error: CompilerError)
        ensures
            error@ == failure_at_opt(context, message@),
    {
        match context {
            Some(c) => Self::new(c, message),
            None => CompilerError::Simple(message.to_owned()),
        }
    }

    /// The line of text that reports this error.
    pub fn to_string(&self) -> (text: String)
        ensures
            text@ == rendered(self@),
    {
        match self {
            CompilerError::Located { line, column, path, message } => {
                let mut text = String::from_str("[");
                text.append(decimal_text(*line as u64).as_str());
                text.append(",");
                text.append(decimal_text(*column as u64).as_str());
                text.append("] ");
                text.append(path.as_str());
                text.append(" ");
                text.append(message.as_str());
                proof {
                    reveal_strlit("[");
                    reveal_strlit(",");
                    reveal_strlit("] ");
                    reveal_strlit(" ");
                    assert(text@ =~= rendered(self@));
                }
                text
            },
            CompilerError::Unlocated { path, message } => {
                let mut text = path.clone();
                text.append(" ");
                text.append(message.as_str());
                proof {
                    reveal_strlit(" ");
                    assert(text@ =~= rendered(self@));
                }
                text
            },
            CompilerError::Simple(message) => message.clone(),
            CompilerError::Io(message) => String::from_str("IO error: ").concat(message.as_str()),
            CompilerError::Yaml(message) => String::from_str("YAML error: ").concat(message.as_str()),
            CompilerError::Http(message) => String::from_str("HTTP error: ").concat(message.as_str()),
        }
    }
}

/// The failures of one pass over a document, in the order in which they were found.
#[derive(Debug, Clone)]
pub struct ErrorGroup {
    pub errors: Vec<CompilerError>,
}

impl View for ErrorGroup {
    type V = Seq<Failure>;

    open spec fn view(&self) -> Seq<Failure> {
        failures_of(self.errors@)
    }
}

impl ErrorGroup {
    /// Makes a group of the given errors.
    pub fn new(errors: Vec<CompilerError>) -> (group: ErrorGroup)
        ensures
            group.errors == errors,
    {
        ErrorGroup { errors }
    }

    /// Makes a group of the given errors, or none when there are no errors.
    pub fn from_errors(errors: Vec<CompilerError>) -> (group: Option<ErrorGroup>)
        ensures
            group is None <==> errors@.len() == 0,
            group matches Some(g) ==> g.errors == errors && g@.len() == errors@.len(),
    {
        if errors.is_empty() {
            None
        } else {
            Some(ErrorGroup { errors })
        }
    }

    /// Whether the group holds no error.
    pub fn is_empty(&self) -> (empty: bool)
        ensures
            empty == (self@.len() == 0),
    {
        self.errors.is_empty()
    }

    /// The number of errors in the group.
    pub fn len(&self) -> (n: usize)
        ensures
            n == self@.len(),
    {
        self.errors.len()
    }

    /// Adds an error at the end of the group.
    pub fn push(&mut self, error: CompilerError)
        ensures
            final(self).errors@ == old(self).errors@.push(error),
            final(self)@ == old(self)@.push(error@),
    {
        self.errors.push(error);
        assert(self@ =~= old(self)@.push(error@));
    }

    /// Adds the errors of another group at the end of this one.
    pub fn extend(&mut self, other: ErrorGroup)
        ensures
            final(self).errors@ == old(self).errors@ + other.errors@,
            final(self)@ == old(self)@ + other@,
    {
        let mut other = other;
        let ghost added = other.errors@;
        self.errors.append(&mut other.errors);
        assert(self@ =~= old(self)@ + failures_of(added));
    }

    /// Success when the group is empty; otherwise the group, as the failure.
    pub fn into_result(self) -> (result: Result<(), ErrorGroup>)
        ensures
            self@.len() == 0 ==> result is Ok,
            self@.len() > 0 ==> result == Err::<(), ErrorGroup>(self),
    {
        if self.errors.is_empty() {
            Ok(())
        } else {
            Err(self)
        }
    }

    /// The report of the group: one line for each error.
    pub fn to_string(&self) -> (text: String)
        ensures
            text@ == join(rendered_each(self@), seq!['\n']),
    {
        let mut text = String::new();
        let mut i: usize = 0;
        while i < self.errors.len()
            invariant
                i <= self.errors.len(),
                text@ == join(rendered_each(self@.take(i as int)), seq!['\n']),
            decreases self.errors.len() - i,
        {
            let ghost before = rendered_each(self@.take(i as int));
            let ghost after = rendered_each(self@.take(i + 1));
            proof {
                assert(after.drop_last() =~= before);
                assert(after.last() == rendered(self.errors@[i as int]@));
                reveal_strlit("\n");
                assert("\n"@ =~= seq!['\n']);
            }
            if i > 0 {
                text.append("\n");
            }
            let line = self.errors[i].to_string();
            text.append(line.as_str());
            proof {
                if i == 0 {
                    assert(text@ =~= after[0]);
                }
            }
            i += 1;
        }
        assert(self@.take(i as int) =~= self@);
        text
    }
}

impl Default for ErrorGroup {
    fn default() -> (group: ErrorGroup)
        ensures
            group.errors@.len() == 0,
            group@.len() == 0,
    {
        ErrorGroup { errors: Vec::new() }
    }
}

} // verus!
