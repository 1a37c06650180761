use vstd::prelude::*;
use std::sync::Arc;
use crate::context::{share, Context};
use crate::error::{CompilerError, Failure};
use crate::node::Node;
use crate::text::{chars_of, join, split, split_text, text_of, texts};
use crate::yaml::{dump_yaml, yaml_from_node, yaml_text};

verus! {

/// A program that is run to interpret vendor extensions.
#[derive(Debug, Clone)]
pub struct ExtensionHandler {
    /// The name of the program; a handler with an empty name is switched off.
    pub name: String,
}

/// How the run of a handler's program ended.
#[derive(Debug)]
pub enum ProcessOutcome {
    /// The program could not be started.
    SpawnFailed(String),
    /// The request could not be written to the program.
    WriteFailed(String),
    /// The program's output could not be collected.
    WaitFailed(String),
    /// The program ran and ended.
    Exited { success: bool, stdout: Vec<u8>, stderr: String },
}

/// The mathematical model of a `ProcessOutcome`.
pub enum Outcome {
    SpawnFailed(Seq<char>),
    WriteFailed(Seq<char>),
    WaitFailed(Seq<char>),
    Exited { success: bool, stdout: Seq<u8>, stderr: Seq<char> },
}

impl View for ProcessOutcome {
    type V = Outcome;

    open spec fn view(&self) -> Outcome {
        match self {
            ProcessOutcome::SpawnFailed(e) => Outcome::SpawnFailed(e@),
            ProcessOutcome::WriteFailed(e) => Outcome::WriteFailed(e@),
            ProcessOutcome::WaitFailed(e) => Outcome::WaitFailed(e@),
            ProcessOutcome::Exited { success, stdout, stderr } => Outcome::Exited {
                success: *success,
                stdout: stdout@,
                stderr: stderr@,
            },
        }
    }
}

/// What to do with one handler.
#[derive(Debug)]
pub enum HandlerStep {
    /// The handler is switched off: it declines without a run.
    Declined,
    /// The program is to be run with the request on its standard input.
    Run { program: String, request: String },
}

/// One step in offering an extension to the handlers.
#[derive(Debug)]
pub enum ExtensionStep {
    /// The offer is over: whether a handler took the extension, and its answer.
    Done(Result<(bool, Option<Vec<u8>>), CompilerError>),
    /// The program of the handler at this index is to be run with the request.
    Run { handler: usize, program: String, request: String },
}

/// The mathematical model of an `ExtensionStep`.
pub enum Dispatch {
    Done(Result<(bool, Option<Seq<u8>>), Failure>),
    Run { handler: int, program: Seq<char>, request: Seq<char> },
}

impl View for ExtensionStep {
    type V = Dispatch;

    open spec fn view(&self) -> Dispatch {
        match self {
            ExtensionStep::Done(Ok((handled, Some(bytes)))) => Dispatch::Done(Ok((*handled, Some(bytes@)))),
            ExtensionStep::Done(Ok((handled, None))) => Dispatch::Done(Ok((*handled, None))),
            ExtensionStep::Done(Err(error)) => Dispatch::Done(Err(error@)),
            ExtensionStep::Run { handler, program, request } => Dispatch::Run {
                handler: *handler as int,
                program: program@,
                request: request@,
            },
        }
    }
}

/// A piece of text without one carriage return at its end.
pub open spec fn without_return(piece: Seq<char>) -> Seq<char> {
    if piece.len() > 0 && piece.last() == '\r' {
        piece.drop_last()
    } else {
        piece
    }
}

/// The lines of a text. A line ends at a line feed, or at a carriage return
/// followed by a line feed; the last line needs no ending.
pub open spec fn lines_of(text: Seq<char>) -> Seq<Seq<char>> {
    let pieces = split(text, '\n');
    let ended = pieces.len() - 1;
    Seq::new(
        (if pieces.last().len() == 0 {
            ended
        } else {
            ended + 1
        }) as nat,
        |i: int|
            if i < ended {
                without_return(pieces[i])
            } else {
                pieces[i]
            },
    )
}

/// Each line with two spaces before it.
pub open spec fn indented_each(lines: Seq<Seq<char>>) -> Seq<Seq<char>> {
    Seq::new(lines.len(), |i: int| seq![' ', ' '] + lines[i])
}

/// The lines of a text, each with two spaces before it, with a line feed
/// between each two.
pub open spec fn indented(text: Seq<char>) -> Seq<char> {
    join(indented_each(lines_of(text)), seq!['\n'])
}

/// The request that a handler reads: the version, the name of the extension,
/// and the text of the node as a literal block.
pub open spec fn request_text(yaml: Seq<char>, extension_name: Seq<char>) -> Seq<char> {
    "version: \"0.1.0\"\nextension_name: \""@ + extension_name + "\"\nyaml: |\n"@ + indented(yaml)
}

/// What a handler's run amounts to: a failure, no answer, or the answer.
pub open spec fn handler_result(name: Seq<char>, outcome: Outcome) -> Result<Option<Seq<u8>>, Failure> {
    match outcome {
        Outcome::SpawnFailed(e) => Err(
            Failure::Io("Failed to spawn extension handler "@ + name + ": "@ + e),
        ),
        Outcome::WriteFailed(e) => Err(Failure::Io("Failed to write to extension handler: "@ + e)),
        Outcome::WaitFailed(e) => Err(Failure::Io("Failed to get extension handler output: "@ + e)),
        Outcome::Exited { success, stdout, stderr } => if !success {
            Err(Failure::Simple("Extension handler "@ + name + " failed: "@ + stderr))
        } else if stdout.len() == 0 {
            Ok(None)
        } else {
            Ok(Some(stdout))
        },
    }
}

/// The index of the first handler at or after `from` that is switched on; the
/// number of handlers when there is none.
pub open spec fn next_handler(handlers: Seq<ExtensionHandler>, from: int) -> int
    decreases handlers.len() - from,
{
    if from >= handlers.len() {
        handlers.len() as int
    } else if handlers[from].name@.len() > 0 {
        from
    } else {
        next_handler(handlers, from + 1)
    }
}

/// The step that offers the extension to the handlers from `from` on: the run
/// of the first that is switched on, or the end of the offer with nothing
/// handled.
pub open spec fn offer_from(handlers: Seq<ExtensionHandler>, from: int, request: Seq<char>) -> Dispatch {
    let at = next_handler(handlers, from);
    if 0 <= at < handlers.len() {
        Dispatch::Run { handler: at, program: handlers[at].name@, request }
    } else {
        Dispatch::Done(Ok((false, None)))
    }
}

/// The first step of an offer: with no handlers configured it is over at once.
pub open spec fn offer(context: &Context, request: Seq<char>) -> Dispatch {
    match context.extension_handlers {
        Some(handlers) => offer_from(handlers@, 0, request),
        None => Dispatch::Done(Ok((false, None))),
    }
}

/// The step after the run of the handler at `handler`: its failure or its
/// answer ends the offer; when it declined, the offer goes on behind it.
pub open spec fn offer_after(
    handlers: Seq<ExtensionHandler>,
    handler: int,
    outcome: Outcome,
    request: Seq<char>,
) -> Dispatch {
    match handler_result(handlers[handler].name@, outcome) {
        Err(failure) => Dispatch::Done(Err(failure)),
        Ok(Some(answer)) => Dispatch::Done(Ok((true, Some(answer)))),
        Ok(None) => offer_from(handlers, handler + 1, request),
    }
}

/// The step after the run of the handler at `handler` of a context.
pub open spec fn resumed(context: &Context, handler: int, outcome: Outcome, request: Seq<char>) -> Dispatch {
    match context.extension_handlers {
        Some(handlers) => if 0 <= handler < handlers@.len() {
            offer_after(handlers@, handler, outcome, request)
        } else {
            Dispatch::Done(Ok((false, None)))
        },
        None => Dispatch::Done(Ok((false, None))),
    }
}

/// A handler that declines does not end the offer: the handlers behind it are
/// tried as if the offer began there.
pub proof fn lemma_decline_passes_on(handlers: Seq<ExtensionHandler>, handler: int, stderr: Seq<char>, request: Seq<char>)
    requires
        0 <= handler < handlers.len(),
    ensures
        offer_after(
            handlers,
            handler,
            Outcome::Exited { success: true, stdout: Seq::<u8>::empty(), stderr },
            request,
        ) == offer_from(handlers, handler + 1, request),
{
}

/// A handler that answers ends the offer with its answer, whatever handlers
/// stand behind it.
pub proof fn lemma_answer_ends_offer(
    handlers: Seq<ExtensionHandler>,
    handler: int,
    answer: Seq<u8>,
    stderr: Seq<char>,
    request: Seq<char>,
)
    requires
        0 <= handler < handlers.len(),
        answer.len() > 0,
    ensures
        offer_after(handlers, handler, Outcome::Exited { success: true, stdout: answer, stderr }, request)
            == Dispatch::Done(Ok((true, Some(answer)))),
{
}

/// Takes one carriage return from the end of a piece of text, if it ends in one.
fn strip_return(piece: &str) -> (line: String)
    ensures
        line@ == without_return(piece@),
{
    let chars = chars_of(piece);
    let n = chars.len();
    if n > 0 && chars[n - 1] == '\r' {
        let line = text_of(&chars, 0, n - 1);
        assert(chars@.subrange(0, n - 1) =~= piece@.drop_last());
        line
    } else {
        let line = text_of(&chars, 0, n);
        assert(chars@.subrange(0, n as int) =~= piece@);
        line
    }
}

/// Puts two spaces before each line of a text.
pub fn indent(text: &str) -> (out: String)
    ensures
        out@ == indented(text@),
{
    let pieces = split_text(text, '\n');
    proof {
        crate::text::lemma_split_nonempty(text@, '\n');
    }
    let ended: usize = pieces.len() - 1;
    let count: usize = if pieces[ended].as_str().unicode_len() == 0 {
        ended
    } else {
        ended + 1
    };
    let ghost lines = indented_each(lines_of(text@));
    let mut out = String::new();
    let mut i: usize = 0;
    while i < count
        invariant
            i <= count <= pieces.len(),
            ended == pieces.len() - 1,
            texts(pieces@) == split(text@, '\n'),
            lines == indented_each(lines_of(text@)),
            lines.len() == count,
            out@ == join(lines.take(i as int), seq!['\n']),
        decreases count - i,
    {
        proof {
            assert(lines.take(i + 1).drop_last() =~= lines.take(i as int));
            reveal_strlit("\n");
            reveal_strlit("  ");
            assert("\n"@ =~= seq!['\n']);
            assert("  "@ =~= seq![' ', ' ']);
            assert(texts(pieces@)[i as int] == pieces@[i as int]@);
        }
        if i > 0 {
            out.append("\n");
        }
        out.append("  ");
        if i < ended {
            let line = strip_return(pieces[i].as_str());
            out.append(line.as_str());
        } else {
            out.append(pieces[i].as_str());
        }
        proof {
            let line = lines_of(text@)[i as int];
            assert(lines[i as int] == seq![' ', ' '] + line);
            if i == 0 {
                assert(out@ =~= lines[0]);
                assert(lines.take(1).len() == 1);
            } else {
                assert(out@ =~= join(lines.take(i as int), seq!['\n']) + seq!['\n'] + lines[i as int]);
            }
        }
        i += 1;
    }
    assert(lines.take(i as int) =~= lines);
    out
}

/// Frames the text of a node as the request that a handler reads.
pub fn frame_request(yaml: &str, extension_name: &str) -> (request: String)
    ensures
        request@ == request_text(yaml@, extension_name@),
{
    let mut request = String::from_str("version: \"0.1.0\"\nextension_name: \"");
    request.append(extension_name);
    request.append("\"\nyaml: |\n");
    request.append(indent(yaml).as_str());
    request
}

/// The request that a handler reads for a node.
pub fn build_request(node: &Node, extension_name: &str) -> (request: String)
    ensures
        request@ == request_text(yaml_text(node@), extension_name@),
{
    let value = yaml_from_node(node);
    let yaml = dump_yaml(&value);
    frame_request(yaml.as_str(), extension_name)
}

impl ExtensionHandler {
    /// Makes a handler for the program of that name.
    pub fn new(name: &str) -> (handler: ExtensionHandler)
        ensures
            handler.name@ == name@,
    {
        ExtensionHandler { name: name.to_owned() }
    }

    /// What to do with this handler for an extension: a handler without a name
    /// declines; any other is to be run with the request for the node.
    pub fn handle(&self, node: &Node, extension_name: &str) -> (step: HandlerStep)
        ensures
            match step {
                HandlerStep::Declined => self.name@.len() == 0,
                HandlerStep::Run { program, request } => self.name@.len() > 0 && program@ == self.name@ && request@
                    == request_text(yaml_text(node@), extension_name@),
            },
    {
        if self.name.as_str().unicode_len() == 0 {
            return HandlerStep::Declined;
        }
        HandlerStep::Run { program: self.name.clone(), request: build_request(node, extension_name) }
    }

    /// What the run of this handler's program amounts to. A program that could
    /// not be run, or that ended in failure, is an error; one that wrote
    /// nothing declined; any other output is the answer.
    pub fn finish(&self, outcome: ProcessOutcome) -> (result: Result<Option<Vec<u8>>, CompilerError>)
        ensures
            match result {
                Ok(Some(answer)) => handler_result(self.name@, outcome@) == Ok::<Option<Seq<u8>>, Failure>(
                    Some(answer@),
                ),
                Ok(None) => handler_result(self.name@, outcome@) == Ok::<Option<Seq<u8>>, Failure>(None),
                Err(error) => handler_result(self.name@, outcome@) == Err::<Option<Seq<u8>>, Failure>(error@),
            },
    {
        match outcome {
            ProcessOutcome::SpawnFailed(e) => {
                let text = String::from_str("Failed to spawn extension handler ").concat(
                    self.name.as_str(),
                ).concat(": ").concat(e.as_str());
                Err(CompilerError::Io(text))
            },
            ProcessOutcome::WriteFailed(e) => Err(
                CompilerError::Io(String::from_str("Failed to write to extension handler: ").concat(e.as_str())),
            ),
            ProcessOutcome::WaitFailed(e) => Err(
                CompilerError::Io(
                    String::from_str("Failed to get extension handler output: ").concat(e.as_str()),
                ),
            ),
            ProcessOutcome::Exited { success, stdout, stderr } => {
                if !success {
                    let text = String::from_str("Extension handler ").concat(self.name.as_str()).concat(
                        " failed: ",
                    ).concat(stderr.as_str());
                    Err(CompilerError::Simple(text))
                } else if stdout.len() == 0 {
                    Ok(None)
                } else {
                    Ok(Some(stdout))
                }
            },
        }
    }
}

/// The step that offers an extension to the handlers from `from` on.
fn offer_to(handlers: &Vec<ExtensionHandler>, from: usize, node: &Node, extension_name: &str) -> (step:
    ExtensionStep)
    requires
        from <= handlers.len(),
    ensures
        step@ == offer_from(handlers@, from as int, request_text(yaml_text(node@), extension_name@)),
{
    let mut i: usize = from;
    while i < handlers.len()
        invariant
            from <= i <= handlers.len(),
            next_handler(handlers@, from as int) == next_handler(handlers@, i as int),
        decreases handlers.len() - i,
    {
        match handlers[i].handle(node, extension_name) {
            HandlerStep::Run { program, request } => {
                return ExtensionStep::Run { handler: i, program, request };
            },
            HandlerStep::Declined => {},
        }
        i += 1;
    }
    ExtensionStep::Done(Ok((false, None)))
}

/// The first step in offering an extension of a document to the handlers of
/// its context. Handlers are tried in their order; with none configured, or
/// none switched on, the offer is over and nothing was handled.
pub fn call_extension(context: &Context, node: &Node, extension_name: &str) -> (step: ExtensionStep)
    ensures
        step@ == offer(context, request_text(yaml_text(node@), extension_name@)),
{
    match &context.extension_handlers {
        Some(handlers) => offer_to(handlers, 0, node, extension_name),
        None => ExtensionStep::Done(Ok((false, None))),
    }
}

/// The step after the run of the handler at index `handler`. Its failure ends
/// the offer with that failure, its answer ends it with the answer, and when it
/// declined the handlers behind it are tried. Where the context has no handler
/// at that index, the offer is over and nothing was handled.
pub fn resume_extension(
    context: &Context,
    node: &Node,
    extension_name: &str,
    handler: usize,
    outcome: ProcessOutcome,
) -> (step: ExtensionStep)
    ensures
        step@ == resumed(context, handler as int, outcome@, request_text(yaml_text(node@), extension_name@)),
{
    match &context.extension_handlers {
        Some(handlers) => {
            if handler >= handlers.len() {
                return ExtensionStep::Done(Ok((false, None)));
            }
            match handlers[handler].finish(outcome) {
                Err(error) => ExtensionStep::Done(Err(error)),
                Ok(Some(answer)) => ExtensionStep::Done(Ok((true, Some(answer)))),
                Ok(None) => offer_to(handlers, handler + 1, node, extension_name),
            }
        },
        None => ExtensionStep::Done(Ok((false, None))),
    }
}

/// The handlers that apply at a context, if any are configured.
pub fn get_extension_handlers(context: &Context) -> (handlers: Option<Arc<Vec<ExtensionHandler>>>)
    ensures
        handlers == context.extension_handlers,
{
    match &context.extension_handlers {
        Some(h) => Some(share(h)),
        None => None,
    }
}

} // verus!
