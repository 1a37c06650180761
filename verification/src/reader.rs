use vstd::prelude::*;
use vstd::utf8::{decode_utf8, valid_utf8};
use crate::error::{CompilerError, Failure};
use crate::locator::{fragment_of, locate, resolve_reference, resolved_locator, source_of, Source};
use crate::node::{trees, Node, Tree};
use crate::store::Store;
use crate::text::{cut_text, decode_text, split, split_text, texts, utf8_error_text};
use crate::yaml::{load_documents, node_from_yaml, trees_of, yaml_documents};

verus! {

/// The mathematical model of a `Reader`.
pub struct ReaderState {
    /// The bytes that were fetched, by locator.
    pub files: Map<Seq<char>, Seq<u8>>,
    /// The documents and fragments that were parsed, by locator or reference;
    /// `None` under a reference that could not be resolved.
    pub infos: Map<Seq<char>, Option<Tree>>,
    /// Whether fetched bytes are looked up and kept.
    pub file_cache_enabled: bool,
    /// Whether parsed documents are looked up and kept.
    pub info_cache_enabled: bool,
    /// Whether the reader's steps are to be logged.
    pub verbose: bool,
}

/// The caches of fetched bytes and of parsed documents, with their switches.
pub struct Reader {
    file_cache: Store<Vec<u8>>,
    info_cache: Store<Option<Node>>,
    file_cache_enabled: bool,
    info_cache_enabled: bool,
    verbose: bool,
}

/// The tree of a cached document; `None` for a reference that could not be resolved.
pub open spec fn entry_tree(entry: Option<Node>) -> Option<Tree> {
    match entry {
        Some(node) => Some(node@),
        None => None,
    }
}

/// The model of a result of the reader.
pub open spec fn outcome<T: View>(result: Result<T, CompilerError>) -> Result<T::V, Failure> {
    match result {
        Ok(value) => Ok(value@),
        Err(error) => Err(error@),
    }
}

/// The document that a text stands for: the first of its documents, the null
/// node where it has none.
pub open spec fn first_document(docs: Seq<Tree>) -> Tree {
    if docs.len() == 0 {
        Tree::Null
    } else {
        docs[0]
    }
}

/// What parsing makes of bytes: the document, or the failure to decode or to
/// parse them.
pub open spec fn parse_outcome(bytes: Seq<u8>) -> Result<Tree, Failure> {
    if !valid_utf8(bytes) {
        Err(Failure::Yaml("Invalid UTF-8: "@ + utf8_error_text(bytes)))
    } else {
        match yaml_documents(decode_utf8(bytes)) {
            Ok(docs) => Ok(first_document(docs)),
            Err(message) => Err(Failure::Yaml(message)),
        }
    }
}

/// The parsed document that the cache answers with for a locator: none when the
/// cache is switched off, for the empty locator, or when the cache holds no
/// document under the locator.
pub open spec fn cached_info(state: ReaderState, locator: Seq<char>) -> Option<Tree> {
    if state.info_cache_enabled && locator.len() > 0 && state.infos.dom().contains(locator) {
        state.infos[locator]
    } else {
        None
    }
}

/// What `read_info_from_bytes` returns.
pub open spec fn read_info_result(state: ReaderState, locator: Seq<char>, bytes: Seq<u8>) -> Result<Tree, Failure> {
    match cached_info(state, locator) {
        Some(tree) => Ok(tree),
        None => parse_outcome(bytes),
    }
}

/// The state in which `read_info_from_bytes` leaves the reader.
pub open spec fn read_info_state(state: ReaderState, locator: Seq<char>, bytes: Seq<u8>) -> ReaderState {
    match (cached_info(state, locator), parse_outcome(bytes)) {
        (None, Ok(tree)) => if state.info_cache_enabled && locator.len() > 0 {
            ReaderState { infos: state.infos.insert(locator, Some(tree)), ..state }
        } else {
            state
        },
        _ => state,
    }
}

/// The node that a path of keys leads to from `tree`. The segments from `from`
/// on are taken in turn; an empty segment is passed over, any other must be a key of the
/// mapping reached so far.
pub open spec fn descend(tree: Tree, segments: Seq<Seq<char>>, from: int) -> Option<Tree>
    decreases segments.len() - from,
{
    if from >= segments.len() {
        Some(tree)
    } else if segments[from].len() == 0 {
        descend(tree, segments, from + 1)
    } else {
        match tree.value_for(segments[from]) {
            Some(value) => descend(value, segments, from + 1),
            None => None,
        }
    }
}

/// The node that a fragment points at in a document: the fragment is split at
/// each `/`, and the segments after the first are the path.
pub open spec fn fragment_target(tree: Tree, fragment: Seq<char>) -> Option<Tree> {
    descend(tree, split(fragment, '/'), 1)
}

/// The message for a reference that leads nowhere.
pub open spec fn unresolved(reference: Seq<char>) -> Failure {
    Failure::Simple("could not resolve "@ + reference)
}

/// One step in resolving a reference, as a model.
pub enum RefPlan {
    /// The reference is answered from the cache.
    Done(Result<Tree, Failure>),
    /// The document under this locator has to be loaded.
    Load(Seq<char>),
}

/// The first step for a reference: the answer of the cache where it has one
/// under the reference, and otherwise the locator to load.
pub open spec fn ref_plan(state: ReaderState, basefile: Seq<char>, reference: Seq<char>) -> RefPlan {
    if state.info_cache_enabled && state.infos.dom().contains(reference) {
        match state.infos[reference] {
            Some(tree) => RefPlan::Done(Ok(tree)),
            None => RefPlan::Done(Err(unresolved(reference))),
        }
    } else {
        RefPlan::Load(resolved_locator(basefile, reference))
    }
}

/// What `complete_ref` returns.
pub open spec fn complete_ref_result(
    state: ReaderState,
    reference: Seq<char>,
    locator: Seq<char>,
    bytes: Seq<u8>,
) -> Result<Tree, Failure> {
    match read_info_result(state, locator, bytes) {
        Ok(document) => match fragment_target(document, fragment_of(reference)) {
            Some(target) => Ok(target),
            None => Err(unresolved(reference)),
        },
        Err(failure) => Err(failure),
    }
}

/// The state in which `complete_ref` leaves the reader.
pub open spec fn complete_ref_state(
    state: ReaderState,
    reference: Seq<char>,
    locator: Seq<char>,
    bytes: Seq<u8>,
) -> ReaderState {
    let loaded = read_info_state(state, locator, bytes);
    match read_info_result(state, locator, bytes) {
        Ok(document) => if loaded.info_cache_enabled {
            ReaderState {
                infos: loaded.infos.insert(reference, fragment_target(document, fragment_of(reference))),
                ..loaded
            }
        } else {
            loaded
        },
        Err(_) => loaded,
    }
}

/// With the cache switched on, a document that was read under a locator is
/// what every later read under that locator returns, whatever the bytes, and
/// the later read changes nothing.
pub proof fn lemma_cache_round_trip(state: ReaderState, locator: Seq<char>, first: Seq<u8>, second: Seq<u8>)
    requires
        state.info_cache_enabled,
        locator.len() > 0,
        read_info_result(state, locator, first) is Ok,
    ensures
        read_info_result(read_info_state(state, locator, first), locator, second) == read_info_result(
            state,
            locator,
            first,
        ),
        read_info_state(read_info_state(state, locator, first), locator, second) == read_info_state(
            state,
            locator,
            first,
        ),
{
}

/// With the cache switched on, a reference that led nowhere in its document is
/// remembered: the next first step for it is the same failure, and nothing is
/// to be loaded.
pub proof fn lemma_unresolved_is_remembered(
    state: ReaderState,
    basefile: Seq<char>,
    reference: Seq<char>,
    locator: Seq<char>,
    bytes: Seq<u8>,
)
    requires
        state.info_cache_enabled,
        read_info_result(state, locator, bytes) is Ok,
        complete_ref_result(state, reference, locator, bytes) is Err,
    ensures
        complete_ref_result(state, reference, locator, bytes) == Err::<Tree, Failure>(unresolved(reference)),
        ref_plan(complete_ref_state(state, reference, locator, bytes), basefile, reference) == RefPlan::Done(
            Err(unresolved(reference)),
        ),
{
}

/// With the cache switched on, a reference that was resolved is remembered: the
/// next first step for it is the same node, and nothing is to be loaded.
pub proof fn lemma_resolved_is_remembered(
    state: ReaderState,
    basefile: Seq<char>,
    reference: Seq<char>,
    locator: Seq<char>,
    bytes: Seq<u8>,
)
    requires
        state.info_cache_enabled,
        complete_ref_result(state, reference, locator, bytes) is Ok,
    ensures
        ref_plan(complete_ref_state(state, reference, locator, bytes), basefile, reference) == RefPlan::Done(
            complete_ref_result(state, reference, locator, bytes),
        ),
{
}

/// One step in getting the bytes of a locator, as a model.
pub enum ReadPlan {
    /// The cache holds the bytes.
    Done(Seq<u8>),
    /// The bytes are to be fetched from this URL.
    Fetch(Seq<char>),
    /// The bytes are to be read from this file.
    ReadFile(Seq<char>),
}

/// The first step in fetching a URL: the bytes from the cache where it is
/// switched on and holds them, and the order to fetch otherwise.
pub open spec fn fetch_plan(state: ReaderState, url: Seq<char>) -> ReadPlan {
    if state.file_cache_enabled && state.files.dom().contains(url) {
        ReadPlan::Done(state.files[url])
    } else {
        ReadPlan::Fetch(url)
    }
}

/// The first step in getting the bytes of a locator: a remote locator is
/// fetched, any other is read as a file.
pub open spec fn read_plan(state: ReaderState, locator: Seq<char>) -> ReadPlan {
    match source_of(locator) {
        Source::Remote => fetch_plan(state, locator),
        Source::Local => ReadPlan::ReadFile(locator),
    }
}

/// The state after a fetch: bytes that arrived are kept under the URL where the
/// cache is switched on.
pub open spec fn fetched_state(state: ReaderState, url: Seq<char>, fetched: Result<Seq<u8>, Failure>) -> ReaderState {
    match fetched {
        Ok(bytes) => if state.file_cache_enabled {
            ReaderState { files: state.files.insert(url, bytes), ..state }
        } else {
            state
        },
        Err(_) => state,
    }
}

/// With the cache switched on, bytes that were fetched are what every later
/// fetch of the same URL is answered with, and nothing is fetched again.
pub proof fn lemma_fetch_round_trip(state: ReaderState, url: Seq<char>, bytes: Seq<u8>)
    requires
        state.file_cache_enabled,
    ensures
        fetch_plan(fetched_state(state, url, Ok(bytes)), url) == ReadPlan::Done(bytes),
{
}

/// One step in getting the bytes of a locator.
#[derive(Debug)]
pub enum ReadStep {
    /// The bytes are at hand.
    Done(Vec<u8>),
    /// The bytes are to be fetched from this URL.
    Fetch(String),
    /// The bytes are to be read from this file.
    ReadFile(String),
}

impl View for ReadStep {
    type V = ReadPlan;

    open spec fn view(&self) -> ReadPlan {
        match self {
            ReadStep::Done(bytes) => ReadPlan::Done(bytes@),
            ReadStep::Fetch(url) => ReadPlan::Fetch(url@),
            ReadStep::ReadFile(path) => ReadPlan::ReadFile(path@),
        }
    }
}

/// One step in resolving a reference.
#[derive(Debug)]
pub enum RefStep {
    /// The reference is answered.
    Done(Result<Node, CompilerError>),
    /// The document under this locator is to be loaded.
    Load(String),
}

impl View for RefStep {
    type V = RefPlan;

    open spec fn view(&self) -> RefPlan {
        match self {
            RefStep::Done(result) => RefPlan::Done(outcome(*result)),
            RefStep::Load(locator) => RefPlan::Load(locator@),
        }
    }
}

impl View for Reader {
    type V = ReaderState;

    closed spec fn view(&self) -> ReaderState {
        ReaderState {
            files: Map::new(
                |k: Seq<char>| self.file_cache.model().dom().contains(k),
                |k: Seq<char>| self.file_cache.model()[k]@,
            ),
            infos: Map::new(
                |k: Seq<char>| self.info_cache.model().dom().contains(k),
                |k: Seq<char>| entry_tree(self.info_cache.model()[k]),
            ),
            file_cache_enabled: self.file_cache_enabled,
            info_cache_enabled: self.info_cache_enabled,
            verbose: self.verbose,
        }
    }
}

impl Reader {
    /// Makes a reader with empty caches, both switched on, that is not verbose.
    pub fn new() -> (reader: Reader)
        ensures
            reader@ == (ReaderState {
                files: Map::empty(),
                infos: Map::empty(),
                file_cache_enabled: true,
                info_cache_enabled: true,
                verbose: false,
            }),
    {
        let reader = Reader {
            file_cache: Store::new(),
            info_cache: Store::new(),
            file_cache_enabled: true,
            info_cache_enabled: true,
            verbose: false,
        };
        assert(reader@.files =~= Map::empty());
        assert(reader@.infos =~= Map::empty());
        reader
    }

    /// Whether fetched bytes are looked up and kept.
    pub fn file_cache_enabled(&self) -> (enabled: bool)
        ensures
            enabled == self@.file_cache_enabled,
    {
        self.file_cache_enabled
    }

    /// Whether parsed documents are looked up and kept.
    pub fn info_cache_enabled(&self) -> (enabled: bool)
        ensures
            enabled == self@.info_cache_enabled,
    {
        self.info_cache_enabled
    }

    /// Whether the reader's steps are to be logged.
    pub fn verbose(&self) -> (verbose: bool)
        ensures
            verbose == self@.verbose,
    {
        self.verbose
    }

    /// The bytes that the cache holds under a locator, whether or not the cache
    /// is switched on.
    pub fn file_cache_entry(&self, fileurl: &str) -> (bytes: Option<&Vec<u8>>)
        ensures
            match bytes {
                Some(b) => self@.files.dom().contains(fileurl@) && self@.files[fileurl@] == b@,
                None => !self@.files.dom().contains(fileurl@),
            },
    {
        self.file_cache.get(fileurl)
    }

    /// What the cache holds under a locator or reference, whether or not the
    /// cache is switched on.
    pub fn info_cache_entry(&self, locator: &str) -> (entry: Option<&Option<Node>>)
        ensures
            match entry {
                Some(e) => self@.infos.dom().contains(locator@) && self@.infos[locator@] == entry_tree(*e),
                None => !self@.infos.dom().contains(locator@),
            },
    {
        self.info_cache.get(locator)
    }

    fn keep_info(&mut self, locator: &str, entry: Option<Node>)
        ensures
            final(self)@ == (ReaderState { infos: old(self)@.infos.insert(locator@, entry_tree(entry)), ..old(self)@ }),
    {
        self.info_cache.insert(locator, entry);
        assert(self@.infos =~= old(self)@.infos.insert(locator@, entry_tree(entry)));
        assert(self@.files =~= old(self)@.files);
    }
}

/// Switches the cache of fetched bytes on.
pub fn enable_file_cache(reader: &mut Reader)
    ensures
        final(reader)@ == (ReaderState { file_cache_enabled: true, ..old(reader)@ }),
{
    reader.file_cache_enabled = true;
    assert(reader@.files =~= old(reader)@.files);
    assert(reader@.infos =~= old(reader)@.infos);
}

/// Switches the cache of fetched bytes off.
pub fn disable_file_cache(reader: &mut Reader)
    ensures
        final(reader)@ == (ReaderState { file_cache_enabled: false, ..old(reader)@ }),
{
    reader.file_cache_enabled = false;
    assert(reader@.files =~= old(reader)@.files);
    assert(reader@.infos =~= old(reader)@.infos);
}

/// Switches the cache of parsed documents on.
pub fn enable_info_cache(reader: &mut Reader)
    ensures
        final(reader)@ == (ReaderState { info_cache_enabled: true, ..old(reader)@ }),
{
    reader.info_cache_enabled = true;
    assert(reader@.files =~= old(reader)@.files);
    assert(reader@.infos =~= old(reader)@.infos);
}

/// Switches the cache of parsed documents off.
pub fn disable_info_cache(reader: &mut Reader)
    ensures
        final(reader)@ == (ReaderState { info_cache_enabled: false, ..old(reader)@ }),
{
    reader.info_cache_enabled = false;
    assert(reader@.files =~= old(reader)@.files);
    assert(reader@.infos =~= old(reader)@.infos);
}

/// Says whether the reader's steps are to be logged.
pub fn set_verbose_reader(reader: &mut Reader, verbose: bool)
    ensures
        final(reader)@ == (ReaderState { verbose, ..old(reader)@ }),
{
    reader.verbose = verbose;
    assert(reader@.files =~= old(reader)@.files);
    assert(reader@.infos =~= old(reader)@.infos);
}

/// Takes a locator out of the cache of fetched bytes, when that cache is
/// switched on.
pub fn remove_from_file_cache(reader: &mut Reader, fileurl: &str)
    ensures
        final(reader)@ == (if old(reader)@.file_cache_enabled {
            ReaderState { files: old(reader)@.files.remove(fileurl@), ..old(reader)@ }
        } else {
            old(reader)@
        }),
{
    if reader.file_cache_enabled {
        reader.file_cache.remove(fileurl);
        assert(reader@.files =~= old(reader)@.files.remove(fileurl@));
        assert(reader@.infos =~= old(reader)@.infos);
    }
}

/// Takes a locator out of the cache of parsed documents, when that cache is
/// switched on.
pub fn remove_from_info_cache(reader: &mut Reader, filename: &str)
    ensures
        final(reader)@ == (if old(reader)@.info_cache_enabled {
            ReaderState { infos: old(reader)@.infos.remove(filename@), ..old(reader)@ }
        } else {
            old(reader)@
        }),
{
    if reader.info_cache_enabled {
        reader.info_cache.remove(filename);
        assert(reader@.infos =~= old(reader)@.infos.remove(filename@));
        assert(reader@.files =~= old(reader)@.files);
    }
}

/// Empties the cache of fetched bytes.
pub fn clear_file_cache(reader: &mut Reader)
    ensures
        final(reader)@ == (ReaderState { files: Map::empty(), ..old(reader)@ }),
{
    reader.file_cache.clear();
    assert(reader@.files =~= Map::empty());
    assert(reader@.infos =~= old(reader)@.infos);
}

/// Empties the cache of parsed documents.
pub fn clear_info_cache(reader: &mut Reader)
    ensures
        final(reader)@ == (ReaderState { infos: Map::empty(), ..old(reader)@ }),
{
    reader.info_cache.clear();
    assert(reader@.infos =~= Map::empty());
    assert(reader@.files =~= old(reader)@.files);
}

/// Empties both caches.
pub fn clear_caches(reader: &mut Reader)
    ensures
        final(reader)@ == (ReaderState { files: Map::empty(), infos: Map::empty(), ..old(reader)@ }),
{
    clear_file_cache(reader);
    clear_info_cache(reader);
}

/// The first step in fetching a URL: the bytes from the cache where it is
/// switched on and holds them, and the order to fetch otherwise.
pub fn fetch_file(reader: &Reader, fileurl: &str) -> (step: ReadStep)
    ensures
        step@ == fetch_plan(reader@, fileurl@),
{
    if reader.file_cache_enabled {
        match reader.file_cache.get(fileurl) {
            Some(bytes) => {
                return ReadStep::Done(bytes.clone());
            },
            None => {},
        }
    }
    ReadStep::Fetch(fileurl.to_owned())
}

/// The last step in fetching a URL: bytes that arrived are kept in the cache
/// where it is switched on, and the outcome is handed on.
pub fn finish_fetch(reader: &mut Reader, fileurl: &str, fetched: Result<Vec<u8>, CompilerError>) -> (result: Result<
    Vec<u8>,
    CompilerError,
>)
    ensures
        result == fetched,
        final(reader)@ == fetched_state(old(reader)@, fileurl@, outcome(fetched)),
{
    match fetched {
        Ok(bytes) => {
            if reader.file_cache_enabled {
                reader.file_cache.insert(fileurl, bytes.clone());
                assert(reader@.files =~= old(reader)@.files.insert(fileurl@, bytes@));
                assert(reader@.infos =~= old(reader)@.infos);
            }
            Ok(bytes)
        },
        Err(error) => Err(error),
    }
}

/// The first step in getting the bytes of a locator: a remote locator is
/// fetched, unless the cache answers; any other is read as a file.
pub fn read_bytes_for_file(reader: &Reader, filename: &str) -> (step: ReadStep)
    ensures
        step@ == read_plan(reader@, filename@),
{
    match locate(filename) {
        Source::Remote => fetch_file(reader, filename),
        Source::Local => ReadStep::ReadFile(filename.to_owned()),
    }
}

/// The document among those of a text: the first, or the null node where there
/// is none.
pub fn first_node(docs: Vec<Node>) -> (node: Node)
    ensures
        node@ == first_document(trees(docs@)),
{
    let mut docs = docs;
    if docs.len() == 0 {
        Node::Null
    } else {
        docs.swap_remove(0)
    }
}

/// Parses bytes as a document.
pub fn parse_bytes(bytes: &[u8]) -> (result: Result<Node, CompilerError>)
    ensures
        outcome(result) == parse_outcome(bytes@),
{
    let content = match decode_text(bytes) {
        Ok(content) => content,
        Err(message) => {
            let text = String::from_str("Invalid UTF-8: ").concat(message.as_str());
            return Err(CompilerError::Yaml(text));
        },
    };
    match load_documents(content) {
        Ok(docs) => {
            let mut nodes: Vec<Node> = Vec::new();
            let mut i: usize = 0;
            while i < docs.len()
                invariant
                    i <= docs.len(),
                    nodes.len() == i,
                    trees(nodes@) == trees_of(docs@).take(i as int),
                decreases docs.len() - i,
            {
                let ghost before = nodes@;
                nodes.push(node_from_yaml(&docs[i]));
                proof {
                    let so_far = trees_of(docs@).take(i + 1);
                    assert forall|k: int| 0 <= k < nodes@.len() implies trees(nodes@)[k] == so_far[k] by {
                        if k < i {
                            assert(trees(before)[k] == trees_of(docs@).take(i as int)[k]);
                        }
                    }
                    assert(trees(nodes@) =~= so_far);
                }
                i += 1;
            }
            assert(trees_of(docs@).take(i as int) =~= trees_of(docs@));
            Ok(first_node(nodes))
        },
        Err(message) => Err(CompilerError::Yaml(message)),
    }
}

/// Parses bytes as a document, or answers from the cache: with the cache
/// switched on and a locator that is not empty, a document kept under the
/// locator is returned without a look at the bytes, and a document that had to
/// be parsed is kept.
pub fn read_info_from_bytes(reader: &mut Reader, filename: &str, bytes: &[u8]) -> (result: Result<Node, CompilerError>)
    ensures
        outcome(result) == read_info_result(old(reader)@, filename@, bytes@),
        final(reader)@ == read_info_state(old(reader)@, filename@, bytes@),
{
    let caching = reader.info_cache_enabled && filename.unicode_len() > 0;
    if caching {
        match reader.info_cache.get(filename) {
            Some(Some(info)) => {
                return Ok(info.clone());
            },
            _ => {},
        }
    }
    let node = match parse_bytes(bytes) {
        Ok(node) => node,
        Err(error) => {
            return Err(error);
        },
    };
    if caching {
        reader.keep_info(filename, Some(node.clone()));
    }
    Ok(node)
}

/// Follows the keys in `segments` from `from` on, down from `root`.
fn follow(root: &Node, segments: &Vec<String>, from: usize) -> (target: Option<Node>)
    requires
        from <= segments.len(),
    ensures
        entry_tree(target) == descend(root@, texts(segments@), from as int),
{
    let mut current: &Node = root;
    let mut i: usize = from;
    while i < segments.len()
        invariant
            from <= i <= segments.len(),
            descend(root@, texts(segments@), from as int) == descend(current@, texts(segments@), i as int),
        decreases segments.len() - i,
    {
        if segments[i].as_str().unicode_len() > 0 {
            match crate::helpers::map_value_for_key(current, segments[i].as_str()) {
                Some(value) => {
                    current = value;
                },
                None => {
                    return None;
                },
            }
        }
        i += 1;
    }
    Some(current.clone())
}

/// The node that a fragment points at in a document, where its path leads to one.
pub fn resolve_fragment(document: &Node, fragment: &str) -> (target: Option<Node>)
    ensures
        entry_tree(target) == fragment_target(document@, fragment@),
{
    let segments = split_text(fragment, '/');
    proof {
        crate::text::lemma_split_nonempty(fragment@, '/');
    }
    follow(document, &segments, 1)
}

/// The error for a reference that leads nowhere.
pub fn could_not_resolve(reference: &str) -> (error: CompilerError)
    ensures
        error@ == unresolved(reference@),
{
    CompilerError::Simple(String::from_str("could not resolve ").concat(reference))
}

/// The first step in resolving a reference. With the cache switched on, what it
/// holds under the reference is the answer: the fragment, or the failure of a
/// reference that could not be resolved. Otherwise the document that the
/// reference points into is to be loaded.
pub fn read_info_for_ref(reader: &Reader, basefile: &str, reference: &str) -> (step: RefStep)
    ensures
        step@ == ref_plan(reader@, basefile@, reference@),
{
    if reader.info_cache_enabled {
        match reader.info_cache.get(reference) {
            Some(Some(info)) => {
                return RefStep::Done(Ok(info.clone()));
            },
            Some(None) => {
                return RefStep::Done(Err(could_not_resolve(reference)));
            },
            None => {},
        }
    }
    let (locator, _) = resolve_reference(basefile, reference);
    RefStep::Load(locator)
}

/// The last step in resolving a reference, once the bytes under the locator
/// are there: the document is parsed, or taken from the cache, and the fragment
/// is looked up in it. With the cache switched on, the outcome is kept under
/// the reference: the fragment, or the mark of a reference that leads nowhere.
pub fn complete_ref(reader: &mut Reader, reference: &str, locator: &str, bytes: &[u8]) -> (result: Result<
    Node,
    CompilerError,
>)
    ensures
        outcome(result) == complete_ref_result(old(reader)@, reference@, locator@, bytes@),
        final(reader)@ == complete_ref_state(old(reader)@, reference@, locator@, bytes@),
{
    let document = match read_info_from_bytes(reader, locator, bytes) {
        Ok(document) => document,
        Err(error) => {
            return Err(error);
        },
    };
    let fragment = match cut_text(reference, '#').1 {
        Some(fragment) => fragment,
        None => String::new(),
    };
    let target = resolve_fragment(&document, fragment.as_str());
    match target {
        Some(node) => {
            if reader.info_cache_enabled {
                reader.keep_info(reference, Some(node.clone()));
            }
            Ok(node)
        },
        None => {
            if reader.info_cache_enabled {
                reader.keep_info(reference, None);
            }
            Err(could_not_resolve(reference))
        },
    }
}

} // verus!
