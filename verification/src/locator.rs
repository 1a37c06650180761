use vstd::prelude::*;
use crate::text::{chars_of, cut, cut_text, first_of, last_index_of, last_of, lemma_first_of, text_of};
use url::Url;

verus! {

/// The scheme of the absolute URL that a text parses as, lower-cased; `None`
/// when the text does not parse as an absolute URL. Assumed, not proved: it
/// names what `url::Url::parse` and `Url::scheme` return.
pub uninterp spec fn url_scheme(text: Seq<char>) -> Option<Seq<char>>;

/// `url::Url::parse`, then `Url::scheme`: the scheme of the absolute URL, when
/// the text parses as one. Assumed, not proved.
#[verifier::external_body]
pub(crate) fn parse_url_scheme(text: &str) -> (scheme: Option<String>)
    ensures
        match scheme {
            Some(s) => url_scheme(text@) == Some(s@),
            None => url_scheme(text@) is None,
        },
{
    Url::parse(text).ok().map(|url| url.scheme().to_string())
}

/// Where the bytes of a locator come from.
#[derive(Debug, Clone, Copy, PartialEq, Eq, Structural)]
pub enum Source {
    /// A server, by HTTP or HTTPS.
    Remote,
    /// The file system.
    Local,
}

/// A locator is remote when it parses as an absolute URL whose scheme is `http`
/// or `https`, and local otherwise.
pub open spec fn source_of(locator: Seq<char>) -> Source {
    match url_scheme(locator) {
        Some(scheme) => if scheme == "http"@ || scheme == "https"@ {
            Source::Remote
        } else {
            Source::Local
        },
        None => Source::Local,
    }
}

/// The directory of a locator: the text before its last `/`, where it has one.
pub open spec fn directory(locator: Seq<char>) -> Option<Seq<char>> {
    let at = last_of(locator, '/');
    if 0 <= at < locator.len() {
        Some(locator.take(at))
    } else {
        None
    }
}

/// The locator of the document that a reference points into. A reference
/// without a file part points into the referring document. A file part that
/// parses as an absolute URL is the locator. Any other file part is taken
/// relative to the directory of the referring document.
pub open spec fn resolved_locator(basefile: Seq<char>, reference: Seq<char>) -> Seq<char> {
    let file_part = cut(reference, '#').0;
    if file_part.len() == 0 {
        basefile
    } else if url_scheme(file_part) is Some {
        file_part
    } else {
        match directory(basefile) {
            Some(dir) => dir + seq!['/'] + file_part,
            None => file_part,
        }
    }
}

/// The fragment of a reference: the text after its first `#`, empty where it
/// has none.
pub open spec fn fragment_of(reference: Seq<char>) -> Seq<char> {
    match cut(reference, '#').1 {
        Some(fragment) => fragment,
        None => Seq::<char>::empty(),
    }
}

/// A text with a `c` behind a piece that holds no `c` is cut behind that piece.
pub proof fn lemma_cut_at(head: Seq<char>, c: char, tail: Seq<char>)
    requires
        !head.contains(c),
    ensures
        cut(head + seq![c] + tail, c) == (head, Some(tail)),
{
    let s = head + seq![c] + tail;
    lemma_first_of(s, c, 0);
    let at = first_of(s, c, 0);
    assert(s[head.len() as int] == c);
    if at < head.len() {
        assert(s[at] == head[at]);
        assert(head.contains(c));
    }
    assert(at == head.len());
    assert(s.take(at) =~= head);
    assert(s.skip(at + 1) =~= tail);
}

/// A text with a `/` before a piece that holds no `/` has its last `/` there.
pub proof fn lemma_last_slash(dir: Seq<char>, name: Seq<char>)
    requires
        !name.contains('/'),
    ensures
        directory(dir + seq!['/'] + name) == Some(dir),
    decreases name.len(),
{
    let s = dir + seq!['/'] + name;
    if name.len() == 0 {
        assert(s.last() == '/');
        assert(s.take(s.len() - 1) =~= dir);
    } else {
        let shorter = name.drop_last();
        assert(!shorter.contains('/')) by {
            if shorter.contains('/') {
                let i = choose|i: int| 0 <= i < shorter.len() && shorter[i] == '/';
                assert(name[i] == '/');
            }
        }
        lemma_last_slash(dir, shorter);
        assert(s.drop_last() =~= dir + seq!['/'] + shorter);
        assert(s.last() == name.last());
        assert(name[name.len() - 1] == name.last());
        assert(s.take(dir.len() as int) =~= dir);
        assert((dir + seq!['/'] + shorter).take(dir.len() as int) =~= dir);
    }
}

/// A reference with a file part that is no URL points into the file of that
/// name beside the referring document, and its fragment is what follows the `#`.
pub proof fn lemma_relative_reference(dir: Seq<char>, name: Seq<char>, file_part: Seq<char>, fragment: Seq<char>)
    requires
        !name.contains('/'),
        !file_part.contains('#'),
        file_part.len() > 0,
        url_scheme(file_part) is None,
    ensures
        resolved_locator(dir + seq!['/'] + name, file_part + seq!['#'] + fragment) == dir + seq!['/'] + file_part,
        fragment_of(file_part + seq!['#'] + fragment) == fragment,
{
    lemma_cut_at(file_part, '#', fragment);
    lemma_last_slash(dir, name);
}

/// A reference without a file part points into the referring document itself.
pub proof fn lemma_same_document_reference(basefile: Seq<char>, fragment: Seq<char>)
    ensures
        resolved_locator(basefile, seq!['#'] + fragment) == basefile,
        fragment_of(seq!['#'] + fragment) == fragment,
{
    let empty = Seq::<char>::empty();
    lemma_cut_at(empty, '#', fragment);
    assert(empty + seq!['#'] + fragment =~= seq!['#'] + fragment);
}

/// Tells where the bytes of a locator come from.
pub fn locate(locator: &str) -> (source: Source)
    ensures
        source == source_of(locator@),
{
    match parse_url_scheme(locator) {
        Some(scheme) => {
            if crate::text::same_text(scheme.as_str(), "http") || crate::text::same_text(scheme.as_str(), "https") {
                Source::Remote
            } else {
                Source::Local
            }
        },
        None => Source::Local,
    }
}

/// The directory of a locator, where it has one.
pub fn directory_of(locator: &str) -> (dir: Option<String>)
    ensures
        match dir {
            Some(d) => directory(locator@) == Some(d@),
            None => directory(locator@) is None,
        },
{
    let chars = chars_of(locator);
    match last_index_of(&chars, '/') {
        Some(at) => {
            let dir = text_of(&chars, 0, at);
            assert(chars@.subrange(0, at as int) =~= locator@.take(at as int));
            Some(dir)
        },
        None => None,
    }
}

/// Splits a reference into the locator of the document that it points into and
/// its fragment.
pub fn resolve_reference(basefile: &str, reference: &str) -> (resolved: (String, String))
    ensures
        resolved.0@ == resolved_locator(basefile@, reference@),
        resolved.1@ == fragment_of(reference@),
{
    let (file_part, fragment) = cut_text(reference, '#');
    let fragment = match fragment {
        Some(f) => f,
        None => String::new(),
    };
    let locator = if file_part.as_str().unicode_len() == 0 {
        basefile.to_owned()
    } else if parse_url_scheme(file_part.as_str()).is_some() {
        file_part
    } else {
        match directory_of(basefile) {
            Some(dir) => {
                let mut joined = dir;
                joined.append("/");
                joined.append(file_part.as_str());
                proof {
                    reveal_strlit("/");
                    assert("/"@ =~= seq!['/']);
                }
                joined
            },
            None => file_part,
        }
    };
    (locator, fragment)
}

} // verus!
