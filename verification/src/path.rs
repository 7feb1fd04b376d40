//! Query paths: what a client can ask a node for, and how a path is
//! written on the wire.

use crate::storage::{is_key, key_of, offends_at, Key, KeyError};
use crate::text::{lowercase, str_eq, to_lowercase};
use vstd::prelude::*;
use vstd::string::*;

verus! {

/// What a client asks a node for.
#[derive(Clone, Debug)]
pub enum Path {
    /// Run a transaction without applying it.
    DryRunTx,
    /// The epoch of the last committed block.
    Epoch,
    /// The value stored under a key.
    Value(Key),
    /// The values stored under the keys that begin with a prefix.
    Prefix(Key),
    /// Whether a key is in the storage.
    HasKey(Key),
}

/// A `Path` as plain values: each key in its string form.
pub enum PathView {
    DryRunTx,
    Epoch,
    Value(Seq<char>),
    Prefix(Seq<char>),
    HasKey(Seq<char>),
}

/// Why a text is not a path.
#[derive(Clone, Debug)]
pub enum PathParseError {
    /// The text has not the shape of a path; it is carried as it was given.
    InvalidPath(String),
    /// The text has the shape of a path, and its key is no key.
    InvalidStorageKey(KeyError),
}

/// A `PathParseError` as plain values.
pub enum PathParseFailure {
    InvalidPath(Seq<char>),
    InvalidStorageKey(KeyError),
}

impl View for Path {
    type V = PathView;

    open spec fn view(&self) -> PathView {
        match self {
            Path::DryRunTx => PathView::DryRunTx,
            Path::Epoch => PathView::Epoch,
            Path::Value(key) => PathView::Value(key@),
            Path::Prefix(key) => PathView::Prefix(key@),
            Path::HasKey(key) => PathView::HasKey(key@),
        }
    }
}

impl View for PathParseError {
    type V = PathParseFailure;

    open spec fn view(&self) -> PathParseFailure {
        match self {
            PathParseError::InvalidPath(text) => PathParseFailure::InvalidPath(text@),
            PathParseError::InvalidStorageKey(e) => PathParseFailure::InvalidStorageKey(*e),
        }
    }
}

impl PathParseError {
    /// What the error says of itself.
    pub open spec fn message(self) -> Seq<char> {
        match self {
            PathParseError::InvalidPath(text) => "Unrecognized query path: "@ + text@,
            PathParseError::InvalidStorageKey(e) => "Invalid storage key: "@ + e.message(),
        }
    }

    /// What the error says of itself.
    pub fn to_string(&self) -> (text: String)
        ensures
            text@ == self.message(),
    {
        match self {
            PathParseError::InvalidPath(text) => "Unrecognized query path: ".to_owned().concat(
                text.as_str(),
            ),
            PathParseError::InvalidStorageKey(e) => "Invalid storage key: ".to_owned().concat(
                e.to_string().as_str(),
            ),
        }
    }
}

/// The outcome of reading a path, as plain values.
pub open spec fn outcome(r: Result<Path, PathParseError>) -> Result<PathView, PathParseFailure> {
    match r {
        Ok(path) => Ok(path@),
        Err(e) => Err(e@),
    }
}

impl PathView {
    /// Whether the key of the path, if it has one, is a key.
    pub open spec fn well_formed(self) -> bool {
        match self {
            PathView::DryRunTx => true,
            PathView::Epoch => true,
            PathView::Value(key) => is_key(key),
            PathView::Prefix(key) => is_key(key),
            PathView::HasKey(key) => is_key(key),
        }
    }

    /// The path as it is written on the wire: a fixed word, and for a path
    /// with a key a `/` and the key's string form after it.
    pub open spec fn encoding(self) -> Seq<char> {
        match self {
            PathView::DryRunTx => "dry_run_tx"@,
            PathView::Epoch => "epoch"@,
            PathView::Value(key) => "value"@ + seq!['/'] + key,
            PathView::Prefix(key) => "prefix"@ + seq!['/'] + key,
            PathView::HasKey(key) => "has_key"@ + seq!['/'] + key,
        }
    }
}

impl std::str::FromStr for Path {
    type Err = PathParseError;

    /// Reads a path from its text, as `Path::from_str` does.
    fn from_str(s: &str) -> (r: Result<Path, PathParseError>)
        ensures
            outcome(r) == parsed(s@),
    {
        Path::from_str(s)
    }
}

/// Whether the first `/` of `text` stands at position `i`.
pub open spec fn first_slash(text: Seq<char>, i: int) -> bool {
    &&& 0 <= i < text.len()
    &&& text[i] == '/'
    &&& forall|j: int| 0 <= j < i ==> text[j] != '/'
}

/// `text` cut in two at its first `/`, which belongs to neither part;
/// `None` where it holds no `/`.
pub open spec fn split_once(text: Seq<char>) -> Option<(Seq<char>, Seq<char>)> {
    if exists|i: int| first_slash(text, i) {
        let i = choose|i: int| first_slash(text, i);
        Some((text.subrange(0, i), text.subrange(i + 1, text.len() as int)))
    } else {
        None
    }
}

/// The path with the key `rest`, made by `wrap`, or the reason why `rest`
/// is no key.
pub open spec fn keyed(wrap: spec_fn(Seq<char>) -> PathView, rest: Seq<char>) -> Result<
    PathView,
    PathParseFailure,
> {
    match key_of(rest) {
        Ok(key) => Ok(wrap(key)),
        Err(e) => Err(PathParseFailure::InvalidStorageKey(e)),
    }
}

/// What a text denotes once it is folded to lowercase: `folded` decides,
/// and `given` is only carried in the error for a text without the shape
/// of a path. The text is cut once, at its first `/`: every later `/`
/// belongs to the key.
pub open spec fn decoded(given: Seq<char>, folded: Seq<char>) -> Result<
    PathView,
    PathParseFailure,
> {
    if folded == "dry_run_tx"@ {
        Ok(PathView::DryRunTx)
    } else if folded == "epoch"@ {
        Ok(PathView::Epoch)
    } else {
        match split_once(folded) {
            None => Err(PathParseFailure::InvalidPath(given)),
            Some((word, rest)) => if word == "value"@ {
                keyed(|key: Seq<char>| PathView::Value(key), rest)
            } else if word == "prefix"@ {
                keyed(|key: Seq<char>| PathView::Prefix(key), rest)
            } else if word == "has_key"@ {
                keyed(|key: Seq<char>| PathView::HasKey(key), rest)
            } else {
                Err(PathParseFailure::InvalidPath(given))
            },
        }
    }
}

/// What a text denotes as a path: it is folded to lowercase as a whole,
/// key included, and then read.
pub open spec fn parsed(text: Seq<char>) -> Result<PathView, PathParseFailure> {
    decoded(text, lowercase(text))
}

/// A text whose first `/` stands at `i` is cut there.
pub proof fn lemma_split_once_at(text: Seq<char>, i: int)
    requires
        first_slash(text, i),
    ensures
        split_once(text) == Some((text.subrange(0, i), text.subrange(i + 1, text.len() as int))),
{
    let chosen = choose|k: int| first_slash(text, k);
    if chosen < i {
        assert(text[chosen] != '/');
    } else if i < chosen {
        assert(text[i] != '/');
    }
}

/// The wire form of a well-formed path is read back as that path, whatever
/// text is carried along for the error.
pub proof fn lemma_encoding_is_decoded(path: PathView, given: Seq<char>)
    requires
        path.well_formed(),
    ensures
        decoded(given, path.encoding()) == Ok::<PathView, PathParseFailure>(path),
{
    reveal_strlit("dry_run_tx");
    reveal_strlit("epoch");
    reveal_strlit("value");
    reveal_strlit("prefix");
    reveal_strlit("has_key");
    let text = path.encoding();
    match path {
        PathView::DryRunTx => {},
        PathView::Epoch => {
            assert("epoch"@.len() != "dry_run_tx"@.len());
        },
        PathView::Value(key) => {
            assert(!offends_at(key, key.len() as int));
            assert(text[5] == '/');
            assert(first_slash(text, 5));
            lemma_split_once_at(text, 5);
            assert(text.subrange(0, 5) =~= "value"@);
            assert(text.subrange(6, text.len() as int) =~= key);
        },
        PathView::Prefix(key) => {
            assert(!offends_at(key, key.len() as int));
            assert(text[6] == '/');
            assert(first_slash(text, 6));
            lemma_split_once_at(text, 6);
            assert(text.subrange(0, 6) =~= "prefix"@);
            assert(text.subrange(7, text.len() as int) =~= key);
            assert("prefix"@.len() != "value"@.len());
        },
        PathView::HasKey(key) => {
            assert(!offends_at(key, key.len() as int));
            assert(text[7] == '/');
            assert(first_slash(text, 7));
            lemma_split_once_at(text, 7);
            assert(text.subrange(0, 7) =~= "has_key"@);
            assert(text.subrange(8, text.len() as int) =~= key);
            assert("has_key"@.len() != "value"@.len());
            assert("has_key"@.len() != "prefix"@.len());
        },
    }
}

/// Round trip: a well-formed path is read back from its own wire form,
/// provided that folding to lowercase leaves that form as it is. A key with
/// an uppercase letter is folded on the way and comes back changed.
pub proof fn lemma_path_is_read_back(path: PathView)
    requires
        path.well_formed(),
        lowercase(path.encoding()) == path.encoding(),
    ensures
        parsed(path.encoding()) == Ok::<PathView, PathParseFailure>(path),
{
    lemma_encoding_is_decoded(path, path.encoding());
}

/// Case is ignored: two texts that fold to the same lowercase text denote
/// the same path, or fail alike. Only the error for a text without the
/// shape of a path tells them apart, since it carries the text as given.
pub proof fn lemma_case_is_ignored(a: Seq<char>, b: Seq<char>)
    requires
        lowercase(a) == lowercase(b),
    ensures
        parsed(a) is Ok ==> parsed(b) == parsed(a),
        parsed(a) matches Err(PathParseFailure::InvalidStorageKey(e)) ==> parsed(b) == parsed(a),
        parsed(a) matches Err(PathParseFailure::InvalidPath(text)) ==> text == a && parsed(b)
            == Err::<PathView, PathParseFailure>(PathParseFailure::InvalidPath(b)),
{
}

/// Cuts `text` in two at its first `/`.
pub fn split_at_first_slash(text: &str) -> (r: Option<(String, String)>)
    ensures
        match split_once(text@) {
            None => r is None,
            Some((word, rest)) => r matches Some((w, t)) && w@ == word && t@ == rest,
        },
{
    let n = text.unicode_len();
    let mut i: usize = 0;
    while i < n
        invariant
            n == text@.len(),
            i <= n,
            forall|j: int| 0 <= j < i ==> text@[j] != '/',
        decreases n - i,
    {
        if text.get_char(i) == '/' {
            proof {
                lemma_split_once_at(text@, i as int);
            }
            let word = text.substring_char(0, i).to_owned();
            let rest = text.substring_char(i + 1, n).to_owned();
            return Some((word, rest));
        }
        i += 1;
    }
    assert(forall|k: int| !first_slash(text@, k));
    None
}

impl Path {
    /// Writes the path as it goes over the wire.
    pub fn to_string(&self) -> (text: String)
        ensures
            text@ == self@.encoding(),
            self@.well_formed(),
    {
        proof {
            reveal_strlit("/");
            assert("/"@ =~= seq!['/']);
        }
        match self {
            Path::DryRunTx => "dry_run_tx".to_owned(),
            Path::Epoch => "epoch".to_owned(),
            Path::Value(key) => "value".to_owned().concat("/").concat(key.as_str()),
            Path::Prefix(key) => "prefix".to_owned().concat("/").concat(key.as_str()),
            Path::HasKey(key) => "has_key".to_owned().concat("/").concat(key.as_str()),
        }
    }

    /// Reads a path from a text that is already folded to lowercase.
    /// `given` is the text as it was given: it is carried in the error
    /// for a text without the shape of a path.
    pub fn parse_folded(given: &str, folded: &str) -> (r: Result<Path, PathParseError>)
        ensures
            outcome(r) == decoded(given@, folded@),
    {
        if str_eq(folded, "dry_run_tx") {
            return Ok(Path::DryRunTx);
        }
        if str_eq(folded, "epoch") {
            return Ok(Path::Epoch);
        }
        match split_at_first_slash(folded) {
            None => Err(PathParseError::InvalidPath(given.to_owned())),
            Some((word, rest)) => {
                if str_eq(word.as_str(), "value") {
                    match Key::parse(rest.as_str()) {
                        Ok(key) => Ok(Path::Value(key)),
                        Err(e) => Err(PathParseError::InvalidStorageKey(e)),
                    }
                } else if str_eq(word.as_str(), "prefix") {
                    match Key::parse(rest.as_str()) {
                        Ok(key) => Ok(Path::Prefix(key)),
                        Err(e) => Err(PathParseError::InvalidStorageKey(e)),
                    }
                } else if str_eq(word.as_str(), "has_key") {
                    match Key::parse(rest.as_str()) {
                        Ok(key) => Ok(Path::HasKey(key)),
                        Err(e) => Err(PathParseError::InvalidStorageKey(e)),
                    }
                } else {
                    Err(PathParseError::InvalidPath(given.to_owned()))
                }
            },
        }
    }

    /// Reads a path from its text, in any mix of upper and lower case.
    pub fn from_str(s: &str) -> (r: Result<Path, PathParseError>)
        ensures
            outcome(r) == parsed(s@),
    {
        let folded = to_lowercase(s);
        Path::parse_folded(s, folded.as_str())
    }
}

} // verus!
