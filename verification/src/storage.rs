//! Block heights and storage keys.

use crate::text::{decimal_digits, decimal_string};
use vstd::prelude::*;
use vstd::string::*;

verus! {

/// The height of a block in the chain.
#[derive(Clone, Copy, Debug, PartialEq, Eq, Structural)]
pub struct BlockHeight(pub u64);

/// Why a text is not a storage key, and where: the position counts
/// characters from zero.
#[derive(Clone, Copy, Debug, PartialEq, Eq, Structural)]
pub enum KeyError {
    /// A segment is empty: it would end at this position.
    EmptySegment(usize),
    /// The character at this position cannot stand in a key.
    InvalidCharacter(usize),
}

impl BlockHeight {
    /// Writes the height as a decimal numeral.
    pub fn to_string(&self) -> (text: String)
        ensures
            text@ == decimal_digits(self.0 as nat),
    {
        decimal_string(self.0)
    }
}

impl KeyError {
    /// What the error says of itself.
    pub open spec fn message(self) -> Seq<char> {
        match self {
            KeyError::EmptySegment(at) => "empty segment at position "@ + decimal_digits(
                at as nat,
            ),
            KeyError::InvalidCharacter(at) => "invalid character at position "@ + decimal_digits(
                at as nat,
            ),
        }
    }

    /// What the error says of itself.
    pub fn to_string(&self) -> (text: String)
        ensures
            text@ == self.message(),
    {
        match self {
            KeyError::EmptySegment(at) => "empty segment at position ".to_owned().concat(
                decimal_string(*at as u64).as_str(),
            ),
            KeyError::InvalidCharacter(at) => "invalid character at position ".to_owned().concat(
                decimal_string(*at as u64).as_str(),
            ),
        }
    }
}

/// A key into the storage of the node: one or more segments, joined by `/`.
/// A segment is one or more ASCII letters, digits, or characters out of
/// `_`, `-`, `.` and `#`.
#[derive(Debug)]
pub struct Key {
    raw: String,
}

impl Clone for Key {
    fn clone(&self) -> (copy: Key)
        ensures
            copy@ == self@,
    {
        proof {
            use_type_invariant(self);
        }
        Key { raw: self.raw.clone() }
    }
}

impl View for Key {
    type V = Seq<char>;

    closed spec fn view(&self) -> Seq<char> {
        self.raw@
    }
}

/// Whether `c` can stand in a segment of a key.
pub open spec fn is_key_char(c: char) -> bool {
    ||| 'a' <= c <= 'z'
    ||| 'A' <= c <= 'Z'
    ||| '0' <= c <= '9'
    ||| c == '_'
    ||| c == '-'
    ||| c == '.'
    ||| c == '#'
}

/// Whether `text` goes wrong at position `i`: a segment that ends there, at
/// a `/` or at the end of the text, is empty, or another character stands
/// there that a key cannot hold.
pub open spec fn offends_at(text: Seq<char>, i: int) -> bool {
    if i == text.len() || text[i] == '/' {
        i == 0 || text[i - 1] == '/'
    } else {
        !is_key_char(text[i])
    }
}

/// Whether `text` is a key: it goes wrong nowhere.
pub open spec fn is_key(text: Seq<char>) -> bool {
    forall|i: int| 0 <= i <= text.len() ==> !offends_at(text, i)
}

/// Whether `i` is the first position at which `text` goes wrong.
pub open spec fn first_offence(text: Seq<char>, i: int) -> bool {
    &&& 0 <= i <= text.len()
    &&& offends_at(text, i)
    &&& forall|j: int| 0 <= j < i ==> !offends_at(text, j)
}

/// The error for a text that goes wrong at position `i`.
pub open spec fn key_error_at(text: Seq<char>, i: int) -> KeyError {
    if i == text.len() || text[i] == '/' {
        KeyError::EmptySegment(i as usize)
    } else {
        KeyError::InvalidCharacter(i as usize)
    }
}

/// What reading `text` as a key gives: the key itself, or the error at the
/// first position at which the text goes wrong.
pub open spec fn key_of(text: Seq<char>) -> Result<Seq<char>, KeyError> {
    if is_key(text) {
        Ok(text)
    } else {
        Err(key_error_at(text, choose|i: int| first_offence(text, i)))
    }
}

/// A text goes wrong for the first time at one position only.
pub proof fn lemma_first_offence_is_unique(text: Seq<char>, i: int, j: int)
    requires
        first_offence(text, i),
        first_offence(text, j),
    ensures
        i == j,
{
    if i < j {
        assert(!offends_at(text, i));
    } else if j < i {
        assert(!offends_at(text, j));
    }
}

/// A text that goes wrong at `i` for the first time is no key, and reading
/// it gives the error for `i`.
pub proof fn lemma_key_of_offender(text: Seq<char>, i: int)
    requires
        first_offence(text, i),
    ensures
        !is_key(text),
        key_of(text) == Err::<Seq<char>, KeyError>(key_error_at(text, i)),
{
    let chosen = choose|k: int| first_offence(text, k);
    lemma_first_offence_is_unique(text, i, chosen);
}

impl Key {
    #[verifier::type_invariant]
    spec fn well_formed(self) -> bool {
        is_key(self.raw@)
    }

    /// Reads a key from its string form.
    pub fn parse(text: &str) -> (r: Result<Key, KeyError>)
        ensures
            match key_of(text@) {
                Ok(key) => r matches Ok(k) && k@ == key,
                Err(e) => r == Err::<Key, KeyError>(e),
            },
            r matches Ok(k) ==> is_key(k@),
    {
        let n = text.unicode_len();
        let mut i: usize = 0;
        let mut segment_start: bool = true;
        while i < n
            invariant
                n == text@.len(),
                i <= n,
                segment_start == (i == 0 || text@[i - 1] == '/'),
                forall|j: int| 0 <= j < i ==> !offends_at(text@, j),
            decreases n - i,
        {
            let c = text.get_char(i);
            if c == '/' {
                if segment_start {
                    proof {
                        lemma_key_of_offender(text@, i as int);
                    }
                    return Err(KeyError::EmptySegment(i));
                }
                segment_start = true;
            } else {
                let allowed = ('a' <= c && c <= 'z') || ('A' <= c && c <= 'Z') || ('0' <= c && c
                    <= '9') || c == '_' || c == '-' || c == '.' || c == '#';
                if !allowed {
                    proof {
                        lemma_key_of_offender(text@, i as int);
                    }
                    return Err(KeyError::InvalidCharacter(i));
                }
                segment_start = false;
            }
            i += 1;
        }
        if segment_start {
            proof {
                lemma_key_of_offender(text@, n as int);
            }
            return Err(KeyError::EmptySegment(n));
        }
        Ok(Key { raw: text.to_owned() })
    }

    /// The string form of the key.
    pub fn as_str(&self) -> (text: &str)
        ensures
            text@ == self@,
            is_key(text@),
    {
        proof {
            use_type_invariant(self);
        }
        self.raw.as_str()
    }

    /// The string form of the key, as an owned string.
    pub fn to_string(&self) -> (text: String)
        ensures
            text@ == self@,
            is_key(text@),
    {
        proof {
            use_type_invariant(self);
        }
        self.raw.clone()
    }
}

/// A key is read back from its own string form.
pub proof fn lemma_key_is_read_back(text: Seq<char>)
    requires
        is_key(text),
    ensures
        key_of(text) == Ok::<Seq<char>, KeyError>(text),
{
}

} // verus!
