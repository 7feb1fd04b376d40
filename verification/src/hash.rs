//! Transaction hashes.

use vstd::prelude::*;
use vstd::string::*;
use vstd::utf8::encode_utf8;

verus! {

/// The hash of a transaction, as the node wrote it: the bytes of the text
/// that stands for the transaction in the event log. Any text is taken as it
/// is, whatever its length and its alphabet.
#[derive(Clone, Debug)]
pub struct Hash(pub Vec<u8>);

impl View for Hash {
    type V = Seq<u8>;

    open spec fn view(&self) -> Seq<u8> {
        self.0@
    }
}

/// The hexadecimal digit, in upper case, that stands for `v`, for `v` below
/// sixteen.
pub open spec fn hex_digit(v: nat) -> char {
    if v == 0 {
        '0'
    } else if v == 1 {
        '1'
    } else if v == 2 {
        '2'
    } else if v == 3 {
        '3'
    } else if v == 4 {
        '4'
    } else if v == 5 {
        '5'
    } else if v == 6 {
        '6'
    } else if v == 7 {
        '7'
    } else if v == 8 {
        '8'
    } else if v == 9 {
        '9'
    } else if v == 10 {
        'A'
    } else if v == 11 {
        'B'
    } else if v == 12 {
        'C'
    } else if v == 13 {
        'D'
    } else if v == 14 {
        'E'
    } else {
        'F'
    }
}

/// The hexadecimal text of `bytes`, in upper case: two digits for each byte,
/// the high one first.
pub open spec fn hex_text(bytes: Seq<u8>) -> Seq<char> {
    Seq::new(
        2 * bytes.len(),
        |i: int|
            if i % 2 == 0 {
                hex_digit((bytes[i / 2] / 16) as nat)
            } else {
                hex_digit((bytes[i / 2] % 16) as nat)
            },
    )
}

fn hex_digit_str(v: u8) -> (s: &'static str)
    requires
        v < 16,
    ensures
        s@ == seq![hex_digit(v as nat)],
{
    proof {
        reveal_strlit("0");
        reveal_strlit("1");
        reveal_strlit("2");
        reveal_strlit("3");
        reveal_strlit("4");
        reveal_strlit("5");
        reveal_strlit("6");
        reveal_strlit("7");
        reveal_strlit("8");
        reveal_strlit("9");
        reveal_strlit("A");
        reveal_strlit("B");
        reveal_strlit("C");
        reveal_strlit("D");
        reveal_strlit("E");
        reveal_strlit("F");
    }
    let s = if v == 0 {
        "0"
    } else if v == 1 {
        "1"
    } else if v == 2 {
        "2"
    } else if v == 3 {
        "3"
    } else if v == 4 {
        "4"
    } else if v == 5 {
        "5"
    } else if v == 6 {
        "6"
    } else if v == 7 {
        "7"
    } else if v == 8 {
        "8"
    } else if v == 9 {
        "9"
    } else if v == 10 {
        "A"
    } else if v == 11 {
        "B"
    } else if v == 12 {
        "C"
    } else if v == 13 {
        "D"
    } else if v == 14 {
        "E"
    } else {
        "F"
    };
    assert(s@ =~= seq![hex_digit(v as nat)]);
    s
}

impl Hash {
    /// The hash that `text` stands for: the bytes of the text.
    pub fn from_text(text: &str) -> (hash: Hash)
        ensures
            hash@ == encode_utf8(text@),
    {
        Hash(text.as_bytes_vec())
    }

    /// Writes the bytes of the hash in hexadecimal, in upper case.
    pub fn to_string(&self) -> (text: String)
        ensures
            text@ == hex_text(self@),
    {
        let mut text = String::new();
        let mut i: usize = 0;
        while i < self.0.len()
            invariant
                i <= self@.len(),
                text@ == hex_text(self@.subrange(0, i as int)),
            decreases self@.len() - i,
        {
            let byte = self.0[i];
            text.append(hex_digit_str(byte / 16));
            text.append(hex_digit_str(byte % 16));
            proof {
                let shorter = self@.subrange(0, i as int);
                let longer = self@.subrange(0, i + 1);
                assert(text@ =~= hex_text(longer)) by {
                    assert forall|k: int| 0 <= k < 2 * i implies hex_text(longer)[k] == hex_text(
                        shorter,
                    )[k] by {
                        assert(longer[k / 2] == shorter[k / 2]);
                    }
                }
            }
            i += 1;
        }
        assert(self@.subrange(0, self@.len() as int) =~= self@);
        text
    }
}

} // verus!
