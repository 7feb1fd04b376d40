//! Reports of transaction results, for people to read.

use crate::hash::hex_text;
use crate::text::{decimal_digits, decimal_string};
use crate::tx::{TxQueryResult, TxRecord, TxResponse};
use vstd::prelude::*;
use vstd::string::*;

verus! {

/// `text`, followed by as many spaces as it takes to fill `width` places.
pub open spec fn padded(text: Seq<char>, width: nat) -> Seq<char> {
    if text.len() >= width {
        text
    } else {
        text + Seq::new((width - text.len()) as nat, |i: int| ' ')
    }
}

/// The lines that list accounts: one line each, filled up to four places.
pub open spec fn account_lines(accounts: Seq<Seq<char>>) -> Seq<char>
    decreases accounts.len(),
{
    if accounts.len() == 0 {
        Seq::empty()
    } else {
        account_lines(accounts.drop_last()) + padded(accounts.last(), 4) + seq!['\n']
    }
}

impl TxRecord {
    /// The report of a response: a line each for the hash, in hexadecimal,
    /// the code, the info, the height and the gas, and where accounts were
    /// initialized a heading and a line for each of them.
    pub open spec fn report(self) -> Seq<char> {
        let hash = "Hash: "@ + hex_text(self.hash) + seq!['\n'];
        let code = "Code: "@ + decimal_digits(self.code as nat) + seq!['\n'];
        let info = "Info: "@ + self.info + seq!['\n'];
        let height = "Height: "@ + decimal_digits(self.height as nat) + seq!['\n'];
        let gas_used = "Gas used: "@ + decimal_digits(self.gas_used as nat) + seq!['\n'];
        let accounts = if self.initialized_accounts.len() == 0 {
            Seq::empty()
        } else {
            "Initialized accounts:"@ + seq!['\n'] + account_lines(self.initialized_accounts)
        };
        hash + code + info + height + gas_used + accounts
    }
}

/// Fills `text` up to `width` places with spaces.
pub fn pad(text: &str, width: usize) -> (filled: String)
    ensures
        filled@ == padded(text@, width as nat),
{
    let mut filled = text.to_owned();
    let mut length = text.unicode_len();
    while length < width
        invariant
            text@.len() <= length,
            length <= width || length == text@.len(),
            filled@ == text@ + Seq::new((length - text@.len()) as nat, |i: int| ' '),
        decreases width - length,
    {
        proof {
            reveal_strlit(" ");
        }
        filled.append(" ");
        length += 1;
        assert(filled@ =~= text@ + Seq::new((length - text@.len()) as nat, |i: int| ' '));
    }
    assert(filled@ =~= padded(text@, width as nat));
    filled
}

impl TxResponse {
    /// Writes the report of the response, see `TxRecord::report`.
    pub fn to_string(&self) -> (text: String)
        ensures
            text@ == self@.report(),
    {
        proof {
            reveal_strlit("\n");
            assert("\n"@ =~= seq!['\n']);
        }
        let mut text = "Hash: ".to_owned();
        text.append(self.hash.to_string().as_str());
        text.append("\n");
        text.append("Code: ");
        text.append(decimal_string(self.code as u64).as_str());
        text.append("\n");
        text.append("Info: ");
        text.append(self.info.as_str());
        text.append("\n");
        text.append("Height: ");
        text.append(self.height.to_string().as_str());
        text.append("\n");
        text.append("Gas used: ");
        text.append(decimal_string(self.gas_used).as_str());
        text.append("\n");
        if self.initialized_accounts.len() > 0 {
            text.append("Initialized accounts:");
            text.append("\n");
            let ghost head = text@;
            let ghost accounts = self@.initialized_accounts;
            let mut i: usize = 0;
            while i < self.initialized_accounts.len()
                invariant
                    i <= self.initialized_accounts@.len(),
                    accounts == self@.initialized_accounts,
                    "\n"@ == seq!['\n'],
                    text@ == head + account_lines(accounts.subrange(0, i as int)),
                decreases self.initialized_accounts@.len() - i,
            {
                let ghost before = accounts.subrange(0, i as int);
                let ghost after = accounts.subrange(0, i + 1);
                text.append(pad(self.initialized_accounts[i].as_str(), 4).as_str());
                text.append("\n");
                proof {
                    assert(after.drop_last() =~= before);
                    assert(after.last() == self.initialized_accounts@[i as int]@);
                    assert(text@ =~= head + account_lines(after));
                }
                i += 1;
            }
            assert(accounts.subrange(0, i as int) =~= accounts);
        }
        text
    }
}

impl TxQueryResult {
    /// Writes the kind of event and, below it, the report of the response.
    pub fn to_string(&self) -> (text: String)
        ensures
            text@ == "Tx "@ + self.event_type.name() + seq!['\n'] + self.response@.report()
                + seq!['\n'],
    {
        proof {
            reveal_strlit("\n");
            assert("\n"@ =~= seq!['\n']);
        }
        let mut text = "Tx ".to_owned();
        text.append(self.event_type.as_str());
        text.append("\n");
        text.append(self.response.to_string().as_str());
        text.append("\n");
        text
    }
}

} // verus!
