//! The result of a transaction, found in the event log of a node.

use crate::address::Address;
use crate::error::{QueryError, QueryFailure};
use crate::event::{EventSupport, TendermintEventType};
use crate::event_log::{
    parse_text_list, read_slot, slot, slot_read, text_list_of, EventField, Slot, SlotContent,
};
use crate::storage::BlockHeight;
use crate::text::{parse_u64, parse_u8, parse_unsigned, str_eq, u64_of, u8_of, u8_parse_error};
use vstd::prelude::*;
use vstd::string::*;
use vstd::utf8::encode_utf8;

verus! {

/// What a node reports of one transaction.
#[derive(Clone, Debug)]
pub struct TxResponse {
    /// What the transaction said of itself.
    pub info: String,
    /// The height of the block that holds the transaction.
    pub height: BlockHeight,
    /// The hash of the transaction.
    pub hash: crate::hash::Hash,
    /// The exit code of the transaction.
    pub code: u8,
    /// The gas that the transaction used.
    pub gas_used: u64,
    /// The accounts that the transaction initialized, in order.
    pub initialized_accounts: Vec<Address>,
}

/// The result of a transaction together with the kind of event that
/// reported it.
#[derive(Clone, Debug)]
pub struct TxQueryResult {
    /// What the node reported.
    pub response: TxResponse,
    /// The kind of event that reported it.
    pub event_type: TendermintEventType,
}

/// A `TxResponse` as plain values.
pub struct TxRecord {
    pub info: Seq<char>,
    pub height: u64,
    pub hash: Seq<u8>,
    pub code: u8,
    pub gas_used: u64,
    pub initialized_accounts: Seq<Seq<char>>,
}

impl View for TxResponse {
    type V = TxRecord;

    open spec fn view(&self) -> TxRecord {
        TxRecord {
            info: self.info@,
            height: self.height.0,
            hash: self.hash@,
            code: self.code,
            gas_used: self.gas_used,
            initialized_accounts: Seq::new(
                self.initialized_accounts@.len(),
                |i: int| self.initialized_accounts@[i]@,
            ),
        }
    }
}

/// The outcome of a query as plain values.
pub open spec fn outcome(r: Result<TxResponse, QueryError>) -> Result<TxRecord, QueryFailure> {
    match r {
        Ok(response) => Ok(response@),
        Err(e) => Err(e@),
    }
}

/// The record that the texts of an event's fields denote. The height, the
/// code and the gas are decimal numerals of 64, 8 and 64 bits; the hash is
/// the bytes of its text, whatever the text is. The first text that is not
/// the numeral it should be, in the order height, code, gas, decides the
/// failure, and the failure carries what the reading of that text gave.
pub open spec fn record_from_texts(
    info: Seq<char>,
    height: Seq<char>,
    tx_hash: Seq<char>,
    code: Seq<char>,
    gas_used: Seq<char>,
    accounts: Seq<Seq<char>>,
) -> Result<TxRecord, QueryFailure> {
    match u64_of(height) {
        Err(e) => Err(QueryFailure::ConversionError(e)),
        Ok(height) => match u8_of(code) {
            Err(e) => Err(QueryFailure::ConversionError(e)),
            Ok(code) => match u64_of(gas_used) {
                Err(e) => Err(QueryFailure::ConversionError(e)),
                Ok(gas_used) => Ok(
                    TxRecord {
                        info,
                        height,
                        hash: encode_utf8(tx_hash),
                        code,
                        gas_used,
                        initialized_accounts: accounts,
                    },
                ),
            },
        },
    }
}

/// Turns account addresses in string form into addresses, in order.
pub fn addresses_from(texts: Vec<String>) -> (addresses: Vec<Address>)
    ensures
        addresses@.len() == texts@.len(),
        forall|i: int| 0 <= i < texts@.len() ==> (#[trigger] addresses@[i])@ == texts@[i]@,
{
    let mut addresses: Vec<Address> = Vec::new();
    let mut i: usize = 0;
    while i < texts.len()
        invariant
            i <= texts@.len(),
            addresses@.len() == i,
            forall|j: int| 0 <= j < i ==> (#[trigger] addresses@[j])@ == texts@[j]@,
        decreases texts@.len() - i,
    {
        addresses.push(Address::new(texts[i].clone()));
        i += 1;
    }
    addresses
}

/// What the search for a hash does at one slot.
#[derive(Clone, Copy, Debug, PartialEq, Eq, Structural)]
pub enum Step {
    /// The slot holds the hash: the search ends here.
    Found,
    /// The slot is the first one and is empty: the log holds no hash at all
    /// for this kind of event.
    NoCandidates,
    /// The search ends without the hash: at an empty slot after the first,
    /// which is where the array ends, or at the last index there is.
    NoMatch,
    /// The slot holds something else: the search goes on at the next index.
    Next,
}

/// What the search for `tx_hash` does at the slot at `index`, which holds
/// `content`. The hash is matched as a JSON string; a value of another kind
/// is passed over like a string that differs. The last index is the largest
/// that 32 bits can hold.
pub open spec fn step_at(content: Slot, tx_hash: Seq<char>, index: nat) -> Step {
    if content == Slot::Empty {
        if index == 0 {
            Step::NoCandidates
        } else {
            Step::NoMatch
        }
    } else if content == Slot::Text(tx_hash) {
        Step::Found
    } else if index >= u32::MAX {
        Step::NoMatch
    } else {
        Step::Next
    }
}

/// Decides what the search for `tx_hash` does at the slot at `index`, from
/// what was read there.
pub fn search_step(content: &SlotContent, tx_hash: &str, index: u32) -> (step: Step)
    ensures
        step == step_at(content@, tx_hash@, index as nat),
{
    match content {
        SlotContent::Empty => {
            if index == 0 {
                Step::NoCandidates
            } else {
                Step::NoMatch
            }
        },
        SlotContent::Text(text) => {
            if str_eq(text.as_str(), tx_hash) {
                Step::Found
            } else if index == u32::MAX {
                Step::NoMatch
            } else {
                Step::Next
            }
        },
        SlotContent::Other(_) => {
            if index == u32::MAX {
                Step::NoMatch
            } else {
                Step::Next
            }
        },
    }
}

/// How the search for a hash in the log ends.
pub enum Search {
    /// The hash stands at this index.
    Found(nat),
    /// The log holds no hash at all for this kind of event.
    NoCandidates,
    /// The log holds hashes, and none of them is the one looked for.
    NoMatch,
    /// The path of a slot could not be evaluated, and this is why.
    Unreadable(jsonpath_lib::JsonPathError),
}

/// The search for `tx_hash` among the hashes of the events of `kind`, from
/// `index` on: it goes up index by index, and at each slot does what
/// `step_at` says.
pub open spec fn search_from(
    doc: serde_json::Value,
    kind: TendermintEventType,
    tx_hash: Seq<char>,
    index: nat,
) -> Search
    decreases u32::MAX - index,
{
    match slot(doc, kind, EventField::Hash, index) {
        Err(e) => Search::Unreadable(e),
        Ok(content) => match step_at(content, tx_hash, index) {
            Step::Found => Search::Found(index),
            Step::NoCandidates => Search::NoCandidates,
            Step::NoMatch => Search::NoMatch,
            Step::Next => search_from(doc, kind, tx_hash, index + 1),
        },
    }
}

/// The failure that reports that `tx_hash` was not found, for any text: it
/// carries the hash that the text stands for. Where the log held candidates
/// the event is missing, where it held none the block is.
pub open spec fn not_found(tx_hash: Seq<char>, candidates: bool) -> QueryFailure {
    if candidates {
        QueryFailure::EventNotFound(encode_utf8(tx_hash))
    } else {
        QueryFailure::BlockNotFound(encode_utf8(tx_hash))
    }
}

/// The text of a slot that a response cannot do without. An empty slot
/// means that the event is missing, a value that is no string that the log
/// is malformed.
pub open spec fn required_text(content: Slot, tx_hash: Seq<char>) -> Result<
    Seq<char>,
    QueryFailure,
> {
    match content {
        Slot::Text(text) => Ok(text),
        Slot::Empty => Err(not_found(tx_hash, true)),
        Slot::Other(e) => Err(QueryFailure::SerdeError(e)),
    }
}

/// The accounts that a slot of initialized accounts stands for, from what
/// reading the slot gave. The field is optional: a slot that is empty or
/// cannot be read stands for no accounts. A slot that is filled holds a JSON
/// string, and that string is in turn the JSON text of an array of
/// addresses.
pub open spec fn accounts_of(read: Result<Slot, jsonpath_lib::JsonPathError>) -> Result<
    Seq<Seq<char>>,
    QueryFailure,
> {
    match read {
        Err(_) => Ok(Seq::empty()),
        Ok(Slot::Empty) => Ok(Seq::empty()),
        Ok(Slot::Other(e)) => Err(QueryFailure::SerdeError(e)),
        Ok(Slot::Text(json)) => match text_list_of(json) {
            Ok(list) => Ok(list),
            Err(e) => Err(QueryFailure::SerdeError(e)),
        },
    }
}

/// The response for the transaction whose hash stands at `index`: every
/// field is read at that same index. A path that cannot be evaluated comes
/// first among the failures, in the order info, height, code, gas; then the
/// slots in the order info, code, gas, height; then the accounts; then the
/// texts, see `record_from_texts`.
pub open spec fn resolved_at(
    doc: serde_json::Value,
    kind: TendermintEventType,
    tx_hash: Seq<char>,
    index: nat,
) -> Result<TxRecord, QueryFailure> {
    let info = slot(doc, kind, EventField::Info, index);
    let height = slot(doc, kind, EventField::Height, index);
    let code = slot(doc, kind, EventField::Code, index);
    let gas_used = slot(doc, kind, EventField::GasUsed, index);
    let accounts = slot(doc, kind, EventField::InitializedAccounts, index);
    if info is Err {
        Err(QueryFailure::JsonError(info->Err_0))
    } else if height is Err {
        Err(QueryFailure::JsonError(height->Err_0))
    } else if code is Err {
        Err(QueryFailure::JsonError(code->Err_0))
    } else if gas_used is Err {
        Err(QueryFailure::JsonError(gas_used->Err_0))
    } else {
        match required_text(info->Ok_0, tx_hash) {
            Err(e) => Err(e),
            Ok(info) => match required_text(code->Ok_0, tx_hash) {
                Err(e) => Err(e),
                Ok(code) => match required_text(gas_used->Ok_0, tx_hash) {
                    Err(e) => Err(e),
                    Ok(gas_used) => match required_text(height->Ok_0, tx_hash) {
                        Err(e) => Err(e),
                        Ok(height) => match accounts_of(accounts) {
                            Err(e) => Err(e),
                            Ok(accounts) => record_from_texts(
                                info,
                                height,
                                tx_hash,
                                code,
                                gas_used,
                                accounts,
                            ),
                        },
                    },
                },
            },
        }
    }
}

/// The response for the transaction `tx_hash` in the log `doc`, among the
/// events of the kind that `event_type` names. The kind is settled before
/// the log is looked at. A hash that the search does not find is reported
/// as not found, whatever its text: the block is missing where the log holds
/// no hash at all, the event where it holds others.
pub open spec fn resolved(
    doc: serde_json::Value,
    support: EventSupport,
    event_type: Seq<char>,
    tx_hash: Seq<char>,
) -> Result<TxRecord, QueryFailure> {
    match TendermintEventType::named(event_type, support) {
        None => Err(QueryFailure::UnsupportedTendermintEvent(event_type)),
        Some(kind) => match search_from(doc, kind, tx_hash, 0) {
            Search::Unreadable(e) => Err(QueryFailure::JsonError(e)),
            Search::NoCandidates => Err(QueryFailure::BlockNotFound(encode_utf8(tx_hash))),
            Search::NoMatch => Err(QueryFailure::EventNotFound(encode_utf8(tx_hash))),
            Search::Found(index) => resolved_at(doc, kind, tx_hash, index),
        },
    }
}

/// Whether the search for `tx_hash` goes past the slot of the hashes at
/// `index`: the slot holds a value, and the value is not the hash.
pub open spec fn passed_over(
    doc: serde_json::Value,
    kind: TendermintEventType,
    tx_hash: Seq<char>,
    index: nat,
) -> bool {
    match slot(doc, kind, EventField::Hash, index) {
        Err(_) => false,
        Ok(content) => content != Slot::Empty && content != Slot::Text(tx_hash),
    }
}

/// Whether `index` is where the search that starts at `start` finds
/// `tx_hash`: the hash stands there, and every slot before it, from `start`
/// on, holds something else.
pub open spec fn first_match(
    doc: serde_json::Value,
    kind: TendermintEventType,
    tx_hash: Seq<char>,
    start: nat,
    index: nat,
) -> bool {
    &&& start <= index <= u32::MAX
    &&& slot(doc, kind, EventField::Hash, index) == Ok::<Slot, jsonpath_lib::JsonPathError>(
        Slot::Text(tx_hash),
    )
    &&& forall|j: nat| start <= j < index ==> #[trigger] passed_over(doc, kind, tx_hash, j)
}

/// The search finds the hash at an index exactly when the hash stands
/// there for the first time, with nothing but other values before it.
pub proof fn lemma_found_is_first_match(
    doc: serde_json::Value,
    kind: TendermintEventType,
    tx_hash: Seq<char>,
    start: nat,
    index: nat,
)
    requires
        start <= u32::MAX,
    ensures
        search_from(doc, kind, tx_hash, start) == Search::Found(index) <==> first_match(
            doc,
            kind,
            tx_hash,
            start,
            index,
        ),
    decreases u32::MAX - start,
{
    let here = slot(doc, kind, EventField::Hash, start);
    if here is Ok && step_at(here->Ok_0, tx_hash, start) == Step::Next {
        lemma_found_is_first_match(doc, kind, tx_hash, start + 1, index);
        assert(passed_over(doc, kind, tx_hash, start));
        if first_match(doc, kind, tx_hash, start, index) {
            assert(index != start);
            assert(first_match(doc, kind, tx_hash, start + 1, index));
        }
        if first_match(doc, kind, tx_hash, start + 1, index) {
            assert forall|j: nat| start <= j < index implies #[trigger] passed_over(
                doc,
                kind,
                tx_hash,
                j,
            ) by {
                if j > start {
                    assert((start + 1) as nat <= j);
                }
            }
        }
    } else {
        if first_match(doc, kind, tx_hash, start, index) && index > start {
            assert(passed_over(doc, kind, tx_hash, start));
        }
    }
}

/// Positional correlation: when the search finds the hash at an index, the
/// response is made of what the other fields hold at that same index, and
/// of nothing else in the log.
pub proof fn lemma_fields_share_the_index(
    doc: serde_json::Value,
    support: EventSupport,
    event_type: Seq<char>,
    tx_hash: Seq<char>,
    index: nat,
)
    requires
        TendermintEventType::named(event_type, support) is Some,
        first_match(doc, TendermintEventType::named(event_type, support)->0, tx_hash, 0, index),
    ensures
        resolved(doc, support, event_type, tx_hash) == resolved_at(
            doc,
            TendermintEventType::named(event_type, support)->0,
            tx_hash,
            index,
        ),
{
    lemma_found_is_first_match(
        doc,
        TendermintEventType::named(event_type, support)->0,
        tx_hash,
        0,
        index,
    );
}

/// Whether no slot of the hashes of the events of `kind` holds `tx_hash`.
pub open spec fn absent(doc: serde_json::Value, kind: TendermintEventType, tx_hash: Seq<char>) -> bool {
    forall|index: nat| #[trigger]
        slot(doc, kind, EventField::Hash, index) != Ok::<Slot, jsonpath_lib::JsonPathError>(
            Slot::Text(tx_hash),
        )
}

/// Whether the path of every slot of the hashes of the events of `kind` can
/// be evaluated.
pub open spec fn readable(doc: serde_json::Value, kind: TendermintEventType) -> bool {
    forall|index: nat| (#[trigger] slot(doc, kind, EventField::Hash, index)) is Ok
}

/// The search for a hash that stands in no slot does not find it. Where
/// every slot can be read, it ends at the first empty slot or at the last
/// index: without candidates if the first slot is empty, without a match
/// otherwise.
pub proof fn lemma_search_for_absent_hash(
    doc: serde_json::Value,
    kind: TendermintEventType,
    tx_hash: Seq<char>,
    start: nat,
)
    requires
        start <= u32::MAX,
        absent(doc, kind, tx_hash),
    ensures
        !(search_from(doc, kind, tx_hash, start) is Found),
        readable(doc, kind) ==> search_from(doc, kind, tx_hash, start) == (if start == 0 && slot(
            doc,
            kind,
            EventField::Hash,
            0,
        ) == Ok::<Slot, jsonpath_lib::JsonPathError>(Slot::Empty) {
            Search::NoCandidates
        } else {
            Search::NoMatch
        }),
    decreases u32::MAX - start,
{
    let here = slot(doc, kind, EventField::Hash, start);
    if here is Ok && step_at(here->Ok_0, tx_hash, start) == Step::Next {
        lemma_search_for_absent_hash(doc, kind, tx_hash, start + 1);
    }
}

/// A hash that stands nowhere in the log is not found, whatever its text.
/// The query fails, and unless a path cannot be evaluated it fails with a
/// not-found failure that carries the hash: the block is missing where the
/// first slot is empty, the event otherwise.
pub proof fn lemma_absent_hash_is_not_found(
    doc: serde_json::Value,
    support: EventSupport,
    event_type: Seq<char>,
    tx_hash: Seq<char>,
)
    requires
        TendermintEventType::named(event_type, support) is Some,
        absent(doc, TendermintEventType::named(event_type, support)->0, tx_hash),
    ensures
        resolved(doc, support, event_type, tx_hash) matches Err(failure) && (failure
            == QueryFailure::BlockNotFound(encode_utf8(tx_hash)) || failure
            == QueryFailure::EventNotFound(encode_utf8(tx_hash)) || failure is JsonError),
        readable(doc, TendermintEventType::named(event_type, support)->0) ==> resolved(
            doc,
            support,
            event_type,
            tx_hash,
        ) == Err::<TxRecord, QueryFailure>(
            if slot(
                doc,
                TendermintEventType::named(event_type, support)->0,
                EventField::Hash,
                0,
            ) == Ok::<Slot, jsonpath_lib::JsonPathError>(Slot::Empty) {
                QueryFailure::BlockNotFound(encode_utf8(tx_hash))
            } else {
                QueryFailure::EventNotFound(encode_utf8(tx_hash))
            },
        ),
{
    let kind = TendermintEventType::named(event_type, support)->0;
    lemma_search_for_absent_hash(doc, kind, tx_hash, 0);
}

/// An event kind that is not recognised, or not supported, fails the query
/// whatever the log holds.
pub proof fn lemma_unsupported_kind_fails(
    doc: serde_json::Value,
    support: EventSupport,
    event_type: Seq<char>,
    tx_hash: Seq<char>,
)
    requires
        TendermintEventType::named(event_type, support) is None,
    ensures
        resolved(doc, support, event_type, tx_hash) == Err::<TxRecord, QueryFailure>(
            QueryFailure::UnsupportedTendermintEvent(event_type),
        ),
{
}

/// A field that does not convert fails the whole response: there is a
/// record only where the height, the code and the gas are numerals that
/// fit. A code that is no such numeral, under a height that is one, fails
/// as a conversion, with what the reading of the code gave.
pub proof fn lemma_no_partial_record(
    info: Seq<char>,
    height: Seq<char>,
    tx_hash: Seq<char>,
    code: Seq<char>,
    gas_used: Seq<char>,
    accounts: Seq<Seq<char>>,
)
    ensures
        record_from_texts(info, height, tx_hash, code, gas_used, accounts) is Ok <==> {
            &&& parse_unsigned(height, u64::MAX as nat) is Some
            &&& parse_unsigned(code, u8::MAX as nat) is Some
            &&& parse_unsigned(gas_used, u64::MAX as nat) is Some
        },
        parse_unsigned(height, u64::MAX as nat) is Some && parse_unsigned(code, u8::MAX as nat)
            is None ==> record_from_texts(info, height, tx_hash, code, gas_used, accounts)
            == Err::<TxRecord, QueryFailure>(QueryFailure::ConversionError(u8_parse_error(code))),
{
}

/// Where the search for a hash ended.
#[derive(Clone, Copy, Debug, PartialEq, Eq, Structural)]
pub enum Searched {
    /// The hash stands at this index.
    Found(u32),
    /// The log holds no hash at all for this kind of event.
    NoCandidates,
    /// The log holds hashes, and none of them is the one looked for.
    NoMatch,
}

/// How a search ended, as plain values.
pub open spec fn search_outcome(r: Result<Searched, jsonpath_lib::JsonPathError>) -> Search {
    match r {
        Ok(Searched::Found(index)) => Search::Found(index as nat),
        Ok(Searched::NoCandidates) => Search::NoCandidates,
        Ok(Searched::NoMatch) => Search::NoMatch,
        Err(e) => Search::Unreadable(e),
    }
}

/// The error that reports that `tx_hash` was not found.
pub fn not_found_error(tx_hash: &str, candidates: bool) -> (e: QueryError)
    ensures
        e@ == not_found(tx_hash@, candidates),
{
    let hash = crate::hash::Hash::from_text(tx_hash);
    if candidates {
        QueryError::EventNotFound(hash)
    } else {
        QueryError::BlockNotFound(hash)
    }
}

/// Looks for `tx_hash` among the hashes of the events of `kind`, from the
/// first on.
pub fn search(doc: &serde_json::Value, kind: TendermintEventType, tx_hash: &str) -> (r: Result<
    Searched,
    jsonpath_lib::JsonPathError,
>)
    ensures
        search_outcome(r) == search_from(*doc, kind, tx_hash@, 0),
{
    let mut index: u32 = 0;
    loop
        invariant
            search_from(*doc, kind, tx_hash@, 0) == search_from(*doc, kind, tx_hash@, index as nat),
        decreases u32::MAX - index,
    {
        let content = match read_slot(doc, kind, EventField::Hash, index) {
            Ok(content) => content,
            Err(e) => return Err(e),
        };
        match search_step(&content, tx_hash, index) {
            Step::Found => return Ok(Searched::Found(index)),
            Step::NoCandidates => return Ok(Searched::NoCandidates),
            Step::NoMatch => return Ok(Searched::NoMatch),
            Step::Next => {
                index += 1;
            },
        }
    }
}

/// The text that a response cannot do without, from what its slot held.
pub fn require_text(content: SlotContent, tx_hash: &str) -> (r: Result<String, QueryError>)
    ensures
        match required_text(content@, tx_hash@) {
            Ok(text) => r matches Ok(t) && t@ == text,
            Err(failure) => r matches Err(e) && e@ == failure,
        },
{
    match content {
        SlotContent::Text(text) => Ok(text),
        SlotContent::Empty => Err(not_found_error(tx_hash, true)),
        SlotContent::Other(e) => Err(QueryError::SerdeError(e)),
    }
}

/// The addresses in string form that the slot of the initialized accounts
/// stands for, from what reading it gave.
pub fn accounts_from(read: Result<SlotContent, jsonpath_lib::JsonPathError>) -> (r: Result<
    Vec<String>,
    QueryError,
>)
    ensures
        match accounts_of(slot_read(read)) {
            Ok(texts) => r matches Ok(list) && list.deep_view() == texts,
            Err(failure) => r matches Err(e) && e@ == failure,
        },
{
    match read {
        Ok(SlotContent::Text(json)) => match parse_text_list(json.as_str()) {
            Ok(list) => Ok(list),
            Err(e) => Err(QueryError::SerdeError(e)),
        },
        Ok(SlotContent::Other(e)) => Err(QueryError::SerdeError(e)),
        _ => {
            let list: Vec<String> = Vec::new();
            assert(list.deep_view() =~= Seq::<Seq<char>>::empty());
            Ok(list)
        },
    }
}

impl TxResponse {
    /// Builds the response from the texts of an event's fields, see
    /// `record_from_texts`. Nothing is built unless every text is what it
    /// should be.
    pub fn from_texts(
        info: String,
        height: &str,
        tx_hash: &str,
        code: &str,
        gas_used: &str,
        accounts: Vec<String>,
    ) -> (r: Result<TxResponse, QueryError>)
        ensures
            outcome(r) == record_from_texts(
                info@,
                height@,
                tx_hash@,
                code@,
                gas_used@,
                accounts.deep_view(),
            ),
    {
        let height = match parse_u64(height) {
            Ok(n) => BlockHeight(n),
            Err(e) => return Err(QueryError::ConversionError(e)),
        };
        let hash = crate::hash::Hash::from_text(tx_hash);
        let code = match parse_u8(code) {
            Ok(n) => n,
            Err(e) => return Err(QueryError::ConversionError(e)),
        };
        let gas_used = match parse_u64(gas_used) {
            Ok(n) => n,
            Err(e) => return Err(QueryError::ConversionError(e)),
        };
        let ghost texts = accounts.deep_view();
        let initialized_accounts = addresses_from(accounts);
        let response = TxResponse { info, height, hash, code, gas_used, initialized_accounts };
        assert(response@.initialized_accounts =~= texts);
        Ok(response)
    }

    /// Reads the response for the transaction whose hash stands at `index`
    /// of the log.
    pub fn read_at(
        doc: &serde_json::Value,
        kind: TendermintEventType,
        tx_hash: &str,
        index: u32,
    ) -> (r: Result<TxResponse, QueryError>)
        ensures
            outcome(r) == resolved_at(*doc, kind, tx_hash@, index as nat),
    {
        let info = match read_slot(doc, kind, EventField::Info, index) {
            Ok(content) => content,
            Err(e) => return Err(QueryError::JsonError(e)),
        };
        let height = match read_slot(doc, kind, EventField::Height, index) {
            Ok(content) => content,
            Err(e) => return Err(QueryError::JsonError(e)),
        };
        let code = match read_slot(doc, kind, EventField::Code, index) {
            Ok(content) => content,
            Err(e) => return Err(QueryError::JsonError(e)),
        };
        let gas_used = match read_slot(doc, kind, EventField::GasUsed, index) {
            Ok(content) => content,
            Err(e) => return Err(QueryError::JsonError(e)),
        };
        let accounts = read_slot(doc, kind, EventField::InitializedAccounts, index);
        let info = match require_text(info, tx_hash) {
            Ok(text) => text,
            Err(e) => return Err(e),
        };
        let code = match require_text(code, tx_hash) {
            Ok(text) => text,
            Err(e) => return Err(e),
        };
        let gas_used = match require_text(gas_used, tx_hash) {
            Ok(text) => text,
            Err(e) => return Err(e),
        };
        let height = match require_text(height, tx_hash) {
            Ok(text) => text,
            Err(e) => return Err(e),
        };
        let accounts = match accounts_from(accounts) {
            Ok(list) => list,
            Err(e) => return Err(e),
        };
        TxResponse::from_texts(
            info,
            height.as_str(),
            tx_hash,
            code.as_str(),
            gas_used.as_str(),
            accounts,
        )
    }

    /// Finds the response for the transaction `tx_hash` in the event log
    /// `json_response`, among the events of the kind that `event_type`
    /// names. See `resolved` for what is found, and for each failure.
    pub fn find_tx(
        json_response: serde_json::Value,
        event_type: &str,
        tx_hash: &str,
        support: EventSupport,
    ) -> (r: Result<TxResponse, QueryError>)
        ensures
            outcome(r) == resolved(json_response, support, event_type@, tx_hash@),
    {
        let kind = match TendermintEventType::try_from(event_type, support) {
            Ok(kind) => kind,
            Err(e) => return Err(QueryError::UnsupportedTendermintEvent(e)),
        };
        match search(&json_response, kind, tx_hash) {
            Err(e) => Err(QueryError::JsonError(e)),
            Ok(Searched::NoCandidates) => Err(not_found_error(tx_hash, false)),
            Ok(Searched::NoMatch) => Err(not_found_error(tx_hash, true)),
            Ok(Searched::Found(index)) => TxResponse::read_at(&json_response, kind, tx_hash, index),
        }
    }
}

} // verus!
