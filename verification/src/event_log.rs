//! Reading the event log of a node: a JSON document that holds, under
//! `events`, one array for each field of each kind of event. The arrays of
//! one kind run in step: what belongs to one transaction stands at the same
//! index in each of them.

use crate::event::TendermintEventType;
use crate::text::{decimal_digits, decimal_string};
use vstd::prelude::*;
use vstd::string::*;

verus! {

#[verifier::external_type_specification]
#[verifier::external_body]
pub struct ExJsonValue(serde_json::Value);

/// A field of a transaction event.
#[derive(Clone, Copy, Debug, PartialEq, Eq, Structural)]
pub enum EventField {
    Hash,
    Info,
    Height,
    Code,
    GasUsed,
    InitializedAccounts,
}

impl EventField {
    /// The name of the field in the log.
    pub open spec fn name(self) -> Seq<char> {
        match self {
            EventField::Hash => "hash"@,
            EventField::Info => "info"@,
            EventField::Height => "height"@,
            EventField::Code => "code"@,
            EventField::GasUsed => "gas_used"@,
            EventField::InitializedAccounts => "initialized_accounts"@,
        }
    }

    /// The name of the field in the log.
    pub fn as_str(self) -> (name: &'static str)
        ensures
            name@ == self.name(),
    {
        match self {
            EventField::Hash => "hash",
            EventField::Info => "info",
            EventField::Height => "height",
            EventField::Code => "code",
            EventField::GasUsed => "gas_used",
            EventField::InitializedAccounts => "initialized_accounts",
        }
    }
}

/// The JSON path of one slot of the log: the entry at `index` of the array
/// that holds `field` for events of `kind`.
pub open spec fn event_path(kind: TendermintEventType, field: EventField, index: nat) -> Seq<char> {
    "$.events.['"@ + kind.name() + "."@ + field.name() + "']["@ + decimal_digits(index) + "]"@
}

/// Whether `path` is the path of some slot of the log.
pub open spec fn is_event_path(path: Seq<char>) -> bool {
    exists|kind: TendermintEventType, field: EventField, index: u32|
        path == #[trigger] event_path(kind, field, index as nat)
}

/// Writes the JSON path of one slot of the log.
pub fn event_path_string(kind: TendermintEventType, field: EventField, index: u32) -> (path: String)
    ensures
        path@ == event_path(kind, field, index as nat),
        is_event_path(path@),
{
    let mut path = "$.events.['".to_owned();
    path.append(kind.as_str());
    path.append(".");
    path.append(field.as_str());
    path.append("'][");
    path.append(decimal_string(index as u64).as_str());
    path.append("]");
    assert(is_event_path(path@)) by {
        assert(path@ == event_path(kind, field, index as nat));
    }
    path
}

/// What a JSON path selects in a document, in document order, as
/// `jsonpath_lib` evaluates it, or the error that the evaluation ends in.
pub uninterp spec fn selection(doc: serde_json::Value, path: Seq<char>) -> Result<
    Seq<serde_json::Value>,
    jsonpath_lib::JsonPathError,
>;

/// The text of a JSON value that is a string, as `serde_json` reads it, or
/// the error that it gives for a value of any other kind.
pub uninterp spec fn text_of(value: serde_json::Value) -> Result<Seq<char>, serde_json::Error>;

/// The strings of a JSON text that is an array of strings, as `serde_json`
/// reads it, or the error that it gives for any other text.
pub uninterp spec fn text_list_of(json: Seq<char>) -> Result<Seq<Seq<char>>, serde_json::Error>;

/// What a selection gave, with the values as a sequence.
pub open spec fn selected(r: Result<Vec<serde_json::Value>, jsonpath_lib::JsonPathError>) -> Result<
    Seq<serde_json::Value>,
    jsonpath_lib::JsonPathError,
> {
    match r {
        Ok(found) => Ok(found@),
        Err(e) => Err(e),
    }
}

/// What reading a value as a string gave, with the text as a sequence.
pub open spec fn text_read(r: Result<String, serde_json::Error>) -> Result<
    Seq<char>,
    serde_json::Error,
> {
    match r {
        Ok(text) => Ok(text@),
        Err(e) => Err(e),
    }
}

/// What reading a text as a list of strings gave, with the strings as
/// sequences.
pub open spec fn text_list_read(r: Result<Vec<String>, serde_json::Error>) -> Result<
    Seq<Seq<char>>,
    serde_json::Error,
> {
    match r {
        Ok(list) => Ok(list.deep_view()),
        Err(e) => Err(e),
    }
}

/// Calls the function that `jsonpath_lib::selector` makes for `doc`, once,
/// on `path`, and copies what it selected. The contract only gives the
/// outcome its name, `selection`. It is used on the paths of log slots only.
#[verifier::external_body]
pub(crate) fn select(doc: &serde_json::Value, path: &str) -> (r: Result<
    Vec<serde_json::Value>,
    jsonpath_lib::JsonPathError,
>)
    requires
        is_event_path(path@),
    ensures
        selected(r) == selection(*doc, path@),
{
    let mut evaluate = jsonpath_lib::selector(doc);
    match evaluate(path) {
        Ok(found) => Ok(found.into_iter().cloned().collect()),
        Err(e) => Err(e),
    }
}

/// Calls `serde_json::from_value` for a `String` on a copy of `value`. The
/// contract only gives the outcome its name, `text_of`.
#[verifier::external_body]
pub(crate) fn value_text(value: &serde_json::Value) -> (r: Result<String, serde_json::Error>)
    ensures
        text_read(r) == text_of(*value),
{
    serde_json::from_value::<String>(value.clone())
}

/// Calls `serde_json::from_str` for a list of strings. The contract only
/// gives the outcome its name, `text_list_of`.
#[verifier::external_body]
pub(crate) fn parse_text_list(json: &str) -> (r: Result<Vec<String>, serde_json::Error>)
    ensures
        text_list_read(r) == text_list_of(json@),
{
    serde_json::from_str::<Vec<String>>(json)
}

/// What the log holds in one slot.
pub enum Slot {
    /// Nothing: the array is missing or ends before the index.
    Empty,
    /// A JSON string.
    Text(Seq<char>),
    /// A JSON value of another kind, with what `serde_json` says of it when
    /// it is asked for a string.
    Other(serde_json::Error),
}

/// What `found`, the values that a path selected, puts into a slot. Only
/// the first value counts.
pub open spec fn slot_of(found: Seq<serde_json::Value>) -> Slot {
    if found.len() == 0 {
        Slot::Empty
    } else {
        match text_of(found[0]) {
            Ok(text) => Slot::Text(text),
            Err(e) => Slot::Other(e),
        }
    }
}

/// What the log `doc` holds in one slot, or the error that the evaluation
/// of the slot's path ends in.
pub open spec fn slot(
    doc: serde_json::Value,
    kind: TendermintEventType,
    field: EventField,
    index: nat,
) -> Result<Slot, jsonpath_lib::JsonPathError> {
    match selection(doc, event_path(kind, field, index)) {
        Ok(found) => Ok(slot_of(found)),
        Err(e) => Err(e),
    }
}

/// What was read from one slot of the log.
pub enum SlotContent {
    /// Nothing: the array is missing or ends before the index.
    Empty,
    /// A JSON string.
    Text(String),
    /// A JSON value of another kind, with what `serde_json` said of it.
    Other(serde_json::Error),
}

impl View for SlotContent {
    type V = Slot;

    open spec fn view(&self) -> Slot {
        match self {
            SlotContent::Empty => Slot::Empty,
            SlotContent::Text(text) => Slot::Text(text@),
            SlotContent::Other(e) => Slot::Other(*e),
        }
    }
}

/// What reading a slot gives, as plain values.
pub open spec fn slot_read(r: Result<SlotContent, jsonpath_lib::JsonPathError>) -> Result<
    Slot,
    jsonpath_lib::JsonPathError,
> {
    match r {
        Ok(content) => Ok(content@),
        Err(e) => Err(e),
    }
}

/// Sorts what a path selected: nothing, a string, or something else. Only
/// the first value counts.
pub fn slot_content(found: &Vec<serde_json::Value>) -> (content: SlotContent)
    ensures
        content@ == slot_of(found@),
{
    if found.len() == 0 {
        SlotContent::Empty
    } else {
        match value_text(&found[0]) {
            Ok(text) => SlotContent::Text(text),
            Err(e) => SlotContent::Other(e),
        }
    }
}

/// Reads one slot of the log.
pub fn read_slot(
    doc: &serde_json::Value,
    kind: TendermintEventType,
    field: EventField,
    index: u32,
) -> (r: Result<SlotContent, jsonpath_lib::JsonPathError>)
    ensures
        slot_read(r) == slot(*doc, kind, field, index as nat),
{
    let path = event_path_string(kind, field, index);
    match select(doc, path.as_str()) {
        Ok(found) => Ok(slot_content(&found)),
        Err(e) => Err(e),
    }
}

} // verus!
