//! The errors of a query.

use crate::event::EventError;
use crate::hash::hex_text;
use crate::text::{decimal_digits, decimal_string};
use vstd::prelude::*;
use vstd::string::*;
use vstd::std_specs::convert::FromSpecImpl;

verus! {

#[verifier::external_type_specification]
#[verifier::external_body]
pub struct ExTransportError(tendermint_rpc::Error);

#[verifier::external_type_specification]
#[verifier::external_body]
pub struct ExIoError(std::io::Error);

#[verifier::external_type_specification]
#[verifier::external_body]
pub struct ExFromHexError(hex::FromHexError);

#[verifier::external_type_specification]
#[verifier::external_body]
pub struct ExJsonPathError(jsonpath_lib::JsonPathError);

#[verifier::external_type_specification]
#[verifier::external_body]
pub struct ExSerdeError(serde_json::Error);

/// Why a query failed. Each failure has one cause, and a cause that comes
/// from elsewhere is carried along as it was.
#[derive(Debug)]
pub enum QueryError {
    /// The node could not be asked.
    ABCIQueryError(tendermint_rpc::Error),
    /// A value is not the number it should be.
    ConversionError(core::num::ParseIntError),
    /// A value could not be decoded.
    Decoding(std::io::Error),
    /// The node rejected the query, with its words and its code.
    Format(String, u32),
    /// Hexadecimal text could not be read.
    FromHexError(hex::FromHexError),
    /// No block applies the transaction with this hash.
    BlockNotFound(crate::hash::Hash),
    /// No event belongs to the transaction with this hash.
    EventNotFound(crate::hash::Hash),
    /// A path into the event log could not be evaluated.
    JsonError(jsonpath_lib::JsonPathError),
    /// The voting power deltas add up to a negative number.
    NegativeVotingPowerDeltas(core::num::TryFromIntError),
    /// A JSON value has not the shape it should have.
    SerdeError(serde_json::Error),
    /// The total voting power is not set.
    UnsetVotingPower,
    /// The event kind is not recognised or not supported.
    UnsupportedTendermintEvent(EventError),
    /// The node could not be asked for the transaction.
    TxNotFound(tendermint_rpc::Error),
}

/// A `QueryError` as plain values: what the library holds itself by its
/// view, a cause that comes from elsewhere as it is.
pub enum QueryFailure {
    ABCIQueryError(tendermint_rpc::Error),
    ConversionError(core::num::ParseIntError),
    Decoding(std::io::Error),
    Format(Seq<char>, u32),
    FromHexError(hex::FromHexError),
    BlockNotFound(Seq<u8>),
    EventNotFound(Seq<u8>),
    JsonError(jsonpath_lib::JsonPathError),
    NegativeVotingPowerDeltas(core::num::TryFromIntError),
    SerdeError(serde_json::Error),
    UnsetVotingPower,
    UnsupportedTendermintEvent(Seq<char>),
    TxNotFound(tendermint_rpc::Error),
}

impl View for QueryError {
    type V = QueryFailure;

    open spec fn view(&self) -> QueryFailure {
        match self {
            QueryError::ABCIQueryError(e) => QueryFailure::ABCIQueryError(*e),
            QueryError::ConversionError(e) => QueryFailure::ConversionError(*e),
            QueryError::Decoding(e) => QueryFailure::Decoding(*e),
            QueryError::Format(message, code) => QueryFailure::Format(message@, *code),
            QueryError::FromHexError(e) => QueryFailure::FromHexError(*e),
            QueryError::BlockNotFound(hash) => QueryFailure::BlockNotFound(hash@),
            QueryError::EventNotFound(hash) => QueryFailure::EventNotFound(hash@),
            QueryError::JsonError(e) => QueryFailure::JsonError(*e),
            QueryError::NegativeVotingPowerDeltas(e) => QueryFailure::NegativeVotingPowerDeltas(*e),
            QueryError::SerdeError(e) => QueryFailure::SerdeError(*e),
            QueryError::UnsetVotingPower => QueryFailure::UnsetVotingPower,
            QueryError::UnsupportedTendermintEvent(e) => QueryFailure::UnsupportedTendermintEvent(
                e@,
            ),
            QueryError::TxNotFound(e) => QueryFailure::TxNotFound(*e),
        }
    }
}

/// Whether `text` is what `e` says of itself: a fixed sentence, followed
/// where the failure has a cause by what the cause says of itself.
pub open spec fn is_message_of(e: QueryError, text: Seq<char>) -> bool {
    match e {
        QueryError::ABCIQueryError(cause) => exists|shown: String|
            #[trigger] to_string_from_display_ensures::<tendermint_rpc::Error>(&cause, shown)
                && text == "Abci query failed: "@ + shown@,
        QueryError::ConversionError(cause) => exists|shown: String|
            #[trigger] to_string_from_display_ensures::<core::num::ParseIntError>(&cause, shown)
                && text == "Error while casting value from String "@ + shown@,
        QueryError::Decoding(cause) => exists|shown: String|
            #[trigger] to_string_from_display_ensures::<std::io::Error>(&cause, shown) && text
                == "Error decoding the value: "@ + shown@,
        QueryError::Format(message, code) => text == "Error in the query "@ + message@
            + " (error code "@ + decimal_digits(code as nat) + ")"@,
        QueryError::FromHexError(cause) => exists|shown: String|
            #[trigger] to_string_from_display_ensures::<hex::FromHexError>(&cause, shown) && text
                == "Couldn't decode hash from hex string: "@ + shown@,
        QueryError::BlockNotFound(hash) => text
            == "Unable to find a block applying the given transaction hash "@ + hex_text(hash@),
        QueryError::EventNotFound(hash) => text
            == "Unable to find the event corresponding to the given transaction hash "@
            + hex_text(hash@),
        QueryError::JsonError(_) => text == "Error with json path"@,
        QueryError::NegativeVotingPowerDeltas(_) => text
            == "The sum voting power deltas shouldn't be negative"@,
        QueryError::SerdeError(cause) => exists|shown: String|
            #[trigger] to_string_from_display_ensures::<serde_json::Error>(&cause, shown) && text
                == "Couldn't load from serde value: "@ + shown@,
        QueryError::UnsetVotingPower => text == "Total voting power should always be set"@,
        QueryError::UnsupportedTendermintEvent(e) => text == e.message(),
        QueryError::TxNotFound(_) => text == "Unable to query for transaction with given hash"@,
    }
}

impl QueryError {
    /// What the error says of itself.
    pub fn to_string(&self) -> (text: String)
        ensures
            is_message_of(*self, text@),
    {
        match self {
            QueryError::ABCIQueryError(cause) => {
                let shown = cause.to_string();
                "Abci query failed: ".to_owned().concat(shown.as_str())
            },
            QueryError::ConversionError(cause) => {
                let shown = cause.to_string();
                "Error while casting value from String ".to_owned().concat(shown.as_str())
            },
            QueryError::Decoding(cause) => {
                let shown = cause.to_string();
                "Error decoding the value: ".to_owned().concat(shown.as_str())
            },
            QueryError::Format(message, code) => {
                let mut text = "Error in the query ".to_owned();
                text.append(message.as_str());
                text.append(" (error code ");
                text.append(decimal_string(*code as u64).as_str());
                text.append(")");
                text
            },
            QueryError::FromHexError(cause) => {
                let shown = cause.to_string();
                "Couldn't decode hash from hex string: ".to_owned().concat(shown.as_str())
            },
            QueryError::BlockNotFound(hash) => {
                let mut text =
                    "Unable to find a block applying the given transaction hash ".to_owned();
                text.append(hash.to_string().as_str());
                text
            },
            QueryError::EventNotFound(hash) => {
                let mut text =
                    "Unable to find the event corresponding to the given transaction hash ".to_owned();
                text.append(hash.to_string().as_str());
                text
            },
            QueryError::JsonError(_) => "Error with json path".to_owned(),
            QueryError::NegativeVotingPowerDeltas(_) => {
                "The sum voting power deltas shouldn't be negative".to_owned()
            },
            QueryError::SerdeError(cause) => {
                let shown = cause.to_string();
                "Couldn't load from serde value: ".to_owned().concat(shown.as_str())
            },
            QueryError::UnsetVotingPower => "Total voting power should always be set".to_owned(),
            QueryError::UnsupportedTendermintEvent(e) => e.to_string(),
            QueryError::TxNotFound(_) => {
                "Unable to query for transaction with given hash".to_owned()
            },
        }
    }
}

/// A number that could not be read is a conversion error.
impl From<core::num::ParseIntError> for QueryError {
    fn from(e: core::num::ParseIntError) -> (error: QueryError) {
        QueryError::ConversionError(e)
    }
}

impl FromSpecImpl<core::num::ParseIntError> for QueryError {
    open spec fn obeys_from_spec() -> bool {
        true
    }

    open spec fn from_spec(e: core::num::ParseIntError) -> QueryError {
        QueryError::ConversionError(e)
    }
}

/// An I/O error is a decoding error.
impl From<std::io::Error> for QueryError {
    fn from(e: std::io::Error) -> (error: QueryError) {
        QueryError::Decoding(e)
    }
}

impl FromSpecImpl<std::io::Error> for QueryError {
    open spec fn obeys_from_spec() -> bool {
        true
    }

    open spec fn from_spec(e: std::io::Error) -> QueryError {
        QueryError::Decoding(e)
    }
}

/// A failure to read hexadecimal text is kept as such.
impl From<hex::FromHexError> for QueryError {
    fn from(e: hex::FromHexError) -> (error: QueryError) {
        QueryError::FromHexError(e)
    }
}

impl FromSpecImpl<hex::FromHexError> for QueryError {
    open spec fn obeys_from_spec() -> bool {
        true
    }

    open spec fn from_spec(e: hex::FromHexError) -> QueryError {
        QueryError::FromHexError(e)
    }
}

/// A failure of a JSON path is kept as such.
impl From<jsonpath_lib::JsonPathError> for QueryError {
    fn from(e: jsonpath_lib::JsonPathError) -> (error: QueryError) {
        QueryError::JsonError(e)
    }
}

impl FromSpecImpl<jsonpath_lib::JsonPathError> for QueryError {
    open spec fn obeys_from_spec() -> bool {
        true
    }

    open spec fn from_spec(e: jsonpath_lib::JsonPathError) -> QueryError {
        QueryError::JsonError(e)
    }
}

/// A sum that does not fit an unsigned number is a negative sum of voting power deltas.
impl From<core::num::TryFromIntError> for QueryError {
    fn from(e: core::num::TryFromIntError) -> (error: QueryError) {
        QueryError::NegativeVotingPowerDeltas(e)
    }
}

impl FromSpecImpl<core::num::TryFromIntError> for QueryError {
    open spec fn obeys_from_spec() -> bool {
        true
    }

    open spec fn from_spec(e: core::num::TryFromIntError) -> QueryError {
        QueryError::NegativeVotingPowerDeltas(e)
    }
}

/// A failure of `serde_json` is kept as such.
impl From<serde_json::Error> for QueryError {
    fn from(e: serde_json::Error) -> (error: QueryError) {
        QueryError::SerdeError(e)
    }
}

impl FromSpecImpl<serde_json::Error> for QueryError {
    open spec fn obeys_from_spec() -> bool {
        true
    }

    open spec fn from_spec(e: serde_json::Error) -> QueryError {
        QueryError::SerdeError(e)
    }
}

/// The name of an unsupported event kind is kept as such.
impl From<EventError> for QueryError {
    fn from(e: EventError) -> (error: QueryError) {
        QueryError::UnsupportedTendermintEvent(e)
    }
}

impl FromSpecImpl<EventError> for QueryError {
    open spec fn obeys_from_spec() -> bool {
        true
    }

    open spec fn from_spec(e: EventError) -> QueryError {
        QueryError::UnsupportedTendermintEvent(e)
    }
}

/// A failure of the transport means that the transaction was not found.
impl From<tendermint_rpc::Error> for QueryError {
    fn from(e: tendermint_rpc::Error) -> (error: QueryError) {
        QueryError::TxNotFound(e)
    }
}

impl FromSpecImpl<tendermint_rpc::Error> for QueryError {
    open spec fn obeys_from_spec() -> bool {
        true
    }

    open spec fn from_spec(e: tendermint_rpc::Error) -> QueryError {
        QueryError::TxNotFound(e)
    }
}

} // verus!
