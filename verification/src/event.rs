//! The kinds of transaction events that a node publishes.

use crate::text::str_eq;
use vstd::prelude::*;
use vstd::std_specs::convert::FromSpecImpl;
use vstd::string::*;

verus! {

/// The stage of a transaction's life that an event reports.
#[derive(Clone, Copy, Debug, PartialEq, Eq, Structural)]
pub enum TendermintEventType {
    /// Published before the block is committed; only some nodes do so.
    Accepted,
    /// Published once the transaction has been applied; always available.
    Applied,
}

/// Which event kinds the node in use can publish.
#[derive(Clone, Copy, Debug, PartialEq, Eq, Structural)]
pub struct EventSupport {
    /// Whether the node publishes `Accepted` events.
    pub accepted: bool,
}

/// The name of an event kind that is not recognised, or not supported by
/// the node in use.
#[derive(Clone, Debug)]
pub struct EventError(pub String);

impl View for EventError {
    type V = Seq<char>;

    open spec fn view(&self) -> Seq<char> {
        self.0@
    }
}

impl EventError {
    /// What the error says of itself.
    pub open spec fn message(self) -> Seq<char> {
        "Unsupported Tendermint event "@ + self@
    }

    /// What the error says of itself.
    pub fn to_string(&self) -> (text: String)
        ensures
            text@ == self.message(),
    {
        "Unsupported Tendermint event ".to_owned().concat(self.0.as_str())
    }
}

impl EventSupport {
    /// A node that publishes both kinds of event.
    pub fn all() -> (support: EventSupport)
        ensures
            support.accepted,
    {
        EventSupport { accepted: true }
    }

    /// A node that publishes `Applied` events only.
    pub fn applied_only() -> (support: EventSupport)
        ensures
            !support.accepted,
    {
        EventSupport { accepted: false }
    }
}

impl TendermintEventType {
    /// The fixed lowercase name of the kind.
    pub open spec fn name(self) -> Seq<char> {
        match self {
            TendermintEventType::Accepted => "accepted"@,
            TendermintEventType::Applied => "applied"@,
        }
    }

    /// The kind that `value` names under `support`, if any: `applied`
    /// always, `accepted` only where the node supports it.
    pub open spec fn named(value: Seq<char>, support: EventSupport) -> Option<TendermintEventType> {
        if support.accepted && value == "accepted"@ {
            Some(TendermintEventType::Accepted)
        } else if value == "applied"@ {
            Some(TendermintEventType::Applied)
        } else {
            None
        }
    }

    /// The name of the kind.
    pub fn as_str(self) -> (name: &'static str)
        ensures
            name@ == self.name(),
    {
        match self {
            TendermintEventType::Accepted => "accepted",
            TendermintEventType::Applied => "applied",
        }
    }

    /// The name of the kind, as an owned string.
    pub fn to_string(&self) -> (name: String)
        ensures
            name@ == self.name(),
    {
        self.as_str().to_owned()
    }

    /// Reads the name of an event kind. Any text other than the names that
    /// `support` admits is handed back in the error.
    pub fn try_from(value: &str, support: EventSupport) -> (r: Result<
        TendermintEventType,
        EventError,
    >)
        ensures
            match TendermintEventType::named(value@, support) {
                Some(kind) => r == Ok::<TendermintEventType, EventError>(kind),
                None => r matches Err(e) && e@ == value@,
            },
    {
        if support.accepted && str_eq(value, "accepted") {
            Ok(TendermintEventType::Accepted)
        } else if str_eq(value, "applied") {
            Ok(TendermintEventType::Applied)
        } else {
            Err(EventError(value.to_owned()))
        }
    }
}

impl From<TendermintEventType> for &str {
    fn from(item: TendermintEventType) -> (name: &'static str) {
        match item {
            TendermintEventType::Accepted => "accepted",
            TendermintEventType::Applied => "applied",
        }
    }
}

impl FromSpecImpl<TendermintEventType> for &str {
    open spec fn obeys_from_spec() -> bool {
        true
    }

    open spec fn from_spec(item: TendermintEventType) -> &'static str {
        match item {
            TendermintEventType::Accepted => "accepted",
            TendermintEventType::Applied => "applied",
        }
    }
}

/// Every kind is read back from its own name, wherever it is supported.
pub proof fn lemma_name_is_read_back(kind: TendermintEventType, support: EventSupport)
    requires
        kind == TendermintEventType::Accepted ==> support.accepted,
    ensures
        TendermintEventType::named(kind.name(), support) == Some(kind),
{
    reveal_strlit("accepted");
    reveal_strlit("applied");
    assert("accepted"@.len() != "applied"@.len());
}

} // verus!
