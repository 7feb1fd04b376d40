use rpc_types::event::{EventError, EventSupport, TendermintEventType};
use rpc_types::event_log::{event_path_string, EventField};
use rpc_types::text::{decimal_string, str_eq};

#[test]
fn kinds_have_fixed_names() {
    assert_eq!(TendermintEventType::Accepted.as_str(), "accepted");
    assert_eq!(TendermintEventType::Applied.as_str(), "applied");
    assert_eq!(TendermintEventType::Applied.to_string(), "applied");
    let name: &str = TendermintEventType::Accepted.into();
    assert_eq!(name, "accepted");
    assert_eq!(<&str>::from(TendermintEventType::Applied), "applied");
}

#[test]
fn names_are_read_back() {
    assert_eq!(
        TendermintEventType::try_from("applied", EventSupport::applied_only()).unwrap(),
        TendermintEventType::Applied
    );
    assert_eq!(
        TendermintEventType::try_from("applied", EventSupport::all()).unwrap(),
        TendermintEventType::Applied
    );
    assert_eq!(
        TendermintEventType::try_from("accepted", EventSupport::all()).unwrap(),
        TendermintEventType::Accepted
    );
}

#[test]
fn other_names_are_errors() {
    let EventError(name) =
        TendermintEventType::try_from("accepted", EventSupport::applied_only()).unwrap_err();
    assert_eq!(name, "accepted");
    let EventError(name) = TendermintEventType::try_from("Applied", EventSupport::all()).unwrap_err();
    assert_eq!(name, "Applied");
    let EventError(name) = TendermintEventType::try_from("", EventSupport::all()).unwrap_err();
    assert_eq!(name, "");
}

#[test]
fn slots_have_paths() {
    assert_eq!(
        event_path_string(TendermintEventType::Applied, EventField::Hash, 0),
        "$.events.['applied.hash'][0]"
    );
    assert_eq!(
        event_path_string(TendermintEventType::Accepted, EventField::GasUsed, 12),
        "$.events.['accepted.gas_used'][12]"
    );
    assert_eq!(
        event_path_string(TendermintEventType::Applied, EventField::InitializedAccounts, 4294967295),
        "$.events.['applied.initialized_accounts'][4294967295]"
    );
    assert_eq!(EventField::Info.as_str(), "info");
    assert_eq!(EventField::Height.as_str(), "height");
    assert_eq!(EventField::Code.as_str(), "code");
}

#[test]
fn numbers_are_written_in_decimal() {
    assert_eq!(decimal_string(0), "0");
    assert_eq!(decimal_string(7), "7");
    assert_eq!(decimal_string(10), "10");
    assert_eq!(decimal_string(1203), "1203");
    assert_eq!(decimal_string(4294967295), "4294967295");
    assert_eq!(decimal_string(u64::MAX), "18446744073709551615");
}

#[test]
fn strings_are_compared_by_characters() {
    assert!(str_eq("", ""));
    assert!(str_eq("abc", "abc"));
    assert!(!str_eq("abc", "abd"));
    assert!(!str_eq("abc", "ab"));
}
