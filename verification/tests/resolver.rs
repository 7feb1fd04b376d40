use rpc_types::error::QueryError;
use rpc_types::event::{EventSupport, TendermintEventType};
use rpc_types::event_log::{read_slot, EventField, SlotContent};
use rpc_types::storage::BlockHeight;
use rpc_types::tx::{search, search_step, Searched, Step, TxResponse};

const H1: &str = "h1";
const H2: &str = "h2";
const ABSENT: &str = "hZZZ";
const LONG: &str = "00112233445566778899AABBCCDDEEFF00112233445566778899aabbccddeeff";

fn log(extra: &str) -> serde_json::Value {
    let text = format!(
        "{{\"events\": {{\
            \"applied.hash\": [\"{}\", \"{}\"],\
            \"applied.info\": [\"i1\", \"i2\"],\
            \"applied.height\": [\"1\", \"2\"],\
            \"applied.code\": [\"0\", \"1\"],\
            \"applied.gas_used\": [\"10\", \"20\"]{}\
        }}}}",
        H1, H2, extra
    );
    serde_json::from_str(&text).unwrap()
}

#[test]
fn fields_are_read_at_the_index_of_the_hash() {
    let found = TxResponse::find_tx(log(""), "applied", H2, EventSupport::applied_only()).unwrap();
    assert_eq!(found.info, "i2");
    assert_eq!(found.height, BlockHeight(2));
    assert_eq!(found.code, 1);
    assert_eq!(found.gas_used, 20);
    assert_eq!(found.hash.0, b"h2".to_vec());
    assert!(found.initialized_accounts.is_empty());
}

#[test]
fn first_event_is_found_too() {
    let found = TxResponse::find_tx(log(""), "applied", H1, EventSupport::all()).unwrap();
    assert_eq!(found.info, "i1");
    assert_eq!(found.height, BlockHeight(1));
    assert_eq!(found.code, 0);
    assert_eq!(found.gas_used, 10);
    assert_eq!(found.hash.0, vec![0x68, 0x31]);
}

#[test]
fn nested_accounts_are_decoded_twice() {
    let doc = log(", \"applied.initialized_accounts\": [\"[\\\"addr1\\\",\\\"addr2\\\"]\"]");
    let found = TxResponse::find_tx(doc, "applied", H1, EventSupport::applied_only()).unwrap();
    let accounts: Vec<&str> = found.initialized_accounts.iter().map(|a| a.as_str()).collect();
    assert_eq!(accounts, vec!["addr1", "addr2"]);
}

#[test]
fn accounts_are_optional_at_a_later_index() {
    let doc = log(", \"applied.initialized_accounts\": [\"[\\\"addr1\\\",\\\"addr2\\\"]\"]");
    let found = TxResponse::find_tx(doc, "applied", H2, EventSupport::applied_only()).unwrap();
    assert!(found.initialized_accounts.is_empty());
}

#[test]
fn unknown_hash_is_not_found() {
    let r = TxResponse::find_tx(log(""), "applied", ABSENT, EventSupport::applied_only());
    match r {
        Err(QueryError::EventNotFound(hash)) => assert_eq!(hash.0, b"hZZZ".to_vec()),
        other => panic!("unexpected: {:?}", other),
    }
}

#[test]
fn log_without_hashes_has_no_block() {
    let doc: serde_json::Value = serde_json::from_str("{\"events\": {}}").unwrap();
    let r = TxResponse::find_tx(doc, "applied", ABSENT, EventSupport::applied_only());
    match r {
        Err(QueryError::BlockNotFound(hash)) => assert_eq!(hash.0, b"hZZZ".to_vec()),
        other => panic!("unexpected: {:?}", other),
    }
    let empty: serde_json::Value =
        serde_json::from_str("{\"events\": {\"applied.hash\": []}}").unwrap();
    let r = TxResponse::find_tx(empty, "applied", ABSENT, EventSupport::applied_only());
    assert!(matches!(r, Err(QueryError::BlockNotFound(_))));
    let not_a_log: serde_json::Value = serde_json::from_str("17").unwrap();
    let r = TxResponse::find_tx(not_a_log, "applied", ABSENT, EventSupport::applied_only());
    assert!(matches!(r, Err(QueryError::BlockNotFound(_))));
}

#[test]
fn any_text_that_is_absent_is_not_found() {
    for text in ["", " ", "h", "H2", "h2 ", LONG, "ключ", "not a hash at all"] {
        let r = TxResponse::find_tx(log(""), "applied", text, EventSupport::applied_only());
        match r {
            Err(QueryError::EventNotFound(hash)) => assert_eq!(hash.0, text.as_bytes().to_vec()),
            other => panic!("unexpected for {:?}: {:?}", text, other),
        }
    }
}

#[test]
fn unsupported_category_is_rejected() {
    let r = TxResponse::find_tx(log(""), "bogus", H1, EventSupport::all());
    match r {
        Err(QueryError::UnsupportedTendermintEvent(e)) => assert_eq!(e.0, "bogus"),
        other => panic!("unexpected: {:?}", other),
    }
    let not_a_log: serde_json::Value = serde_json::from_str("17").unwrap();
    let r = TxResponse::find_tx(not_a_log, "bogus", H1, EventSupport::all());
    assert!(matches!(r, Err(QueryError::UnsupportedTendermintEvent(_))));
}

#[test]
fn accepted_needs_support() {
    let r = TxResponse::find_tx(log(""), "accepted", H1, EventSupport::applied_only());
    match r {
        Err(QueryError::UnsupportedTendermintEvent(e)) => assert_eq!(e.0, "accepted"),
        other => panic!("unexpected: {:?}", other),
    }
    let r = TxResponse::find_tx(log(""), "accepted", H1, EventSupport::all());
    assert!(matches!(r, Err(QueryError::BlockNotFound(_))));
}

#[test]
fn code_that_is_no_number_fails() {
    let text = format!(
        "{{\"events\": {{\
            \"applied.hash\": [\"{}\"],\
            \"applied.info\": [\"i1\"],\
            \"applied.height\": [\"1\"],\
            \"applied.code\": [\"not_a_number\"],\
            \"applied.gas_used\": [\"10\"]\
        }}}}",
        H1
    );
    let doc: serde_json::Value = serde_json::from_str(&text).unwrap();
    let r = TxResponse::find_tx(doc, "applied", H1, EventSupport::applied_only());
    assert!(matches!(r, Err(QueryError::ConversionError(_))));
}

fn log_of(hashes: &str, infos: &str, heights: &str, codes: &str, gas: &str) -> serde_json::Value {
    let text = format!(
        "{{\"events\": {{\
            \"applied.hash\": {},\
            \"applied.info\": {},\
            \"applied.height\": {},\
            \"applied.code\": {},\
            \"applied.gas_used\": {}\
        }}}}",
        hashes, infos, heights, codes, gas
    );
    serde_json::from_str(&text).unwrap()
}

#[test]
fn long_hashes_are_found_like_short_ones() {
    let doc = log_of(
        &format!("[\"h1\", \"{}\"]", LONG),
        "[\"i1\", \"i2\"]",
        "[\"1\", \"2\"]",
        "[\"0\", \"1\"]",
        "[\"10\", \"20\"]",
    );
    assert_eq!(search(&doc, TendermintEventType::Applied, LONG).unwrap(), Searched::Found(1));
    let found = TxResponse::find_tx(doc, "applied", LONG, EventSupport::applied_only()).unwrap();
    assert_eq!(found.info, "i2");
    assert_eq!(found.hash.0, LONG.as_bytes().to_vec());
    assert_eq!(found.hash.0.len(), 64);
}

#[test]
fn each_slot_decides_one_step() {
    let text = |t: &str| SlotContent::Text(t.to_string());
    let other = || SlotContent::Other(serde_json::from_str::<String>("1").unwrap_err());
    assert_eq!(search_step(&SlotContent::Empty, "h", 0), Step::NoCandidates);
    assert_eq!(search_step(&SlotContent::Empty, "h", 1), Step::NoMatch);
    assert_eq!(search_step(&SlotContent::Empty, "h", u32::MAX), Step::NoMatch);
    assert_eq!(search_step(&text("h"), "h", 0), Step::Found);
    assert_eq!(search_step(&text("h"), "h", 7), Step::Found);
    assert_eq!(search_step(&text("h"), "h", u32::MAX), Step::Found);
    assert_eq!(search_step(&text("g"), "h", 0), Step::Next);
    assert_eq!(search_step(&text("H"), "h", 7), Step::Next);
    assert_eq!(search_step(&text(""), "h", u32::MAX - 1), Step::Next);
    assert_eq!(search_step(&text("g"), "h", u32::MAX), Step::NoMatch);
    assert_eq!(search_step(&other(), "h", 0), Step::Next);
    assert_eq!(search_step(&other(), "h", u32::MAX), Step::NoMatch);
}

#[test]
fn search_stops_at_the_first_match() {
    let doc = log_of(
        &format!("[\"{}\", \"{}\", \"{}\"]", H1, H2, H2),
        "[\"i1\", \"i2\", \"i3\"]",
        "[\"1\", \"2\", \"3\"]",
        "[\"0\", \"1\", \"2\"]",
        "[\"10\", \"20\", \"30\"]",
    );
    assert_eq!(search(&doc, TendermintEventType::Applied, H1).unwrap(), Searched::Found(0));
    assert_eq!(search(&doc, TendermintEventType::Applied, H2).unwrap(), Searched::Found(1));
    assert_eq!(search(&doc, TendermintEventType::Applied, ABSENT).unwrap(), Searched::NoMatch);
    assert_eq!(
        search(&doc, TendermintEventType::Accepted, H1).unwrap(),
        Searched::NoCandidates
    );
    let found = TxResponse::find_tx(doc, "applied", H2, EventSupport::applied_only()).unwrap();
    assert_eq!(found.info, "i2");
}

#[test]
fn values_that_are_no_strings_are_passed_over() {
    let doc = log_of(
        &format!("[17, null, \"{}\"]", H1),
        "[\"i1\", \"i2\", \"i3\"]",
        "[\"1\", \"2\", \"3\"]",
        "[\"0\", \"1\", \"2\"]",
        "[\"10\", \"20\", \"30\"]",
    );
    assert_eq!(search(&doc, TendermintEventType::Applied, H1).unwrap(), Searched::Found(2));
    let found = TxResponse::find_tx(doc, "applied", H1, EventSupport::applied_only()).unwrap();
    assert_eq!(found.info, "i3");
    assert_eq!(found.height, BlockHeight(3));
    assert_eq!(found.code, 2);
    assert_eq!(found.gas_used, 30);
}

#[test]
fn slots_are_empty_text_or_other() {
    let doc = log_of("[\"x\", 5]", "[]", "[]", "[]", "[]");
    let kind = TendermintEventType::Applied;
    match read_slot(&doc, kind, EventField::Hash, 0).unwrap() {
        SlotContent::Text(text) => assert_eq!(text, "x"),
        _ => panic!("a string was expected"),
    }
    assert!(matches!(
        read_slot(&doc, kind, EventField::Hash, 1).unwrap(),
        SlotContent::Other(_)
    ));
    assert!(matches!(
        read_slot(&doc, kind, EventField::Hash, 2).unwrap(),
        SlotContent::Empty
    ));
    assert!(matches!(
        read_slot(&doc, kind, EventField::Info, 0).unwrap(),
        SlotContent::Empty
    ));
    assert!(matches!(
        read_slot(&doc, kind, EventField::InitializedAccounts, 0).unwrap(),
        SlotContent::Empty
    ));
    assert!(matches!(
        read_slot(&doc, TendermintEventType::Accepted, EventField::Hash, 0).unwrap(),
        SlotContent::Empty
    ));
}

#[test]
fn missing_field_means_missing_event() {
    let doc = log_of(
        &format!("[\"{}\", \"{}\"]", H1, H2),
        "[\"i1\"]",
        "[\"1\", \"2\"]",
        "[\"0\", \"1\"]",
        "[\"10\", \"20\"]",
    );
    let r = TxResponse::find_tx(doc, "applied", H2, EventSupport::applied_only());
    match r {
        Err(QueryError::EventNotFound(hash)) => assert_eq!(hash.0, b"h2".to_vec()),
        other => panic!("unexpected: {:?}", other),
    }
}

#[test]
fn field_that_is_no_string_is_malformed() {
    let doc = log_of(
        &format!("[\"{}\"]", H1),
        "[\"i1\"]",
        "[1]",
        "[\"0\"]",
        "[\"10\"]",
    );
    let r = TxResponse::find_tx(doc, "applied", H1, EventSupport::applied_only());
    assert!(matches!(r, Err(QueryError::SerdeError(_))));
}

#[test]
fn slots_fail_before_texts() {
    let doc = log_of(
        &format!("[\"{}\"]", H1),
        "[\"i1\"]",
        "[\"not a height\"]",
        "[\"0\"]",
        "[10]",
    );
    let r = TxResponse::find_tx(doc, "applied", H1, EventSupport::applied_only());
    assert!(matches!(r, Err(QueryError::SerdeError(_))));
}

#[test]
fn malformed_accounts_fail() {
    let not_a_list = log(", \"applied.initialized_accounts\": [\"addr1\"]");
    let r = TxResponse::find_tx(not_a_list, "applied", H1, EventSupport::applied_only());
    assert!(matches!(r, Err(QueryError::SerdeError(_))));
    let not_strings = log(", \"applied.initialized_accounts\": [\"[1, 2]\"]");
    let r = TxResponse::find_tx(not_strings, "applied", H1, EventSupport::applied_only());
    assert!(matches!(r, Err(QueryError::SerdeError(_))));
    let not_a_string = log(", \"applied.initialized_accounts\": [[\"addr1\"]]");
    let r = TxResponse::find_tx(not_a_string, "applied", H1, EventSupport::applied_only());
    assert!(matches!(r, Err(QueryError::SerdeError(_))));
    let empty_list = log(", \"applied.initialized_accounts\": [\"[]\"]");
    let found = TxResponse::find_tx(empty_list, "applied", H1, EventSupport::applied_only());
    assert!(found.unwrap().initialized_accounts.is_empty());
}

#[test]
fn height_and_gas_that_are_no_numbers_fail() {
    let doc = log_of(&format!("[\"{}\"]", H1), "[\"i\"]", "[\"-1\"]", "[\"0\"]", "[\"1\"]");
    let r = TxResponse::find_tx(doc, "applied", H1, EventSupport::applied_only());
    assert!(matches!(r, Err(QueryError::ConversionError(_))));
    let doc = log_of(&format!("[\"{}\"]", H1), "[\"i\"]", "[\"1\"]", "[\"0\"]", "[\"1.5\"]");
    let r = TxResponse::find_tx(doc, "applied", H1, EventSupport::applied_only());
    assert!(matches!(r, Err(QueryError::ConversionError(_))));
    let doc = log_of(&format!("[\"{}\"]", H1), "[\"i\"]", "[\"1\"]", "[\"256\"]", "[\"1\"]");
    let r = TxResponse::find_tx(doc, "applied", H1, EventSupport::applied_only());
    assert!(matches!(r, Err(QueryError::ConversionError(_))));
}
