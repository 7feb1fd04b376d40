use rpc_types::path::{Path, PathParseError};
use rpc_types::storage::{Key, KeyError};

fn key(text: &str) -> Key {
    Key::parse(text).unwrap()
}

#[test]
fn paths_are_written_as_word_and_key() {
    assert_eq!(Path::DryRunTx.to_string(), "dry_run_tx");
    assert_eq!(Path::Epoch.to_string(), "epoch");
    assert_eq!(Path::Value(key("a/b")).to_string(), "value/a/b");
    assert_eq!(Path::Prefix(key("#addr/balance")).to_string(), "prefix/#addr/balance");
    assert_eq!(Path::HasKey(key("x.y-z_0")).to_string(), "has_key/x.y-z_0");
}

#[test]
fn paths_round_trip() {
    let paths = vec![
        Path::DryRunTx,
        Path::Epoch,
        Path::Value(key("a")),
        Path::Value(key("a/b/c")),
        Path::Prefix(key("#addr/balance/token")),
        Path::HasKey(key("x.y-z_0/1")),
    ];
    for path in paths {
        let text = path.to_string();
        let back = Path::from_str(&text).unwrap();
        assert_eq!(back.to_string(), text);
        match (&path, &back) {
            (Path::DryRunTx, Path::DryRunTx) => {}
            (Path::Epoch, Path::Epoch) => {}
            (Path::Value(a), Path::Value(b)) => assert_eq!(a.as_str(), b.as_str()),
            (Path::Prefix(a), Path::Prefix(b)) => assert_eq!(a.as_str(), b.as_str()),
            (Path::HasKey(a), Path::HasKey(b)) => assert_eq!(a.as_str(), b.as_str()),
            other => panic!("another kind of path came back: {:?}", other),
        }
    }
}

#[test]
fn key_with_uppercase_comes_back_folded() {
    let path = Path::Value(key("Abc/D"));
    assert_eq!(path.to_string(), "value/Abc/D");
    match Path::from_str(&path.to_string()).unwrap() {
        Path::Value(k) => assert_eq!(k.as_str(), "abc/d"),
        other => panic!("unexpected: {:?}", other),
    }
}

#[test]
fn case_is_ignored() {
    let upper = Path::from_str("VALUE/some/key").unwrap();
    let lower = Path::from_str("value/some/key").unwrap();
    assert_eq!(upper.to_string(), "value/some/key");
    assert_eq!(lower.to_string(), "value/some/key");
    assert!(matches!(Path::from_str("Dry_Run_Tx"), Ok(Path::DryRunTx)));
    assert!(matches!(Path::from_str("EPOCH"), Ok(Path::Epoch)));
    assert!(matches!(Path::from_str("PreFix/k"), Ok(Path::Prefix(_))));
    assert!(matches!(Path::from_str("HAS_KEY/k"), Ok(Path::HasKey(_))));
}

#[test]
fn paths_are_parsed_from_strings() {
    assert!(matches!("epoch".parse::<Path>(), Ok(Path::Epoch)));
    assert!(matches!("nope".parse::<Path>(), Err(PathParseError::InvalidPath(_))));
}

#[test]
fn only_the_first_slash_cuts() {
    match Path::from_str("prefix/a/b/c").unwrap() {
        Path::Prefix(k) => assert_eq!(k.as_str(), "a/b/c"),
        other => panic!("unexpected: {:?}", other),
    }
    match Path::from_str("value/value/epoch").unwrap() {
        Path::Value(k) => assert_eq!(k.as_str(), "value/epoch"),
        other => panic!("unexpected: {:?}", other),
    }
}

#[test]
fn other_shapes_are_rejected() {
    match Path::from_str("unknown_segment") {
        Err(PathParseError::InvalidPath(text)) => assert_eq!(text, "unknown_segment"),
        other => panic!("unexpected: {:?}", other),
    }
    match Path::from_str("value_no_slash") {
        Err(PathParseError::InvalidPath(text)) => assert_eq!(text, "value_no_slash"),
        other => panic!("unexpected: {:?}", other),
    }
    assert!(matches!(Path::from_str(""), Err(PathParseError::InvalidPath(_))));
    assert!(matches!(Path::from_str("value"), Err(PathParseError::InvalidPath(_))));
    assert!(matches!(Path::from_str("/value/k"), Err(PathParseError::InvalidPath(_))));
    assert!(matches!(Path::from_str("values/k"), Err(PathParseError::InvalidPath(_))));
    assert!(matches!(Path::from_str("epoch/k"), Err(PathParseError::InvalidPath(_))));
    assert!(matches!(Path::from_str("epoch "), Err(PathParseError::InvalidPath(_))));
}

#[test]
fn rejected_text_is_carried_as_given() {
    match Path::from_str("Unknown/Thing") {
        Err(PathParseError::InvalidPath(text)) => assert_eq!(text, "Unknown/Thing"),
        other => panic!("unexpected: {:?}", other),
    }
}

#[test]
fn bad_key_is_a_key_error() {
    match Path::from_str("value/not-a-key!!") {
        Err(PathParseError::InvalidStorageKey(e)) => assert_eq!(e, KeyError::InvalidCharacter(9)),
        other => panic!("unexpected: {:?}", other),
    }
    match Path::from_str("has_key/") {
        Err(PathParseError::InvalidStorageKey(e)) => assert_eq!(e, KeyError::EmptySegment(0)),
        other => panic!("unexpected: {:?}", other),
    }
    match Path::from_str("prefix/a//b") {
        Err(PathParseError::InvalidStorageKey(e)) => assert_eq!(e, KeyError::EmptySegment(2)),
        other => panic!("unexpected: {:?}", other),
    }
}

#[test]
fn folded_text_decides_and_original_is_carried() {
    assert!(matches!(Path::parse_folded("EPOCH", "epoch"), Ok(Path::Epoch)));
    assert!(matches!(Path::parse_folded("epoch", "EPOCH"), Err(PathParseError::InvalidPath(_))));
    match Path::parse_folded("Given", "folded") {
        Err(PathParseError::InvalidPath(text)) => assert_eq!(text, "Given"),
        other => panic!("unexpected: {:?}", other),
    }
}

#[test]
fn keys_are_segments_joined_by_slashes() {
    assert_eq!(key("a").as_str(), "a");
    assert_eq!(key("A/b/#c").to_string(), "A/b/#c");
    assert_eq!(Key::parse("").unwrap_err(), KeyError::EmptySegment(0));
    assert_eq!(Key::parse("/a").unwrap_err(), KeyError::EmptySegment(0));
    assert_eq!(Key::parse("a/").unwrap_err(), KeyError::EmptySegment(2));
    assert_eq!(Key::parse("a//b").unwrap_err(), KeyError::EmptySegment(2));
    assert_eq!(Key::parse("a b").unwrap_err(), KeyError::InvalidCharacter(1));
    assert_eq!(Key::parse("ab/c?").unwrap_err(), KeyError::InvalidCharacter(4));
    assert_eq!(Key::parse("é").unwrap_err(), KeyError::InvalidCharacter(0));
    assert_eq!(Key::parse("aé/").unwrap_err(), KeyError::InvalidCharacter(1));
    assert_eq!(Key::parse("a!/").unwrap_err(), KeyError::InvalidCharacter(1));
    assert_eq!(key("a/b").clone().as_str(), "a/b");
}
