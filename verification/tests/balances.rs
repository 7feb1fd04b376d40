use rpc_types::address::Address;
use rpc_types::balance::BalanceQueryResult;
use rpc_types::bond::BondQueryResult;
use rpc_types::slash::{Slash, SlashQueryResult, SlashType};
use rpc_types::token::Amount;

fn addr(text: &str) -> Address {
    Address::new(text.to_string())
}

#[test]
fn inserted_balance_is_found() {
    let mut result = BalanceQueryResult::new();
    assert!(result.is_empty());
    assert_eq!(result.get_balance(&addr("owner"), &addr("token")), None);
    result.insert(addr("owner"), addr("token"), Amount::from_micro(5));
    assert!(!result.is_empty());
    assert_eq!(result.get_balance(&addr("owner"), &addr("token")), Some(Amount::from_micro(5)));
    assert_eq!(result.get_balance(&addr("owner"), &addr("other")), None);
    assert_eq!(result.get_balance(&addr("other"), &addr("token")), None);
}

#[test]
fn later_balance_replaces_earlier() {
    let mut result = BalanceQueryResult::default();
    result.insert(addr("o1"), addr("t1"), Amount::from_micro(1));
    result.insert(addr("o1"), addr("t2"), Amount::from_micro(2));
    result.insert(addr("o2"), addr("t1"), Amount::from_micro(3));
    result.insert(addr("o1"), addr("t1"), Amount::from_micro(4));
    assert_eq!(result.get_balance(&addr("o1"), &addr("t1")), Some(Amount::from_micro(4)));
    assert_eq!(result.get_balance(&addr("o1"), &addr("t2")), Some(Amount::from_micro(2)));
    assert_eq!(result.get_balance(&addr("o2"), &addr("t1")), Some(Amount::from_micro(3)));
    assert_eq!(result.get_balance(&addr("o2"), &addr("t2")), None);
    let entries = result.entries();
    assert_eq!(entries.len(), 2);
    assert_eq!(entries[0].key.as_str(), "o1");
    assert_eq!(entries[0].value.len(), 2);
    assert_eq!(entries[0].value[0].key.as_str(), "t1");
    assert_eq!(entries[0].value[0].value, Amount::from_micro(4));
    assert_eq!(entries[0].value[1].key.as_str(), "t2");
    assert_eq!(entries[1].key.as_str(), "o2");
    assert_eq!(entries[1].value.len(), 1);
}

#[test]
fn addresses_are_compared_as_written() {
    assert!(addr("a").same_as(&addr("a")));
    assert!(!addr("a").same_as(&addr("A")));
    assert_eq!(addr("abc").clone().as_str(), "abc");
}

#[test]
fn bonds_start_at_zero() {
    let bonds = BondQueryResult::default();
    assert_eq!(bonds.bonds, Amount::from_micro(0));
    assert_eq!(bonds.active, Amount::default());
    assert_eq!(bonds.unbonds.micro, 0);
    assert_eq!(bonds.withdrawable.micro, 0);
}

#[test]
fn slashes_are_kept_by_validator() {
    let slash = Slash { epoch: 3, block_height: 40, kind: SlashType::DuplicateVote, rate: 500 };
    let other = Slash { epoch: 4, block_height: 50, kind: SlashType::LightClientAttack, rate: 1 };
    let mut result = SlashQueryResult::default();
    assert!(result.is_empty());
    assert!(result.get(&addr("v1")).is_none());
    result.insert(addr("v1"), vec![slash]);
    result.insert(addr("v2"), vec![]);
    assert!(!result.is_empty());
    assert_eq!(result.get(&addr("v1")), Some(&vec![slash]));
    assert_eq!(result.get(&addr("v2")), Some(&vec![]));
    result.insert(addr("v1"), vec![other, slash]);
    assert_eq!(result.get(&addr("v1")), Some(&vec![other, slash]));
    assert_eq!(result.entries().len(), 2);
    assert_eq!(result.entries()[0].key.as_str(), "v1");
    assert!(SlashQueryResult::new().is_empty());
}
