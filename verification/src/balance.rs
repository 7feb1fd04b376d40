//! The result of a query for balances.

use crate::address::Address;
use crate::address_map::{
    distinct_keys, lemma_entry_added, lemma_entry_at, lemma_value_replaced, map_of, position, put,
    Entry,
};
use crate::token::Amount;
use vstd::prelude::*;

verus! {

/// The balances of one owner: an entry for each token.
pub type TokenBalances = Vec<Entry<Amount>>;

/// Whether no owner has two entries, and no token two entries under one
/// owner.
pub open spec fn distinct_owners(entries: Seq<Entry<TokenBalances>>) -> bool {
    &&& distinct_keys(entries)
    &&& forall|i: int| 0 <= i < entries.len() ==> distinct_keys((#[trigger] entries[i]).value@)
}

/// The balances that a list of entries stands for, by owner and by token.
pub open spec fn balances_of(entries: Seq<Entry<TokenBalances>>) -> Map<
    Seq<char>,
    Map<Seq<char>, Amount>,
> {
    map_of(entries).map_values(|tokens: TokenBalances| map_of(tokens@))
}

/// What a map of balances holds for `owner`: nothing, where it has no entry
/// for the owner.
pub open spec fn balances_under(
    balances: Map<Seq<char>, Map<Seq<char>, Amount>>,
    owner: Seq<char>,
) -> Map<Seq<char>, Amount> {
    if balances.contains_key(owner) {
        balances[owner]
    } else {
        Map::empty()
    }
}

/// Sets the balance of `token` under `owner`, in the owner's entry or in a
/// new one.
pub(crate) fn set_balance(
    entries: &mut Vec<Entry<TokenBalances>>,
    owner: Address,
    token: Address,
    balance: Amount,
)
    requires
        distinct_owners(old(entries)@),
    ensures
        distinct_owners(final(entries)@),
        balances_of(final(entries)@) == balances_of(old(entries)@).insert(
            owner@,
            balances_under(balances_of(old(entries)@), owner@).insert(token@, balance),
        ),
{
    let ghost before = entries@;
    let ghost inner = balances_under(balances_of(before), owner@).insert(token@, balance);
    match position(entries, &owner) {
        Some(i) => {
            proof {
                lemma_entry_at(before, i as int);
            }
            put(&mut entries[i].value, token, balance);
            proof {
                lemma_value_replaced(before, entries@, i as int);
                assert(balances_of(entries@) =~= balances_of(before).insert(owner@, inner));
            }
        },
        None => {
            let mut tokens: TokenBalances = Vec::new();
            assert(map_of(tokens@) =~= Map::empty());
            put(&mut tokens, token, balance);
            let entry = Entry { key: owner, value: tokens };
            proof {
                lemma_entry_added(before, entry);
                assert(balances_of(before.push(entry)) =~= balances_of(before).insert(
                    owner@,
                    inner,
                ));
            }
            entries.push(entry);
        },
    }
}

/// The balances that a query found: for each owner, the balance of each of
/// the owner's tokens. An owner, and a token under an owner, has one entry
/// at most; the entries stand in the order in which they came.
#[derive(Debug)]
pub struct BalanceQueryResult {
    entries: Vec<Entry<TokenBalances>>,
}

impl View for BalanceQueryResult {
    type V = Map<Seq<char>, Map<Seq<char>, Amount>>;

    closed spec fn view(&self) -> Map<Seq<char>, Map<Seq<char>, Amount>> {
        balances_of(self.entries@)
    }
}

impl BalanceQueryResult {
    #[verifier::type_invariant]
    spec fn well_formed(self) -> bool {
        distinct_owners(self.entries@)
    }

    /// A result without balances.
    pub fn new() -> (result: BalanceQueryResult)
        ensures
            result@ == Map::<Seq<char>, Map<Seq<char>, Amount>>::empty(),
    {
        let result = BalanceQueryResult { entries: Vec::new() };
        assert(result@ =~= Map::empty());
        result
    }

    /// Insert token balance for the given owner.
    pub fn insert(&mut self, owner: Address, token: Address, balance: Amount)
        ensures
            final(self)@ == old(self)@.insert(
                owner@,
                balances_under(old(self)@, owner@).insert(token@, balance),
            ),
    {
        proof {
            use_type_invariant(&*self);
        }
        let mut entries: Vec<Entry<TokenBalances>> = Vec::new();
        std::mem::swap(&mut entries, &mut self.entries);
        set_balance(&mut entries, owner, token, balance);
        self.entries = entries;
    }

    /// Get the token balance for the provided owner.
    pub fn get_balance(&self, owner: &Address, token: &Address) -> (r: Option<Amount>)
        ensures
            r == (if balances_under(self@, owner@).contains_key(token@) {
                Some(self@[owner@][token@])
            } else {
                None
            }),
    {
        proof {
            use_type_invariant(self);
        }
        match position(&self.entries, owner) {
            Some(i) => {
                proof {
                    lemma_entry_at(self.entries@, i as int);
                }
                match position(&self.entries[i].value, token) {
                    Some(j) => {
                        proof {
                            lemma_entry_at(self.entries@[i as int].value@, j as int);
                        }
                        Some(self.entries[i].value[j].value)
                    },
                    None => None,
                }
            },
            None => None,
        }
    }

    /// Whether the result holds no owner.
    pub fn is_empty(&self) -> (empty: bool)
        ensures
            empty == (self@ == Map::<Seq<char>, Map<Seq<char>, Amount>>::empty()),
    {
        proof {
            use_type_invariant(self);
            if self.entries@.len() > 0 {
                lemma_entry_at(self.entries@, 0);
                assert(self@.contains_key(self.entries@[0].key@));
            } else {
                assert(self@ =~= Map::empty());
            }
        }
        self.entries.len() == 0
    }

    /// The entries of the result, owner by owner, in the order in which the
    /// owners came.
    pub fn entries(&self) -> (entries: &Vec<Entry<TokenBalances>>)
        ensures
            distinct_owners(entries@),
            balances_of(entries@) == self@,
    {
        proof {
            use_type_invariant(self);
        }
        &self.entries
    }
}

impl Default for BalanceQueryResult {
    fn default() -> (result: BalanceQueryResult)
        ensures
            result@ == Map::<Seq<char>, Map<Seq<char>, Amount>>::empty(),
    {
        BalanceQueryResult::new()
    }
}

} // verus!
