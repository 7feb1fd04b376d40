//! The result of a query for slashes.

use crate::address::Address;
use crate::address_map::{distinct_keys, lemma_entry_at, map_of, position, put, Entry};
use vstd::prelude::*;

verus! {

/// The misbehaviour that a validator is slashed for.
#[derive(Clone, Copy, Debug, PartialEq, Eq, Structural)]
pub enum SlashType {
    /// The validator signed two blocks at one height.
    DuplicateVote,
    /// The validator took part in an attack on light clients.
    LightClientAttack,
}

/// One slash of a validator.
#[derive(Clone, Copy, Debug, PartialEq, Eq, Structural)]
pub struct Slash {
    /// The epoch of the misbehaviour.
    pub epoch: u64,
    /// The height of the block of the misbehaviour.
    pub block_height: u64,
    /// The kind of misbehaviour.
    pub kind: SlashType,
    /// The rate of the slash, in basis points.
    pub rate: u64,
}

/// The slashes that a list of entries stands for, by validator.
pub open spec fn slashes_of(entries: Seq<Entry<Vec<Slash>>>) -> Map<Seq<char>, Seq<Slash>> {
    map_of(entries).map_values(|slashes: Vec<Slash>| slashes@)
}

/// The slashes that a query found, validator by validator. A validator has
/// one entry at most; the entries stand in the order in which they came.
#[derive(Debug)]
pub struct SlashQueryResult {
    entries: Vec<Entry<Vec<Slash>>>,
}

impl View for SlashQueryResult {
    type V = Map<Seq<char>, Seq<Slash>>;

    closed spec fn view(&self) -> Map<Seq<char>, Seq<Slash>> {
        slashes_of(self.entries@)
    }
}

impl SlashQueryResult {
    #[verifier::type_invariant]
    spec fn well_formed(self) -> bool {
        distinct_keys(self.entries@)
    }

    /// A result without slashes.
    pub fn new() -> (result: SlashQueryResult)
        ensures
            result@ == Map::<Seq<char>, Seq<Slash>>::empty(),
    {
        let result = SlashQueryResult { entries: Vec::new() };
        assert(result@ =~= Map::empty());
        result
    }

    /// Sets the slashes of a validator, in place of those it had.
    pub fn insert(&mut self, validator: Address, slashes: Vec<Slash>)
        ensures
            final(self)@ == old(self)@.insert(validator@, slashes@),
    {
        proof {
            use_type_invariant(&*self);
        }
        let ghost before = self.entries@;
        let mut entries: Vec<Entry<Vec<Slash>>> = Vec::new();
        std::mem::swap(&mut entries, &mut self.entries);
        put(&mut entries, validator, slashes);
        assert(slashes_of(entries@) =~= slashes_of(before).insert(validator@, slashes@));
        self.entries = entries;
    }

    /// The slashes of a validator, if the result holds the validator.
    pub fn get(&self, validator: &Address) -> (r: Option<&Vec<Slash>>)
        ensures
            match r {
                Some(slashes) => self@.contains_key(validator@) && self@[validator@] == slashes@,
                None => !self@.contains_key(validator@),
            },
    {
        proof {
            use_type_invariant(self);
        }
        match position(&self.entries, validator) {
            Some(i) => {
                proof {
                    lemma_entry_at(self.entries@, i as int);
                }
                Some(&self.entries[i].value)
            },
            None => None,
        }
    }

    /// Whether the result holds no validator.
    pub fn is_empty(&self) -> (empty: bool)
        ensures
            empty == (self@ == Map::<Seq<char>, Seq<Slash>>::empty()),
    {
        proof {
            use_type_invariant(self);
            if self.entries@.len() > 0 {
                lemma_entry_at(self.entries@, 0);
                assert(self@.contains_key(self.entries@[0].key@));
            } else {
                assert(self@ =~= Map::empty());
            }
        }
        self.entries.len() == 0
    }

    /// The entries of the result, validator by validator, in the order in
    /// which the validators came.
    pub fn entries(&self) -> (entries: &Vec<Entry<Vec<Slash>>>)
        ensures
            distinct_keys(entries@),
            slashes_of(entries@) == self@,
    {
        proof {
            use_type_invariant(self);
        }
        &self.entries
    }
}

impl Default for SlashQueryResult {
    fn default() -> (result: SlashQueryResult)
        ensures
            result@ == Map::<Seq<char>, Seq<Slash>>::empty(),
    {
        SlashQueryResult::new()
    }
}

} // verus!
