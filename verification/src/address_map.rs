//! Lists of entries keyed by address, in which an address has one entry at
//! most. They stand for maps, and keep the order in which the keys came.

use crate::address::Address;
use vstd::prelude::*;

verus! {

/// One entry: what is held for one address.
#[derive(Debug)]
pub struct Entry<V> {
    pub key: Address,
    pub value: V,
}

/// Whether the entry at `i` is the one for `key`.
pub open spec fn holds_key<V>(entries: Seq<Entry<V>>, i: int, key: Seq<char>) -> bool {
    0 <= i < entries.len() && entries[i].key@ == key
}

/// Whether no address has two entries.
pub open spec fn distinct_keys<V>(entries: Seq<Entry<V>>) -> bool {
    forall|i: int, j: int|
        0 <= i < entries.len() && 0 <= j < entries.len() && i != j ==> (#[trigger] entries[i]).key@
            != (#[trigger] entries[j]).key@
}

/// The map that a list of entries stands for.
pub open spec fn map_of<V>(entries: Seq<Entry<V>>) -> Map<Seq<char>, V> {
    Map::new(
        |key: Seq<char>| exists|i: int| holds_key(entries, i, key),
        |key: Seq<char>| entries[choose|i: int| holds_key(entries, i, key)].value,
    )
}

/// The entry for an address, wherever it stands, decides what the map holds
/// for that address.
pub proof fn lemma_entry_at<V>(entries: Seq<Entry<V>>, i: int)
    requires
        distinct_keys(entries),
        0 <= i < entries.len(),
    ensures
        map_of(entries).contains_key(entries[i].key@),
        map_of(entries)[entries[i].key@] == entries[i].value,
{
    let key = entries[i].key@;
    assert(holds_key(entries, i, key));
    let j = choose|j: int| holds_key(entries, j, key);
    if i != j {
        assert(entries[i].key@ != entries[j].key@);
    }
}

/// A new value in the entry at `i` is a new value for that entry's address,
/// and changes nothing else.
pub proof fn lemma_value_replaced<V>(before: Seq<Entry<V>>, after: Seq<Entry<V>>, i: int)
    requires
        distinct_keys(before),
        0 <= i < before.len(),
        after.len() == before.len(),
        forall|j: int| 0 <= j < before.len() ==> (#[trigger] after[j]).key@ == before[j].key@,
        forall|j: int| 0 <= j < before.len() && j != i ==> (#[trigger] after[j]).value == before[j].value,
    ensures
        distinct_keys(after),
        map_of(after) == map_of(before).insert(before[i].key@, after[i].value),
{
    assert forall|key: Seq<char>, j: int| holds_key(after, j, key) == holds_key(before, j, key) by {
        if 0 <= j < before.len() {
            assert(after[j].key@ == before[j].key@);
        }
    }
    assert(distinct_keys(after)) by {
        assert forall|j: int, k: int|
            0 <= j < after.len() && 0 <= k < after.len() && j != k implies (#[trigger] after[j]).key@
            != (#[trigger] after[k]).key@ by {
            assert(before[j].key@ != before[k].key@);
        }
    }
    lemma_entry_at(after, i);
    assert(map_of(after) =~= map_of(before).insert(before[i].key@, after[i].value)) by {
        assert forall|key: Seq<char>| map_of(before).contains_key(key) && key != before[i].key@
            implies map_of(after)[key] == map_of(before)[key] by {
            let j = choose|j: int| holds_key(before, j, key);
            lemma_entry_at(after, j);
            lemma_entry_at(before, j);
        }
    }
}

/// An entry for an address that has none yet, put at the end, is a new
/// value for that address, and changes nothing else.
pub proof fn lemma_entry_added<V>(before: Seq<Entry<V>>, entry: Entry<V>)
    requires
        distinct_keys(before),
        !map_of(before).contains_key(entry.key@),
    ensures
        distinct_keys(before.push(entry)),
        map_of(before.push(entry)) == map_of(before).insert(entry.key@, entry.value),
{
    let after = before.push(entry);
    let n = before.len() as int;
    assert(holds_key(after, n, entry.key@));
    assert forall|key: Seq<char>, j: int| holds_key(before, j, key) implies holds_key(
        after,
        j,
        key,
    ) by {}
    assert(distinct_keys(after)) by {
        assert forall|j: int| 0 <= j < n implies after[j].key@ != entry.key@ by {
            assert(holds_key(before, j, before[j].key@));
        }
    }
    lemma_entry_at(after, n);
    assert(map_of(after) =~= map_of(before).insert(entry.key@, entry.value)) by {
        assert forall|key: Seq<char>| map_of(before).contains_key(key) implies (map_of(
            after,
        ).contains_key(key) && map_of(after)[key] == map_of(before)[key]) by {
            let j = choose|j: int| holds_key(before, j, key);
            lemma_entry_at(after, j);
            lemma_entry_at(before, j);
        }
        assert forall|key: Seq<char>| map_of(after).contains_key(key) && key
            != entry.key@ implies map_of(before).contains_key(key) by {
            let j = choose|j: int| holds_key(after, j, key);
            assert(holds_key(before, j, key));
        }
    }
}

/// Where the entry for `key` stands, if there is one.
pub fn position<V>(entries: &Vec<Entry<V>>, key: &Address) -> (r: Option<usize>)
    ensures
        match r {
            Some(i) => holds_key(entries@, i as int, key@),
            None => !map_of(entries@).contains_key(key@),
        },
{
    let mut i: usize = 0;
    while i < entries.len()
        invariant
            i <= entries@.len(),
            forall|j: int| 0 <= j < i ==> !holds_key(entries@, j, key@),
        decreases entries@.len() - i,
    {
        if entries[i].key.same_as(key) {
            return Some(i);
        }
        i += 1;
    }
    Option::None
}

/// Sets what is held for `key`: in its entry, or in a new one at the end.
pub(crate) fn put<V>(entries: &mut Vec<Entry<V>>, key: Address, value: V)
    requires
        distinct_keys(old(entries)@),
    ensures
        distinct_keys(final(entries)@),
        map_of(final(entries)@) == map_of(old(entries)@).insert(key@, value),
{
    let ghost before = entries@;
    match position(entries, &key) {
        Some(i) => {
            entries[i].value = value;
            proof {
                lemma_value_replaced(before, entries@, i as int);
            }
        },
        None => {
            let entry = Entry { key, value };
            proof {
                lemma_entry_added(before, entry);
            }
            entries.push(entry);
        },
    }
}

} // verus!
