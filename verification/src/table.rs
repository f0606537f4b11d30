//! Tables of live resources: registered files, pending locks and owner processes.
//!
//! A table maps an id to a token, the number by which its user finds the resource again.

use dashmap::mapref::entry::Entry;
use dashmap::DashMap;
use std::collections::hash_map::RandomState;
use vstd::prelude::*;
use vstd::set_lib::{lemma_int_range, lemma_map_size, set_int_range};

verus! {

/// The concurrent map that holds a table. Its contents are known by `contents`.
#[verifier::external_type_specification]
#[verifier::external_body]
#[verifier::reject_recursive_types(K)]
#[verifier::reject_recursive_types(V)]
#[verifier::reject_recursive_types(S)]
pub struct ExDashMap<K, V, S>(DashMap<K, V, S>);

/// The pairs that a map holds.
pub uninterp spec fn contents(map: DashMap<u64, u64, RandomState>) -> Map<u64, u64>;

/// `DashMap::new`: the new map holds nothing.
#[verifier::external_body]
fn dash_new() -> (fresh: DashMap<u64, u64, RandomState>)
    ensures
        contents(fresh) == (Map::<u64, u64>::empty()),
{
    DashMap::new()
}

/// `DashMap::len`: the number of pairs, which is therefore finite and no more than a `usize` holds.
#[verifier::external_body]
fn dash_len(map: &DashMap<u64, u64, RandomState>) -> (count: usize)
    ensures
        has_size(contents(*map), count as nat),
{
    map.len()
}

/// Whether a table has exactly `count` entries.
pub open spec fn has_size(table: Map<u64, u64>, count: nat) -> bool {
    table.dom().finite() && table.dom().len() == count
}

/// `DashMap::get`: a copy of the value of a key, where the key is present.
#[verifier::external_body]
fn dash_get(map: &DashMap<u64, u64, RandomState>, key: u64) -> (value: Option<u64>)
    ensures
        value == (if contents(*map).contains_key(key) {
            Some(contents(*map)[key])
        } else {
            None
        }),
{
    map.get(&key).map(|pair| *pair)
}

/// `DashMap::entry`, with `VacantEntry::insert` where the entry is vacant: a pair is added where its
/// key is absent, and nothing changes where it is present.
#[verifier::external_body]
fn dash_insert_vacant(
    map: &mut DashMap<u64, u64, RandomState>,
    key: u64,
    value: u64,
) -> (inserted: bool)
    ensures
        inserted == !contents(*old(map)).contains_key(key),
        contents(*final(map)) == (if contents(*old(map)).contains_key(key) {
            contents(*old(map))
        } else {
            contents(*old(map)).insert(key, value)
        }),
{
    match map.entry(key) {
        Entry::Vacant(entry) => {
            entry.insert(value);
            true
        },
        Entry::Occupied(_entry) => false,
    }
}

/// `DashMap::remove`: the pair of a key leaves, and its value is returned, where the key is present.
#[verifier::external_body]
fn dash_remove(map: &mut DashMap<u64, u64, RandomState>, key: u64) -> (value: Option<u64>)
    ensures
        value == (if contents(*old(map)).contains_key(key) {
            Some(contents(*old(map))[key])
        } else {
            None
        }),
        contents(*final(map)) == contents(*old(map)).remove(key),
{
    map.remove(&key).map(|pair| pair.1)
}

/// `DashMap::retain`, with `survives` as the test: the pairs that the test keeps stay as they are,
/// and the others leave.
#[verifier::external_body]
fn dash_retain(map: &mut DashMap<u64, u64, RandomState>, dead: &Vec<u64>)
    ensures
        contents(*final(map)) == without(contents(*old(map)), dead@),
{
    map.retain(|_key, value| survives(dead, *value))
}

/// A table without the entries whose tokens are `dead`.
pub open spec fn without(table: Map<u64, u64>, dead: Seq<u64>) -> Map<u64, u64> {
    table.restrict(Set::new(|id: u64| table.contains_key(id) && !dead.contains(table[id])))
}

/// Whether a token is not among the `dead`.
fn survives(dead: &Vec<u64>, token: u64) -> (alive: bool)
    ensures
        alive == !dead@.contains(token),
{
    for i in 0..dead.len()
        invariant
            forall|j: int| 0 <= j < i ==> dead@[j] != token,
    {
        if dead[i] == token {
            return false;
        }
    }
    true
}

/// How many ids lie before `id`, counting up from `next` and past the largest id back to zero.
pub open spec fn distance(next: u64, id: u64) -> int {
    if next <= id {
        id - next
    } else {
        id - next + 0x1_0000_0000_0000_0000
    }
}

/// Whether `id` is the first id, counting up from `next`, that a table does not hold.
pub open spec fn first_free(table: Map<u64, u64>, next: u64, id: u64) -> bool {
    if table.contains_key(next) {
        &&& !table.contains_key(id)
        &&& forall|other: u64|
            distance(next, other) < distance(next, id) ==> #[trigger] table.contains_key(other)
    } else {
        id == next
    }
}

/// A table whose size a `usize` counts does not hold every id.
proof fn some_id_is_free(table: Map<u64, u64>)
    requires
        table.dom().finite(),
        table.dom().len() < 0x1_0000_0000_0000_0000,
    ensures
        exists|id: u64| !table.contains_key(id),
{
    if forall|id: u64| table.contains_key(id) {
        let as_int = |id: u64| id as int;
        let numbers = table.dom().map(as_int);
        let all = set_int_range(0, 0x1_0000_0000_0000_0000);
        assert forall|number: int| all.contains(number) implies numbers.contains(number) by {
            let id = number as u64;
            assert(table.dom().contains(id));
            assert(as_int(id) == number);
        }
        assert(numbers =~= all);
        lemma_int_range(0, 0x1_0000_0000_0000_0000);
        lemma_map_size(table.dom(), numbers, as_int);
        assert(false);
    }
}

/// A table that chooses the ids of its entries.
pub struct IdTable {
    map: DashMap<u64, u64, RandomState>,
    next_id: u64,
}

impl View for IdTable {
    type V = Map<u64, u64>;

    /// The token of each id.
    closed spec fn view(&self) -> Map<u64, u64> {
        contents(self.map)
    }
}

impl IdTable {
    /// The id at which the search for a free id starts.
    pub closed spec fn next_id(&self) -> u64 {
        self.next_id
    }

    /// An empty table, which starts with id zero.
    pub fn new() -> (table: IdTable)
        ensures
            table@ == Map::<u64, u64>::empty(),
            table.next_id() == 0,
    {
        IdTable { map: dash_new(), next_id: 0 }
    }

    /// The number of entries.
    pub fn len(&self) -> (count: usize)
        ensures
            has_size(self@, count as nat),
    {
        dash_len(&self.map)
    }

    /// Adds an entry under the first free id, and starts the next search behind it.
    pub fn allocate(&mut self, token: u64) -> (id: u64)
        ensures
            first_free(old(self)@, old(self).next_id(), id),
            final(self)@ == old(self)@.insert(id, token),
            distance(id, final(self).next_id()) == 1,
    {
        let _count: usize = self.len();
        proof {
            some_id_is_free(self@);
        }
        let ghost table = self@;
        let ghost start = self.next_id;
        let ghost free = choose|id: u64| !table.contains_key(id);
        loop
            invariant
                self@ == table,
                !table.contains_key(free),
                distance(start, self.next_id) <= distance(start, free),
                forall|other: u64|
                    distance(start, other) < distance(start, self.next_id)
                        ==> #[trigger] table.contains_key(other),
                table == old(self)@,
                start == old(self).next_id(),
            decreases distance(start, free) - distance(start, self.next_id),
        {
            let candidate_id = self.next_id;
            self.next_id = candidate_id.wrapping_add(1);
            if dash_insert_vacant(&mut self.map, candidate_id, token) {
                return candidate_id;
            }
            assert(candidate_id != free);
        }
    }

    /// The token of an id.
    pub fn get(&self, id: u64) -> (token: Option<u64>)
        ensures
            token == (if self@.contains_key(id) {
                Some(self@[id])
            } else {
                None
            }),
    {
        dash_get(&self.map, id)
    }

    /// Removes the entry of an id and returns its token.
    pub fn remove(&mut self, id: u64) -> (token: Option<u64>)
        ensures
            token == (if old(self)@.contains_key(id) {
                Some(old(self)@[id])
            } else {
                None
            }),
            final(self)@ == old(self)@.remove(id),
            final(self).next_id() == old(self).next_id(),
    {
        dash_remove(&mut self.map, id)
    }
}

/// A table whose ids its user chooses.
pub struct KeyTable {
    map: DashMap<u64, u64, RandomState>,
}

impl View for KeyTable {
    type V = Map<u64, u64>;

    /// The token of each id.
    closed spec fn view(&self) -> Map<u64, u64> {
        contents(self.map)
    }
}

impl KeyTable {
    /// An empty table.
    pub fn new() -> (table: KeyTable)
        ensures
            table@ == Map::<u64, u64>::empty(),
    {
        KeyTable { map: dash_new() }
    }

    /// The token of an id.
    pub fn get(&self, id: u64) -> (token: Option<u64>)
        ensures
            token == (if self@.contains_key(id) {
                Some(self@[id])
            } else {
                None
            }),
    {
        dash_get(&self.map, id)
    }

    /// Adds an entry, unless the table has one with this id. Says whether it did.
    pub fn insert_vacant(&mut self, id: u64, token: u64) -> (inserted: bool)
        ensures
            inserted == !old(self)@.contains_key(id),
            final(self)@ == (if old(self)@.contains_key(id) {
                old(self)@
            } else {
                old(self)@.insert(id, token)
            }),
    {
        dash_insert_vacant(&mut self.map, id, token)
    }

    /// Removes the entry of an id and returns its token.
    pub fn remove(&mut self, id: u64) -> (token: Option<u64>)
        ensures
            token == (if old(self)@.contains_key(id) {
                Some(old(self)@[id])
            } else {
                None
            }),
            final(self)@ == old(self)@.remove(id),
    {
        dash_remove(&mut self.map, id)
    }

    /// Removes the entries whose tokens are `dead`.
    pub fn discard(&mut self, dead: &Vec<u64>)
        ensures
            final(self)@ == without(old(self)@, dead@),
    {
        dash_retain(&mut self.map, dead)
    }
}

/// A fresh id names no other live entry, and adding its entry leaves the others as they were.
pub proof fn fresh_id_is_unique(table: Map<u64, u64>, next: u64, id: u64, token: u64, other: u64)
    requires
        first_free(table, next, id),
        table.contains_key(other),
    ensures
        other != id,
        table.insert(id, token)[other] == table[other],
        table.insert(id, token)[id] == token,
{
}

/// Removing a fresh entry restores the table.
pub proof fn removal_undoes_allocation(table: Map<u64, u64>, next: u64, id: u64, token: u64)
    requires
        first_free(table, next, id),
    ensures
        table.insert(id, token).remove(id) == table,
{
    assert(table.insert(id, token).remove(id) =~= table);
}

/// An id that has just been handed out comes up again only once every other id has been tried.
pub proof fn fresh_id_is_last_in_line(next: u64, id: u64, other: u64)
    requires
        distance(id, next) == 1,
        other != id,
    ensures
        distance(next, other) < distance(next, id),
{
}

} // verus!
