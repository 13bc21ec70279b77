//! The record store: todos keyed by owner and local id, and one id counter
//! per owner. It holds no rule of the escrow.

use crate::owner::Owner;
use crate::todo::Todo;
use crate::todo::TodoView;
use vstd::prelude::*;

verus! {

/// What a store holds: the todos by owner and local id, and the counters
/// that were written, by owner.
pub struct Ledger {
    pub records: Map<(Seq<u8>, u64), TodoView>,
    pub counters: Map<Seq<u8>, u64>,
}

impl Ledger {
    /// The next local id of `owner`: zero while no counter was written.
    pub open spec fn counter(self, owner: Seq<u8>) -> u64 {
        if self.counters.contains_key(owner) {
            self.counters[owner]
        } else {
            0
        }
    }

    /// The store that holds nothing.
    pub open spec fn empty() -> Ledger {
        Ledger { records: Map::empty(), counters: Map::empty() }
    }
}

/// The id that follows `id`, which stays at the largest id instead of
/// wrapping.
pub open spec fn following_id(id: u64) -> u64 {
    if id == u64::MAX {
        u64::MAX
    } else {
        (id + 1) as u64
    }
}

/// The id that follows `id`, saturating.
pub fn following(id: u64) -> (r: u64)
    ensures
        r == following_id(id),
{
    if id == u64::MAX {
        u64::MAX
    } else {
        id + 1
    }
}

struct Slot {
    owner: Owner,
    id: u64,
    todo: Todo,
}

impl Slot {
    spec fn key(self) -> (Seq<u8>, u64) {
        (self.owner@, self.id)
    }
}

struct Tally {
    owner: Owner,
    next: u64,
}

impl Tally {
    spec fn key(self) -> Seq<u8> {
        self.owner@
    }
}

spec fn slot_at(slots: Seq<Slot>, i: int, key: (Seq<u8>, u64)) -> bool {
    0 <= i < slots.len() && slots[i].key() == key
}

spec fn tally_at(tallies: Seq<Tally>, i: int, key: Seq<u8>) -> bool {
    0 <= i < tallies.len() && tallies[i].key() == key
}

spec fn distinct_slots(slots: Seq<Slot>) -> bool {
    forall|i: int, j: int|
        0 <= i < slots.len() && 0 <= j < slots.len() && #[trigger] slots[i].key()
            == #[trigger] slots[j].key() ==> i == j
}

spec fn distinct_tallies(tallies: Seq<Tally>) -> bool {
    forall|i: int, j: int|
        0 <= i < tallies.len() && 0 <= j < tallies.len() && #[trigger] tallies[i].key()
            == #[trigger] tallies[j].key() ==> i == j
}

spec fn records_of(slots: Seq<Slot>) -> Map<(Seq<u8>, u64), TodoView> {
    Map::new(
        |k: (Seq<u8>, u64)| exists|i: int| slot_at(slots, i, k),
        |k: (Seq<u8>, u64)| slots[choose|i: int| slot_at(slots, i, k)].todo@,
    )
}

spec fn counters_of(tallies: Seq<Tally>) -> Map<Seq<u8>, u64> {
    Map::new(
        |k: Seq<u8>| exists|i: int| tally_at(tallies, i, k),
        |k: Seq<u8>| tallies[choose|i: int| tally_at(tallies, i, k)].next,
    )
}

proof fn lemma_slot(slots: Seq<Slot>, i: int)
    requires
        distinct_slots(slots),
        0 <= i < slots.len(),
    ensures
        records_of(slots).contains_key(slots[i].key()),
        records_of(slots)[slots[i].key()] == slots[i].todo@,
{
    let k = slots[i].key();
    assert(slot_at(slots, i, k));
    let c = choose|c: int| slot_at(slots, c, k);
    assert(slots[c].key() == slots[i].key());
}

proof fn lemma_tally(tallies: Seq<Tally>, i: int)
    requires
        distinct_tallies(tallies),
        0 <= i < tallies.len(),
    ensures
        counters_of(tallies).contains_key(tallies[i].key()),
        counters_of(tallies)[tallies[i].key()] == tallies[i].next,
{
    let k = tallies[i].key();
    assert(tally_at(tallies, i, k));
    let c = choose|c: int| tally_at(tallies, c, k);
    assert(tallies[c].key() == tallies[i].key());
}

/// Writing a slot over the one with its key, or behind the others where no
/// slot has its key, is an insertion into the map of records.
proof fn lemma_slot_written(before: Seq<Slot>, after: Seq<Slot>, q: int, slot: Slot)
    requires
        distinct_slots(before),
        0 <= q <= before.len(),
        q < before.len() ==> before[q].key() == slot.key() && after == before.update(q, slot),
        q == before.len() ==> after == before.push(slot) && forall|i: int|
            !slot_at(before, i, slot.key()),
    ensures
        distinct_slots(after),
        records_of(after) == records_of(before).insert(slot.key(), slot.todo@),
{
    assert(slot_at(after, q, slot.key()));
    assert forall|i: int| 0 <= i < after.len() && i != q implies after[i] == before[i] && slot_at(
        before,
        i,
        after[i].key(),
    ) && after[i].key() != slot.key() by {
        if q < before.len() {
            assert(before[i].key() != before[q].key());
        }
    }
    assert(distinct_slots(after));
    lemma_slot(after, q);
    let target = records_of(before).insert(slot.key(), slot.todo@);
    assert forall|k: (Seq<u8>, u64)| #![auto] k != slot.key() implies (records_of(
        after,
    ).contains_key(k) == target.contains_key(k)) by {
        if records_of(after).contains_key(k) {
            let c = choose|c: int| slot_at(after, c, k);
            assert(slot_at(before, c, k));
        }
        if records_of(before).contains_key(k) {
            let c = choose|c: int| slot_at(before, c, k);
            assert(slot_at(after, c, k));
        }
    }
    assert forall|k: (Seq<u8>, u64)| #![auto] records_of(after).contains_key(k) implies records_of(
        after,
    )[k] == target[k] by {
        if k != slot.key() {
            let c = choose|c: int| slot_at(after, c, k);
            assert(slot_at(before, c, k));
            lemma_slot(before, c);
            lemma_slot(after, c);
        }
    }
    assert(records_of(after) =~= target);
}

/// Writing a tally over the one with its key, or behind the others where
/// no tally has its key, is an insertion into the map of counters.
proof fn lemma_tally_written(before: Seq<Tally>, after: Seq<Tally>, q: int, tally: Tally)
    requires
        distinct_tallies(before),
        0 <= q <= before.len(),
        q < before.len() ==> before[q].key() == tally.key() && after == before.update(q, tally),
        q == before.len() ==> after == before.push(tally) && forall|i: int|
            !tally_at(before, i, tally.key()),
    ensures
        distinct_tallies(after),
        counters_of(after) == counters_of(before).insert(tally.key(), tally.next),
{
    assert(tally_at(after, q, tally.key()));
    assert forall|i: int| 0 <= i < after.len() && i != q implies after[i] == before[i] && tally_at(
        before,
        i,
        after[i].key(),
    ) && after[i].key() != tally.key() by {
        if q < before.len() {
            assert(before[i].key() != before[q].key());
        }
    }
    assert(distinct_tallies(after));
    lemma_tally(after, q);
    let target = counters_of(before).insert(tally.key(), tally.next);
    assert forall|k: Seq<u8>| #![auto] k != tally.key() implies (counters_of(after).contains_key(k)
        == target.contains_key(k)) by {
        if counters_of(after).contains_key(k) {
            let c = choose|c: int| tally_at(after, c, k);
            assert(tally_at(before, c, k));
        }
        if counters_of(before).contains_key(k) {
            let c = choose|c: int| tally_at(before, c, k);
            assert(tally_at(after, c, k));
        }
    }
    assert forall|k: Seq<u8>| #![auto] counters_of(after).contains_key(k) implies counters_of(
        after,
    )[k] == target[k] by {
        if k != tally.key() {
            let c = choose|c: int| tally_at(after, c, k);
            assert(tally_at(before, c, k));
            lemma_tally(before, c);
            lemma_tally(after, c);
        }
    }
    assert(counters_of(after) =~= target);
}

fn find_slot(slots: &Vec<Slot>, owner: &Owner, id: u64) -> (r: Option<usize>)
    ensures
        match r {
            Some(p) => slot_at(slots@, p as int, (owner@, id)),
            None => forall|i: int| !slot_at(slots@, i, (owner@, id)),
        },
{
    let mut p: usize = 0;
    while p < slots.len()
        invariant
            p <= slots@.len(),
            forall|i: int| 0 <= i < p ==> !slot_at(slots@, i, (owner@, id)),
        decreases slots@.len() - p,
    {
        if slots[p].id == id && slots[p].owner.same_as(owner) {
            return Some(p);
        }
        p += 1;
    }
    None
}

fn find_tally(tallies: &Vec<Tally>, owner: &Owner) -> (r: Option<usize>)
    ensures
        match r {
            Some(p) => tally_at(tallies@, p as int, owner@),
            None => forall|i: int| !tally_at(tallies@, i, owner@),
        },
{
    let mut p: usize = 0;
    while p < tallies.len()
        invariant
            p <= tallies@.len(),
            forall|i: int| 0 <= i < p ==> !tally_at(tallies@, i, owner@),
        decreases tallies@.len() - p,
    {
        if tallies[p].owner.same_as(owner) {
            return Some(p);
        }
        p += 1;
    }
    None
}

/// Todos and id counters, partitioned by owner.
pub struct RecordStore {
    slots: Vec<Slot>,
    tallies: Vec<Tally>,
}

impl View for RecordStore {
    type V = Ledger;

    closed spec fn view(&self) -> Ledger {
        Ledger { records: records_of(self.slots@), counters: counters_of(self.tallies@) }
    }
}

impl RecordStore {
    /// No key is held twice.
    #[verifier::type_invariant]
    spec fn wf(self) -> bool {
        distinct_slots(self.slots@) && distinct_tallies(self.tallies@)
    }

    /// The store that holds nothing.
    pub fn new() -> (r: RecordStore)
        ensures
            r@ == Ledger::empty(),
    {
        let r = RecordStore { slots: Vec::new(), tallies: Vec::new() };
        assert(r@.records =~= Map::empty());
        assert(r@.counters =~= Map::empty());
        r
    }

    /// The todo kept under `owner` and `id`, if there is one.
    pub fn get_record(&self, owner: &Owner, id: u64) -> (r: Option<Todo>)
        ensures
            match r {
                Some(t) => self@.records.contains_key((owner@, id)) && t@ == self@.records[(
                    owner@,
                    id,
                )],
                None => !self@.records.contains_key((owner@, id)),
            },
    {
        proof {
            use_type_invariant(self);
        }
        match find_slot(&self.slots, owner, id) {
            Some(p) => {
                proof {
                    lemma_slot(self.slots@, p as int);
                }
                Some(self.slots[p].todo.duplicate())
            },
            None => None,
        }
    }

    /// Keeps `todo` under `owner` and `id`, in place of what was there.
    pub fn put_record(&mut self, owner: Owner, id: u64, todo: Todo)
        ensures
            final(self)@.records == old(self)@.records.insert((owner@, id), todo@),
            final(self)@.counters == old(self)@.counters,
    {
        proof {
            use_type_invariant(&*self);
        }
        let mut slots: Vec<Slot> = Vec::new();
        std::mem::swap(&mut slots, &mut self.slots);
        let ghost before = slots@;
        let found = find_slot(&slots, &owner, id);
        let slot = Slot { owner, id, todo };
        match found {
            Some(p) => {
                proof {
                    lemma_slot_written(before, before.update(p as int, slot), p as int, slot);
                }
                slots.set(p, slot);
            },
            None => {
                proof {
                    lemma_slot_written(before, before.push(slot), before.len() as int, slot);
                }
                slots.push(slot);
            },
        }
        self.slots = slots;
    }

    /// The next local id of `owner`: zero while none was assigned.
    pub fn next_id(&self, owner: &Owner) -> (r: u64)
        ensures
            r == self@.counter(owner@),
    {
        proof {
            use_type_invariant(self);
        }
        match find_tally(&self.tallies, owner) {
            Some(p) => {
                proof {
                    lemma_tally(self.tallies@, p as int);
                }
                self.tallies[p].next
            },
            None => 0,
        }
    }

    /// Sets the counter of `owner` to the id that follows `id`.
    pub fn advance_id(&mut self, owner: Owner, id: u64)
        ensures
            final(self)@.records == old(self)@.records,
            final(self)@.counters == old(self)@.counters.insert(owner@, following_id(id)),
    {
        proof {
            use_type_invariant(&*self);
        }
        let mut tallies: Vec<Tally> = Vec::new();
        std::mem::swap(&mut tallies, &mut self.tallies);
        let ghost before = tallies@;
        let found = find_tally(&tallies, &owner);
        let tally = Tally { owner, next: following(id) };
        match found {
            Some(p) => {
                proof {
                    lemma_tally_written(before, before.update(p as int, tally), p as int, tally);
                }
                tallies.set(p, tally);
            },
            None => {
                proof {
                    lemma_tally_written(before, before.push(tally), before.len() as int, tally);
                }
                tallies.push(tally);
            },
        }
        self.tallies = tallies;
    }

    /// The counter of `owner`: zero while none was written.
    pub fn get_counter(&self, owner: &Owner) -> (r: u64)
        ensures
            r == self@.counter(owner@),
    {
        self.next_id(owner)
    }
}

} // verus!
