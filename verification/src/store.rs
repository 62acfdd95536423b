//! Storage cells keyed by address.
//!
//! An address names at most one cell. Creating a cell at an address that is
//! taken is never done silently: the caller looks the address up first.

use crate::address::Address;
use vstd::prelude::*;

verus! {

/// One occupied cell: its address and what it holds.
pub struct Slot<V> {
    pub address: Address,
    pub value: V,
}

/// The occupied cells of one kind, each under its address.
pub struct AddressMap<V> {
    slots: Vec<Slot<V>>,
}

/// Where in `slots` the cell at `address` stands.
spec fn position<V>(slots: Seq<Slot<V>>, address: Address) -> int {
    choose|i: int| 0 <= i < slots.len() && slots[i].address == address
}

/// No address names two cells.
spec fn distinct<V>(slots: Seq<Slot<V>>) -> bool {
    forall|i: int, j: int|
        0 <= i < j < slots.len() ==> (#[trigger] slots[i]).address != (#[trigger] slots[j]).address
}

/// Whether some cell stands at `address`.
spec fn present<V>(slots: Seq<Slot<V>>, address: Address) -> bool {
    exists|i: int| 0 <= i < slots.len() && (#[trigger] slots[i]).address == address
}

/// Among cells at distinct addresses, each is found where it stands.
proof fn lemma_position<V>(slots: Seq<Slot<V>>, i: int)
    requires
        distinct(slots),
        0 <= i < slots.len(),
    ensures
        present(slots, slots[i].address),
        position(slots, slots[i].address) == i,
{
    let address = slots[i].address;
    let p = position(slots, address);
    assert(0 <= p < slots.len() && slots[p].address == address);
    if p < i {
        assert(slots[p].address != slots[i].address);
    }
    if i < p {
        assert(slots[i].address != slots[p].address);
    }
}

impl<V: View> View for AddressMap<V> {
    type V = Map<Address, V::V>;

    closed spec fn view(&self) -> Map<Address, V::V> {
        Map::new(
            |address: Address| present(self.slots@, address),
            |address: Address| self.slots@[position(self.slots@, address)].value@,
        )
    }
}

impl<V: View> AddressMap<V> {
    /// The cells are well formed: no address occurs twice.
    pub closed spec fn wf(&self) -> bool {
        distinct(self.slots@)
    }

    /// A store without cells.
    pub fn new() -> (store: AddressMap<V>)
        ensures
            store.wf(),
            store@ == Map::<Address, V::V>::empty(),
    {
        let store = AddressMap { slots: Vec::new() };
        assert(store@ =~= Map::<Address, V::V>::empty());
        store
    }

    /// How many cells are occupied.
    pub fn len(&self) -> (n: usize)
        requires
            self.wf(),
        ensures
            n == self@.dom().len(),
            self@.dom().finite(),
    {
        proof {
            self.lemma_dom_len();
        }
        self.slots.len()
    }

    /// As many addresses are taken as cells are kept.
    proof fn lemma_dom_len(&self)
        requires
            self.wf(),
        ensures
            self@.dom().finite(),
            self@.dom().len() == self.slots@.len(),
    {
        Self::lemma_dom_of(self.slots@);
        assert(self@.dom() =~= Self::addresses(self.slots@));
    }

    /// The addresses that are taken.
    spec fn addresses(slots: Seq<Slot<V>>) -> Set<Address> {
        Set::new(|address: Address| present(slots, address))
    }

    /// Cells at distinct addresses take as many addresses as there are cells.
    proof fn lemma_dom_of(slots: Seq<Slot<V>>)
        requires
            distinct(slots),
        ensures
            Self::addresses(slots).finite(),
            Self::addresses(slots).len() == slots.len(),
        decreases slots.len(),
    {
        if slots.len() == 0 {
            assert(Self::addresses(slots) =~= Set::<Address>::empty());
        } else {
            let front = slots.drop_last();
            let last = slots.last();
            assert forall|i: int, j: int| 0 <= i < j < front.len() implies (
            #[trigger] front[i]).address != (#[trigger] front[j]).address by {
                assert(slots[i].address != slots[j].address);
            }
            Self::lemma_dom_of(front);
            assert(!present(front, last.address)) by {
                if present(front, last.address) {
                    let i = choose|i: int|
                        0 <= i < front.len() && (#[trigger] front[i]).address == last.address;
                    assert(slots[i].address != slots[slots.len() - 1].address);
                }
            }
            assert(Self::addresses(slots) =~= Self::addresses(front).insert(last.address)) by {
                assert forall|address: Address|
                    Self::addresses(slots).contains(address) == Self::addresses(front).insert(
                        last.address,
                    ).contains(address) by {
                    if present(slots, address) {
                        let i = choose|i: int|
                            0 <= i < slots.len() && (#[trigger] slots[i]).address == address;
                        if i < front.len() {
                            assert(front[i].address == address);
                        }
                    }
                    if present(front, address) {
                        let i = choose|i: int|
                            0 <= i < front.len() && (#[trigger] front[i]).address == address;
                        assert(slots[i].address == address);
                    }
                    if address == last.address {
                        assert(slots[slots.len() - 1].address == address);
                    }
                }
            }
        }
    }

    /// Where the cell at `address` is kept, if it is occupied.
    fn find(&self, address: &Address) -> (found: Option<usize>)
        requires
            self.wf(),
        ensures
            match found {
                Some(i) => i < self.slots@.len() && self.slots@[i as int].address == *address
                    && present(self.slots@, *address) && position(self.slots@, *address) == i,
                None => !present(self.slots@, *address),
            },
    {
        let mut i: usize = 0;
        while i < self.slots.len()
            invariant
                i <= self.slots@.len(),
                self.wf(),
                forall|j: int| 0 <= j < i ==> (#[trigger] self.slots@[j]).address != *address,
            decreases self.slots@.len() - i,
        {
            if self.slots[i].address == *address {
                proof {
                    lemma_position(self.slots@, i as int);
                }
                return Some(i);
            }
            i += 1;
        }
        None
    }

    /// Whether a cell is occupied at `address`.
    pub fn contains(&self, address: &Address) -> (r: bool)
        requires
            self.wf(),
        ensures
            r == self@.contains_key(*address),
    {
        self.find(address).is_some()
    }

    /// What the cell at `address` holds, if it is occupied.
    pub fn get(&self, address: &Address) -> (r: Option<&V>)
        requires
            self.wf(),
        ensures
            match r {
                Some(value) => self@.contains_key(*address) && self@[*address] == value@,
                None => !self@.contains_key(*address),
            },
    {
        match self.find(address) {
            Some(i) => Some(&self.slots[i].value),
            None => None,
        }
    }

    /// Occupies the cell at `address` with `value`, if the cell is free. An
    /// occupied cell is left as it is, and the answer is `false`.
    pub fn insert(&mut self, address: Address, value: V) -> (inserted: bool)
        requires
            old(self).wf(),
        ensures
            final(self).wf(),
            inserted == !old(self)@.contains_key(address),
            inserted ==> final(self)@ == old(self)@.insert(address, value@),
            !inserted ==> final(self)@ == old(self)@,
    {
        if self.contains(&address) {
            return false;
        }
        let ghost before = self.slots@;
        self.slots.push(Slot { address, value });
        proof {
            let after = self.slots@;
            assert forall|i: int, j: int| 0 <= i < j < after.len() implies (
            #[trigger] after[i]).address != (#[trigger] after[j]).address by {
                if j < before.len() {
                    assert(before[i].address != before[j].address);
                } else {
                    assert(after[i] == before[i]);
                    assert(!present(before, address));
                }
            }
            assert forall|key: Address| present(after, key) == (key == address || present(
                before,
                key,
            )) by {
                if present(after, key) {
                    let i = choose|i: int|
                        0 <= i < after.len() && (#[trigger] after[i]).address == key;
                    if i < before.len() {
                        assert(before[i].address == key);
                    }
                }
                if present(before, key) {
                    let i = choose|i: int|
                        0 <= i < before.len() && (#[trigger] before[i]).address == key;
                    assert(after[i].address == key);
                }
                if key == address {
                    assert(after[after.len() - 1].address == key);
                }
            }
            assert forall|key: Address| present(after, key) implies (#[trigger] self@[key]) == old(
                self,
            )@.insert(address, value@)[key] by {
                if key == address {
                    lemma_position(after, after.len() - 1);
                } else {
                    let i = position(before, key);
                    assert(present(before, key));
                    assert(0 <= i < before.len() && before[i].address == key);
                    assert(after[i] == before[i]);
                    lemma_position(after, i);
                }
            }
            assert(self@ =~= old(self)@.insert(address, value@));
        }
        true
    }

    /// Frees the cell at `address` and hands back what it held; `None`, and
    /// nothing changes, if the cell was free already.
    pub fn remove(&mut self, address: &Address) -> (r: Option<V>)
        requires
            old(self).wf(),
        ensures
            final(self).wf(),
            match r {
                Some(value) => old(self)@.contains_key(*address) && old(self)@[*address] == value@
                    && final(self)@ == old(self)@.remove(*address),
                None => !old(self)@.contains_key(*address) && final(self)@ == old(self)@,
            },
    {
        let ghost before = self.slots@;
        match self.find(address) {
            None => None,
            Some(index) => {
                let slot = self.slots.remove(index);
                proof {
                    let after = self.slots@;
                    let at = index as int;
                    assert(after =~= before.remove(at));
                    assert forall|i: int| 0 <= i < after.len() implies (#[trigger] after[i])
                        == before[if i < at { i } else { i + 1 }] by {}
                    assert forall|i: int, j: int| 0 <= i < j < after.len() implies (
                    #[trigger] after[i]).address != (#[trigger] after[j]).address by {
                        let bi = if i < at { i } else { i + 1 };
                        let bj = if j < at { j } else { j + 1 };
                        assert(before[bi].address != before[bj].address);
                    }
                    assert forall|key: Address| present(after, key) == (key != *address && present(
                        before,
                        key,
                    )) by {
                        if present(after, key) {
                            let i = choose|i: int|
                                0 <= i < after.len() && (#[trigger] after[i]).address == key;
                            let bi = if i < at { i } else { i + 1 };
                            assert(before[bi].address == key);
                            if bi < at {
                                assert(before[bi].address != before[at].address);
                            } else {
                                assert(before[at].address != before[bi].address);
                            }
                        }
                        if key != *address && present(before, key) {
                            let bi = choose|i: int|
                                0 <= i < before.len() && (#[trigger] before[i]).address == key;
                            let i = if bi < at { bi } else { bi - 1 };
                            assert(after[i].address == key);
                        }
                    }
                    assert forall|key: Address| present(after, key) implies (#[trigger] self@[key])
                        == old(self)@.remove(*address)[key] by {
                        let i = position(after, key);
                        assert(0 <= i < after.len() && after[i].address == key);
                        let bi = if i < at { i } else { i + 1 };
                        assert(before[bi].address == key);
                        lemma_position(before, bi);
                    }
                    assert(self@ =~= old(self)@.remove(*address));
                }
                Some(slot.value)
            },
        }
    }
}

} // verus!
