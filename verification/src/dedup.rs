//! Per-block collection of the addresses seen, each kept once.

use vstd::prelude::*;
use crate::model::Bytes32;

verus! {

/// `seen` with `address` added at the end unless it is there already.
pub open spec fn insert_unique(seen: Seq<Bytes32>, address: Bytes32) -> Seq<Bytes32> {
    if seen.contains(address) {
        seen
    } else {
        seen.push(address)
    }
}

/// `seen` after each address of `refs` was registered, in order.
pub open spec fn register_all(seen: Seq<Bytes32>, refs: Seq<Bytes32>) -> Seq<Bytes32>
    decreases refs.len(),
{
    if refs.len() == 0 {
        seen
    } else {
        insert_unique(register_all(seen, refs.drop_last()), refs.last())
    }
}

/// Registering one address is one insertion.
pub proof fn lemma_register_one(seen: Seq<Bytes32>, address: Bytes32)
    ensures
        register_all(seen, seq![address]) == insert_unique(seen, address),
{
    assert(seq![address].drop_last() =~= Seq::<Bytes32>::empty());
    reveal_with_fuel(register_all, 2);
}

/// Registering two addresses is two insertions, the first address first.
pub proof fn lemma_register_two(seen: Seq<Bytes32>, first: Bytes32, second: Bytes32)
    ensures
        register_all(seen, seq![first, second]) == insert_unique(
            insert_unique(seen, first),
            second,
        ),
{
    assert(seq![first, second].drop_last() =~= seq![first]);
    lemma_register_one(seen, first);
}

/// Registering one list and then another is registering the two, joined.
pub proof fn lemma_register_concat(seen: Seq<Bytes32>, first: Seq<Bytes32>, second: Seq<Bytes32>)
    ensures
        register_all(register_all(seen, first), second) == register_all(seen, first + second),
    decreases second.len(),
{
    if second.len() == 0 {
        assert(first + second =~= first);
    } else {
        lemma_register_concat(seen, first, second.drop_last());
        assert((first + second).drop_last() =~= first + second.drop_last());
    }
}

/// Whether two 32-byte values hold the same bytes.
pub fn same_bytes(a: &Bytes32, b: &Bytes32) -> (same: bool)
    ensures
        same == (*a == *b),
{
    let mut i: usize = 0;
    while i < 32
        invariant
            i <= 32,
            forall|j: int| 0 <= j < i ==> a[j] == b[j],
        decreases 32 - i,
    {
        if a[i] != b[i] {
            return false;
        }
        i += 1;
    }
    assert(*a =~= *b);
    true
}

/// A set of addresses that remembers the order in which they first came.
pub struct AddressSet {
    items: Vec<Bytes32>,
}

impl AddressSet {
    #[verifier::type_invariant]
    spec fn distinct(self) -> bool {
        self.items@.no_duplicates()
    }

    /// The addresses held, in the order of their first insertion.
    pub closed spec fn view(&self) -> Seq<Bytes32> {
        self.items@
    }

    /// The empty set.
    pub fn new() -> (set: Self)
        ensures
            set@ == Seq::<Bytes32>::empty(),
    {
        AddressSet { items: Vec::new() }
    }

    /// How many addresses the set holds; none of them is held twice.
    pub fn len(&self) -> (n: usize)
        ensures
            n == self@.len(),
            self@.no_duplicates(),
    {
        proof {
            use_type_invariant(self);
        }
        self.items.len()
    }

    /// Whether `address` is in the set.
    pub fn contains(&self, address: &Bytes32) -> (found: bool)
        ensures
            found == self@.contains(*address),
    {
        let mut i: usize = 0;
        while i < self.items.len()
            invariant
                i <= self.items@.len(),
                forall|j: int| 0 <= j < i ==> self.items@[j] != *address,
            decreases self.items@.len() - i,
        {
            if same_bytes(&self.items[i], address) {
                return true;
            }
            i += 1;
        }
        false
    }

    /// Adds `address` unless the set holds it already; says whether it was new.
    pub fn insert(&mut self, address: Bytes32) -> (fresh: bool)
        ensures
            final(self)@ == insert_unique(old(self)@, address),
            fresh == !old(self)@.contains(address),
            final(self)@.no_duplicates(),
    {
        proof {
            use_type_invariant(&*self);
        }
        if self.contains(&address) {
            false
        } else {
            // The list is taken out while it grows, so that the set is never
            // seen half-changed.
            let mut grown: Vec<Bytes32> = Vec::new();
            core::mem::swap(&mut self.items, &mut grown);
            grown.push(address);
            self.items = grown;
            true
        }
    }

    /// The address that came `i`-th.
    pub fn get(&self, i: usize) -> (address: Bytes32)
        requires
            i < self@.len(),
        ensures
            address == self@[i as int],
    {
        self.items[i]
    }
}

} // verus!
