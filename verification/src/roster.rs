//! The list of guardians.

use vstd::prelude::*;

use crate::address::{address_of, from_key, without, Address};
use crate::host::{vec_clone, vec_env, vec_get, vec_items, vec_len, vec_new, vec_push_back};

verus! {

/// A list of addresses in a host vector.
pub struct Roster {
    items: soroban_sdk::Vec<(bool, u128, u128)>,
}

impl View for Roster {
    type V = Seq<Address>;

    closed spec fn view(&self) -> Seq<Address> {
        Seq::new(vec_items(self.items).len(), |i: int| address_of(vec_items(self.items)[i]->0))
    }
}

impl Roster {
    #[verifier::type_invariant]
    spec fn readable(self) -> bool {
        &&& vec_items(self.items).len() <= u32::MAX
        &&& forall|i: int|
            0 <= i < vec_items(self.items).len() ==> (#[trigger] vec_items(self.items)[i]) is Some
    }

    /// A roster without entries, in the host `env`.
    pub fn new(env: &soroban_sdk::Env) -> (r: Self)
        ensures
            r@ == Seq::<Address>::empty(),
    {
        let r = Roster { items: vec_new(env) };
        assert(r@ =~= Seq::<Address>::empty());
        r
    }

    /// The number of entries.
    pub fn len(&self) -> (r: u32)
        ensures
            r == self@.len(),
    {
        proof {
            use_type_invariant(self);
        }
        vec_len(&self.items)
    }

    /// The entry at position `i`.
    pub fn get(&self, i: u32) -> (r: Address)
        requires
            i < self@.len(),
        ensures
            r == self@[i as int],
    {
        proof {
            use_type_invariant(self);
        }
        from_key(vec_get(&self.items, i))
    }

    /// Whether `address` is on the roster.
    pub fn contains(&self, address: Address) -> (r: bool)
        ensures
            r == self@.contains(address),
    {
        let n: u32 = self.len();
        let mut i: u32 = 0;
        while i < n
            invariant
                i <= n,
                n == self@.len(),
                forall|j: int| 0 <= j < i ==> self@[j] != address,
            decreases n - i,
        {
            if self.get(i) == address {
                return true;
            }
            i += 1;
        }
        false
    }

    /// All entries, in order.
    pub fn to_vec(&self) -> (r: Vec<Address>)
        ensures
            r@ == self@,
    {
        let n: u32 = self.len();
        let mut list: Vec<Address> = Vec::new();
        let mut i: u32 = 0;
        while i < n
            invariant
                i <= n,
                n == self@.len(),
                list@ == self@.take(i as int),
            decreases n - i,
        {
            list.push(self.get(i));
            assert(list@ =~= self@.take(i + 1));
            i += 1;
        }
        assert(self@.take(n as int) =~= self@);
        list
    }

    /// Puts `address` at the end of the roster.
    pub fn push(&mut self, address: Address)
        requires
            old(self)@.len() < u32::MAX,
        ensures
            final(self)@ == old(self)@.push(address),
    {
        proof {
            use_type_invariant(&*self);
        }
        let mut items = vec_clone(&self.items);
        vec_push_back(&mut items, address.to_key());
        self.items = items;
        assert(self@ =~= old(self)@.push(address));
    }

    /// The roster without any entry that is `address`; the others keep their order.
    pub fn without(&self, address: Address) -> (r: Self)
        ensures
            r@ == without(self@, address),
    {
        proof {
            use_type_invariant(self);
        }
        let mut kept = Roster::new(vec_env(&self.items));
        let n: u32 = self.len();
        let mut i: u32 = 0;
        assert(without(self@.take(0), address) =~= Seq::<Address>::empty()) by {
            reveal(Seq::filter);
        }
        while i < n
            invariant
                i <= n,
                n == self@.len(),
                kept@ == without(self@.take(i as int), address),
                kept@.len() <= i,
            decreases n - i,
        {
            let g = self.get(i);
            proof {
                assert(self@.take(i + 1).drop_last() =~= self@.take(i as int));
                assert(self@.take(i + 1).last() == g);
                reveal(Seq::filter);
            }
            if g != address {
                kept.push(g);
            }
            i += 1;
        }
        assert(self@.take(n as int) =~= self@);
        kept
    }
}

} // verus!
