//! Network addresses.

use vstd::prelude::*;

verus! {

/// The address of an account or of a contract: its 32-byte payload (an account's
/// public key, a contract's hash) as two big-endian halves, and which of the two
/// kinds it is.
#[derive(Clone, Copy, Debug, PartialEq, Eq, Structural)]
pub struct Address {
    pub contract: bool,
    pub hi: u128,
    pub lo: u128,
}

impl Address {
    /// The address as a tuple of plain values.
    pub open spec fn key(self) -> (bool, u128, u128) {
        (self.contract, self.hi, self.lo)
    }

    pub fn to_key(self) -> (r: (bool, u128, u128))
        ensures
            r == self.key(),
    {
        (self.contract, self.hi, self.lo)
    }
}

/// The address whose key is `key`.
pub open spec fn address_of(key: (bool, u128, u128)) -> Address {
    Address { contract: key.0, hi: key.1, lo: key.2 }
}

pub fn from_key(key: (bool, u128, u128)) -> (r: Address)
    ensures
        r == address_of(key),
{
    Address { contract: key.0, hi: key.1, lo: key.2 }
}

/// A key stands for one address and an address for one key.
pub proof fn law_keys_are_faithful(address: Address, key: (bool, u128, u128))
    ensures
        address_of(address.key()) == address,
        address_of(key).key() == key,
{
}

/// Whether `needle` occurs in `list`.
pub fn contains_address(list: &Vec<Address>, needle: Address) -> (r: bool)
    ensures
        r == list@.contains(needle),
{
    let mut i: usize = 0;
    while i < list.len()
        invariant
            i <= list.len(),
            forall|j: int| 0 <= j < i ==> list@[j] != needle,
        decreases list.len() - i,
    {
        if list[i] == needle {
            return true;
        }
        i += 1;
    }
    false
}

/// `list` without any entry that is `address`; the others keep their order.
pub open spec fn without(list: Seq<Address>, address: Address) -> Seq<Address> {
    list.filter(|a: Address| a != address)
}

/// What `without` holds: the entries other than `address`, and no other.
pub proof fn lemma_without(list: Seq<Address>, address: Address)
    ensures
        forall|a: Address| #[trigger]
            without(list, address).contains(a) <==> list.contains(a) && a != address,
        without(list, address).len() <= list.len(),
        list.no_duplicates() ==> without(list, address).no_duplicates(),
        !list.contains(address) ==> without(list, address) == list,
    decreases list.len(),
{
    reveal(Seq::filter);
    if list.len() > 0 {
        let rest = list.drop_last();
        let kept = without(rest, address);
        lemma_without(rest, address);
        assert(list =~= rest.push(list.last()));
        assert(without(list, address) == if list.last() != address {
            kept.push(list.last())
        } else {
            kept
        });
        assert forall|a: Address| #[trigger]
            without(list, address).contains(a) <==> list.contains(a) && a != address by {
            if list.contains(a) {
                let i = choose|i: int| 0 <= i < list.len() && list[i] == a;
                if i < rest.len() {
                    assert(rest[i] == a);
                    assert(rest.contains(a));
                    if a != address {
                        assert(kept.contains(a));
                        let j = choose|j: int| 0 <= j < kept.len() && kept[j] == a;
                        assert(without(list, address)[j] == a);
                    }
                } else if a != address {
                    assert(without(list, address)[kept.len() as int] == a);
                }
            }
            if without(list, address).contains(a) {
                let j = choose|j: int|
                    0 <= j < without(list, address).len() && without(list, address)[j] == a;
                if j < kept.len() {
                    assert(kept[j] == a);
                    assert(kept.contains(a));
                    let i = choose|i: int| 0 <= i < rest.len() && rest[i] == a;
                    assert(list[i] == a);
                } else {
                    assert(list[list.len() - 1] == a);
                }
            }
        }
        if list.no_duplicates() {
            assert(rest.no_duplicates());
            assert(!rest.contains(list.last()));
            assert(!kept.contains(list.last()));
            assert(without(list, address).no_duplicates());
        }
        if !list.contains(address) {
            assert(!rest.contains(address)) by {
                if rest.contains(address) {
                    let i = choose|i: int| 0 <= i < rest.len() && rest[i] == address;
                    assert(list[i] == address);
                }
            }
            assert(list[list.len() - 1] != address);
            assert(without(list, address) =~= list);
        }
    }
}

/// Taking an address out of two lists and joining what is left is taking it out of the
/// lists joined.
pub proof fn law_without_distributes(left: Seq<Address>, right: Seq<Address>, address: Address)
    ensures
        without(left + right, address) == without(left, address) + without(right, address),
{
    Seq::filter_distributes_over_add(left, right, |a: Address| a != address);
}

/// Of a list of one address, nothing is left without it, and all without another.
pub proof fn law_without_singletons(one: Address, other: Address)
    ensures
        without(seq![one], one) == Seq::<Address>::empty(),
        other != one ==> without(seq![other], one) == seq![other],
        without(Seq::<Address>::empty(), one) == Seq::<Address>::empty(),
{
    lemma_without(seq![one], one);
    assert(!without(seq![one], one).contains(one));
    if without(seq![one], one).len() > 0 {
        assert(without(seq![one], one).contains(without(seq![one], one)[0]));
        assert(seq![one].contains(without(seq![one], one)[0]));
    }
    lemma_without(seq![other], one);
    lemma_without(Seq::<Address>::empty(), one);
    assert(without(seq![one], one) =~= Seq::<Address>::empty());
}

/// A finite set of addresses.
pub struct AddressSet {
    items: Vec<Address>,
}

impl View for AddressSet {
    type V = Set<Address>;

    closed spec fn view(&self) -> Set<Address> {
        self.items@.to_set()
    }
}

impl AddressSet {
    /// The empty set.
    pub fn new() -> (r: Self)
        ensures
            r@ == Set::<Address>::empty(),
    {
        let r = AddressSet { items: Vec::new() };
        assert(r@ =~= Set::<Address>::empty());
        r
    }

    pub fn contains(&self, address: Address) -> (r: bool)
        ensures
            r == self@.contains(address),
    {
        contains_address(&self.items, address)
    }

    pub fn insert(&mut self, address: Address)
        ensures
            final(self)@ == old(self)@.insert(address),
    {
        if !contains_address(&self.items, address) {
            self.items.push(address);
        }
        proof {
            let before = old(self).items@;
            let after = self.items@;
            assert(after == before || after == before.push(address));
            assert forall|a: Address| #[trigger] after.contains(a) <==> before.contains(a) || a
                == address by {
                if before.contains(a) {
                    let i = choose|i: int| 0 <= i < before.len() && before[i] == a;
                    assert(after[i] == a);
                }
                if a == address && !before.contains(a) {
                    assert(after[before.len() as int] == a);
                }
            }
            assert(self@ =~= old(self)@.insert(address));
        }
    }

    pub fn remove(&mut self, address: Address)
        ensures
            final(self)@ == old(self)@.remove(address),
    {
        let mut kept: Vec<Address> = Vec::new();
        let mut i: usize = 0;
        assert(without(self.items@.take(0), address) =~= Seq::<Address>::empty()) by {
            reveal(Seq::filter);
        }
        while i < self.items.len()
            invariant
                i <= self.items.len(),
                self.items@ == old(self).items@,
                kept@ == without(self.items@.take(i as int), address),
            decreases self.items.len() - i,
        {
            let a = self.items[i];
            proof {
                assert(self.items@.take(i + 1).drop_last() =~= self.items@.take(i as int));
                assert(self.items@.take(i + 1).last() == a);
                reveal(Seq::filter);
            }
            if a != address {
                kept.push(a);
            }
            i += 1;
        }
        assert(self.items@.take(i as int) =~= self.items@);
        proof {
            lemma_without(self.items@, address);
        }
        self.items = kept;
        assert(self.items@ == without(old(self).items@, address));
        assert(self@ =~= old(self)@.remove(address));
    }
}

} // verus!
