//! A map from byte strings to Talos ids.

use vstd::prelude::*;

verus! {

/// What `entries` holds for `key`: of several entries the last one counts.
pub open spec fn lookup(entries: Seq<(Vec<u8>, u32)>, key: Seq<u8>) -> Option<u32>
    decreases entries.len(),
{
    if entries.len() == 0 {
        None
    } else if entries.last().0@ == key {
        Some(entries.last().1)
    } else {
        lookup(entries.drop_last(), key)
    }
}

/// Taking out an entry leaves what is held for other keys.
proof fn lemma_lookup_remove(entries: Seq<(Vec<u8>, u32)>, i: int, key: Seq<u8>)
    requires
        0 <= i < entries.len(),
        entries[i].0@ != key,
    ensures
        lookup(entries.remove(i), key) == lookup(entries, key),
    decreases entries.len(),
{
    let rest = entries.remove(i);
    if i == entries.len() - 1 {
        assert(rest =~= entries.drop_last());
    } else {
        assert(rest.last() == entries.last());
        assert(rest.drop_last() =~= entries.drop_last().remove(i));
        lemma_lookup_remove(entries.drop_last(), i, key);
    }
}

/// Without an entry for `key`, nothing is held for it.
proof fn lemma_lookup_absent(entries: Seq<(Vec<u8>, u32)>, key: Seq<u8>)
    requires
        forall|i: int| 0 <= i < entries.len() ==> (#[trigger] entries[i]).0@ != key,
    ensures
        lookup(entries, key) is None,
    decreases entries.len(),
{
    if entries.len() > 0 {
        lemma_lookup_absent(entries.drop_last(), key);
    }
}

/// With an entry for `key`, something is held for it.
proof fn lemma_lookup_present(entries: Seq<(Vec<u8>, u32)>, i: int, key: Seq<u8>)
    requires
        0 <= i < entries.len(),
        entries[i].0@ == key,
        forall|j: int| i < j < entries.len() ==> (#[trigger] entries[j]).0@ != key,
    ensures
        lookup(entries, key) == Some(entries[i].1),
    decreases entries.len(),
{
    if i < entries.len() - 1 {
        lemma_lookup_present(entries.drop_last(), i, key);
    }
}

/// Whether the two byte strings are the same.
pub fn same_bytes(a: &Vec<u8>, b: &Vec<u8>) -> (r: bool)
    ensures
        r == (a@ == b@),
{
    if a.len() != b.len() {
        return false;
    }
    let mut i: usize = 0;
    while i < a.len()
        invariant
            i <= a.len() == b.len(),
            forall|j: int| 0 <= j < i ==> a@[j] == b@[j],
        decreases a.len() - i,
    {
        if a[i] != b[i] {
            return false;
        }
        i += 1;
    }
    assert(a@ =~= b@);
    true
}

/// A finite map from byte strings to Talos ids.
pub struct NameTable {
    entries: Vec<(Vec<u8>, u32)>,
}

impl View for NameTable {
    type V = Map<Seq<u8>, u32>;

    closed spec fn view(&self) -> Map<Seq<u8>, u32> {
        Map::new(
            |key: Seq<u8>| lookup(self.entries@, key) is Some,
            |key: Seq<u8>| lookup(self.entries@, key)->0,
        )
    }
}

impl NameTable {
    /// The empty map.
    pub fn new() -> (r: Self)
        ensures
            r@ == Map::<Seq<u8>, u32>::empty(),
    {
        let r = NameTable { entries: Vec::new() };
        assert(r@ =~= Map::<Seq<u8>, u32>::empty());
        r
    }

    /// The position of the last entry for `key`.
    fn find(&self, key: &Vec<u8>) -> (r: Option<usize>)
        ensures
            match r {
                Some(i) => {
                    &&& i < self.entries@.len()
                    &&& self.entries@[i as int].0@ == key@
                    &&& lookup(self.entries@, key@) == Some(self.entries@[i as int].1)
                },
                None => lookup(self.entries@, key@) is None,
            },
    {
        let mut i: usize = self.entries.len();
        while i > 0
            invariant
                i <= self.entries.len(),
                forall|j: int|
                    i <= j < self.entries@.len() ==> (#[trigger] self.entries@[j]).0@ != key@,
            decreases i,
        {
            i -= 1;
            if same_bytes(&self.entries[i].0, key) {
                proof {
                    lemma_lookup_present(self.entries@, i as int, key@);
                }
                return Some(i);
            }
        }
        proof {
            lemma_lookup_absent(self.entries@, key@);
        }
        None
    }

    pub fn get(&self, key: &Vec<u8>) -> (r: Option<u32>)
        ensures
            r == (if self@.contains_key(key@) {
                Some(self@[key@])
            } else {
                None
            }),
    {
        match self.find(key) {
            Some(i) => Some(self.entries[i].1),
            None => None,
        }
    }

    pub fn remove(&mut self, key: &Vec<u8>)
        ensures
            final(self)@ == old(self)@.remove(key@),
    {
        loop
            invariant
                forall|k: Seq<u8>|
                    k != key@ ==> #[trigger] lookup(self.entries@, k) == lookup(
                        old(self).entries@,
                        k,
                    ),
            ensures
                lookup(self.entries@, key@) is None,
            decreases self.entries.len(),
        {
            match self.find(key) {
                Some(i) => {
                    let ghost before = self.entries@;
                    let _ = self.entries.remove(i);
                    assert forall|k: Seq<u8>| k != key@ implies #[trigger] lookup(self.entries@, k)
                        == lookup(old(self).entries@, k) by {
                        lemma_lookup_remove(before, i as int, k);
                    }
                },
                None => break,
            }
        }
        assert(self@ =~= old(self)@.remove(key@));
    }

    pub fn insert(&mut self, key: Vec<u8>, talos_id: u32)
        ensures
            final(self)@ == old(self)@.insert(key@, talos_id),
    {
        self.remove(&key);
        let ghost before = self.entries@;
        let ghost cleared = self@;
        self.entries.push((key, talos_id));
        assert(self.entries@.drop_last() =~= before);
        assert(self@ =~= cleared.insert(key@, talos_id));
        assert(self@ =~= old(self)@.insert(key@, talos_id));
    }
}

} // verus!
