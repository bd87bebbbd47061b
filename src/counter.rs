//! A map that counts occurrences of keys, ordered by key.

use std::collections::btree_map::Iter;
use std::collections::BTreeMap;
use std::ops::Index;
use vstd::laws_cmp::obeys_cmp;
use vstd::prelude::*;
use vstd::std_specs::btree::increasing_seq;
use vstd::std_specs::iter::IteratorSpec;

verus! {

/// Number of occurrences of each key seen so far. A key never seen has none
/// and no entry.
#[derive(Debug)]
pub struct Counter<T> {
    state: BTreeMap<T, u128>,
}

impl<T: Ord> Counter<T> {
    /// Each key seen so far, with its number of occurrences.
    pub closed spec fn counts(&self) -> Map<T, u128> {
        self.state@
    }

    /// Number of occurrences of `key`: 0 for a key never seen.
    pub open spec fn count_of(&self, key: T) -> nat {
        if self.counts().contains_key(key) {
            self.counts()[key] as nat
        } else {
            0
        }
    }

    /// A counter that has seen nothing.
    pub fn new() -> (r: Counter<T>)
        ensures
            r.counts() == Map::<T, u128>::empty(),
    {
        Counter { state: BTreeMap::new() }
    }

    /// The pairs of key and count, in increasing order of key.
    pub fn iter(&self) -> (r: Iter<'_, T, u128>)
        ensures
            obeys_cmp::<T>() ==> {
                &&& r.remaining().len() == self.counts().dom().len()
                &&& forall|i: int|
                    #![trigger r.remaining()[i]]
                    0 <= i < r.remaining().len() ==> self.counts().contains_key(*r.remaining()[i].0)
                        && self.counts()[*r.remaining()[i].0] == *r.remaining()[i].1
                &&& forall|k: T| #[trigger]
                    self.counts().contains_key(k) ==> r.remaining().contains(
                        (&k, &self.counts()[k]),
                    )
                &&& increasing_seq(r.remaining().map_values(|kv: (&T, &u128)| *kv.0))
            },
    {
        self.state.iter()
    }

    /// Number of distinct keys seen.
    pub fn len(&self) -> (r: usize)
        ensures
            obeys_cmp::<T>() ==> r == self.counts().len(),
    {
        self.state.len()
    }

    /// Counts one more occurrence of each item that `iter` yields.
    pub fn update_from_iter<I>(&mut self, iter: I)
        where
            I: Iterator<Item = T>,
        requires
            obeys_cmp::<T>(),
            iter.obeys_prophetic_iter_laws(),
            iter.decrease() is Some,
            forall|k: T| #[trigger] old(self).count_of(k) + iter.remaining().len() <= u128::MAX,
        ensures
            forall|k: T| #[trigger]
                final(self).count_of(k) == old(self).count_of(k) + iter.remaining().to_multiset().count(k),
            final(self).counts().dom() == old(self).counts().dom() + iter.remaining().to_set(),
    {
        let ghost all = iter.remaining();
        let ghost start = *self;
        let mut iter = iter;
        proof {
            broadcast use vstd::seq_lib::group_seq_properties;

            assert(all.subrange(0, 0) =~= Seq::<T>::empty());
            assert(start.counts().dom() + Set::<T>::empty() =~= start.counts().dom());
        }
        loop
            invariant
                obeys_cmp::<T>(),
                iter.obeys_prophetic_iter_laws(),
                iter.decrease() is Some,
                iter.remaining().len() <= all.len(),
                all.subrange(all.len() - iter.remaining().len(), all.len() as int) == iter.remaining(),
                forall|k: T| #[trigger] self.count_of(k) + iter.remaining().len() <= u128::MAX,
                forall|k: T| #[trigger]
                    self.count_of(k) == start.count_of(k) + all.subrange(
                        0,
                        all.len() - iter.remaining().len(),
                    ).to_multiset().count(k),
                self.counts().dom() == start.counts().dom() + all.subrange(
                    0,
                    all.len() - iter.remaining().len(),
                ).to_set(),
            ensures
                iter.remaining().len() == 0,
                forall|k: T| #[trigger]
                    self.count_of(k) == start.count_of(k) + all.to_multiset().count(k),
                self.counts().dom() == start.counts().dom() + all.to_set(),
            decreases iter.decrease()->0,
        {
            let ghost before = iter.remaining();
            let ghost done = all.subrange(0, all.len() - before.len());
            let ghost mid = *self;
            match iter.next() {
                Some(x) => {
                    let ghost done2 = all.subrange(0, all.len() - before.len() + 1);
                    proof {
                        broadcast use vstd::seq_lib::group_seq_properties;

                        assert(before[0] == x);
                        assert(done2 =~= done.push(x));
                        assert(done2.to_multiset() =~= done.to_multiset().insert(x));
                        assert(done2.to_set() =~= done.to_set().insert(x));
                    }
                    self.update_from_value(x);
                    proof {
                        assert(iter.remaining() =~= before.drop_first());
                        assert forall|k: T|
                            #[trigger] self.count_of(k) == start.count_of(k)
                                + done2.to_multiset().count(k) && self.count_of(k)
                                + iter.remaining().len() <= u128::MAX by {
                            assert(mid.count_of(k) + before.len() <= u128::MAX);
                            if k != x {
                                assert(self.count_of(k) == mid.count_of(k));
                            }
                        }
                        assert(self.counts().dom() =~= start.counts().dom() + done2.to_set());
                    }
                },
                None => {
                    proof {
                        assert(done =~= all);
                    }
                    break;
                },
            }
        }
    }

    /// Number of occurrences of `key`: 0 for a key never seen.
    pub fn count(&self, key: &T) -> (r: u128)
        ensures
            obeys_cmp::<T>() ==> r == self.count_of(*key),
    {
        match self.state.get(key) {
            Some(v) => *v,
            None => 0,
        }
    }

    /// Counts one more occurrence of `elem`.
    pub fn update_from_value(&mut self, elem: T)
        requires
            obeys_cmp::<T>(),
            old(self).count_of(elem) < u128::MAX,
        ensures
            final(self).counts() == old(self).counts().insert(
                elem,
                (old(self).count_of(elem) + 1) as u128,
            ),
    {
        let c: u128 = match self.state.get(&elem) {
            Some(v) => *v,
            None => 0,
        };
        self.state.insert(elem, c + 1);
    }
}

impl<T: Ord> Index<T> for Counter<T> {
    type Output = u128;

    /// Number of occurrences of `key`: 0 for a key never seen.
    fn index(&self, key: T) -> &u128 {
        match self.state.get(&key) {
            Some(v) => v,
            None => &0,
        }
    }
}

impl<T: Ord> vstd::std_specs::core::IndexSpecImpl<T> for Counter<T> {
    open spec fn index_req(&self, key: &T) -> bool {
        true
    }
}

} // verus!
