//! An index from an id to the ids listed under it, in the order they were
//! listed.

use vstd::prelude::*;
use std::collections::HashMap;

verus! {

broadcast use vstd::std_specs::hash::group_hash_axioms;

/// A copy of a list of ids.
fn copy_id_list(v: &Vec<u128>) -> (r: Vec<u128>)
    ensures
        r@ == v@,
{
    let mut r: Vec<u128> = Vec::new();
    let mut i: usize = 0;
    while i < v.len()
        invariant
            i <= v.len(),
            r@ == v@.subrange(0, i as int),
        decreases v.len() - i,
    {
        r.push(v[i]);
        i = i + 1;
    }
    assert(r@ =~= v@);
    r
}

/// Lists of ids kept in a map by the id they are listed under.
pub struct IdIndex {
    lists: HashMap<u128, Vec<u128>>,
}

impl IdIndex {
    /// The ids listed under `k`, in the order they were listed; none where
    /// nothing was.
    pub closed spec fn listed(&self, k: u128) -> Seq<u128> {
        if self.lists@.contains_key(k) {
            self.lists@[k]@
        } else {
            Seq::empty()
        }
    }

    /// An index that lists nothing.
    pub fn new() -> (r: Self)
        ensures
            forall|k: u128| #[trigger] r.listed(k) == Seq::<u128>::empty(),
    {
        IdIndex { lists: HashMap::new() }
    }

    /// Lists `id` last under `k`.
    pub fn append(&mut self, k: u128, id: u128)
        ensures
            forall|j: u128| #[trigger]
                final(self).listed(j) == if j == k {
                    old(self).listed(j).push(id)
                } else {
                    old(self).listed(j)
                },
    {
        let mut list: Vec<u128> = match self.lists.get(&k) {
            Some(l) => copy_id_list(l),
            None => Vec::new(),
        };
        list.push(id);
        self.lists.insert(k, list);
    }

    /// The ids listed under `k`.
    pub fn ids(&self, k: u128) -> (r: Vec<u128>)
        ensures
            r@ == self.listed(k),
    {
        match self.lists.get(&k) {
            Some(l) => copy_id_list(l),
            None => Vec::new(),
        }
    }
}

} // verus!
