//! The completion handles of the operations that are pending, by id.

use std::collections::BTreeMap;
use vstd::prelude::*;

verus! {

broadcast use {vstd::std_specs::btree::group_btree_axioms, vstd::laws_cmp::group_laws_cmp};

pub struct ResolverTable<R> {
    pub handles: BTreeMap<usize, R>,
}

impl<R> View for ResolverTable<R> {
    type V = Map<usize, R>;

    open spec fn view(&self) -> Map<usize, R> {
        self.handles@
    }
}

impl<R> ResolverTable<R> {
    pub fn new() -> (table: Self)
        ensures
            table@ == Map::<usize, R>::empty(),
    {
        ResolverTable { handles: BTreeMap::new() }
    }

    pub fn len(&self) -> (n: usize)
        ensures
            n == self@.len(),
    {
        self.handles.len()
    }

    /// Binds `id` to `resolver`, and hands back the handle that `id` was
    /// bound to before, if any.
    pub fn insert(&mut self, id: usize, resolver: R) -> (previous: Option<R>)
        ensures
            final(self)@ == old(self)@.insert(id, resolver),
            previous.is_some() <==> old(self)@.contains_key(id),
            previous matches Some(p) ==> p == old(self)@[id],
    {
        self.handles.insert(id, resolver)
    }

    /// Takes the handle of `id` out of the table, if it has one.
    pub fn remove(&mut self, id: usize) -> (taken: Option<R>)
        ensures
            final(self)@ == old(self)@.remove(id),
            taken.is_some() <==> old(self)@.contains_key(id),
            taken matches Some(r) ==> r == old(self)@[id],
    {
        self.handles.remove(&id)
    }

    /// Drops every handle.
    pub fn clear(&mut self)
        ensures
            final(self)@ == Map::<usize, R>::empty(),
    {
        self.handles.clear();
    }
}

} // verus!
