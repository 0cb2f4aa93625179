//! Append-only arena for aggregator graph nodes.
//!
//! Items can only be inserted and read; an insertion hands back a
//! stable handle that stays valid for the arena's whole life.  The
//! arena's model is the sequence of items in insertion order, and a
//! handle is the item's position in that order.

use vstd::prelude::*;

verus! {

/// Stable handle to an item of a [`LinkVec`]: its position in
/// insertion order.
#[derive(Debug)]
pub struct LinkVecPtr<T> {
    pub index: usize,
    pub marker: core::marker::PhantomData<T>,
}

impl<T> LinkVecPtr<T> {
    /// The handle for position `index`.
    pub fn at(index: usize) -> (r: Self)
        ensures
            r.index == index,
    {
        LinkVecPtr { index, marker: core::marker::PhantomData }
    }
}

impl<T> Copy for LinkVecPtr<T> {

}

impl<T> Clone for LinkVecPtr<T> {
    fn clone(&self) -> (r: Self)
        ensures
            r.index == self.index,
    {
        LinkVecPtr { index: self.index, marker: core::marker::PhantomData }
    }
}

/// Arena that only supports insertion and reading; items are dropped
/// together when the arena is dropped.
pub struct LinkVec<T> {
    items: Vec<T>,
}

impl<T> View for LinkVec<T> {
    type V = Seq<T>;

    closed spec fn view(&self) -> Seq<T> {
        self.items@
    }
}

impl<T> LinkVec<T> {
    /// An empty arena.  The name records its contract: items put in
    /// stay reachable, and nothing is freed before the arena itself
    /// goes.
    pub fn leak() -> (r: Self)
        ensures
            r@ == Seq::<T>::empty(),
    {
        LinkVec { items: Vec::new() }
    }

    /// Number of items inserted so far.
    pub fn len(&self) -> (r: usize)
        ensures
            r == self@.len(),
    {
        self.items.len()
    }

    /// Insert an item and hand back its stable handle.
    pub fn push(&mut self, item: T) -> (r: LinkVecPtr<T>)
        ensures
            final(self)@ == old(self)@.push(item),
            r.index == old(self)@.len(),
    {
        let index = self.items.len();
        self.items.push(item);
        LinkVecPtr::at(index)
    }

    /// Read the item a handle refers to.
    pub fn get(&self, ptr: LinkVecPtr<T>) -> (r: &T)
        requires
            ptr.index < self@.len(),
        ensures
            *r == self@[ptr.index as int],
    {
        &self.items[ptr.index]
    }

    /// Read the item at a plain position.
    pub fn get_at(&self, index: usize) -> (r: &T)
        requires
            index < self@.len(),
        ensures
            *r == self@[index as int],
    {
        &self.items[index]
    }

    /// Replace the item a handle refers to.
    pub fn set(&mut self, ptr: LinkVecPtr<T>, item: T)
        requires
            ptr.index < old(self)@.len(),
        ensures
            final(self)@ == old(self)@.update(ptr.index as int, item),
    {
        self.items.set(ptr.index, item);
    }

    /// Walk the items in insertion order.
    pub fn iter<'a>(&'a self) -> (r: LinkVecIter<'a, T>)
        ensures
            r.arena@ == self@,
            r.position == 0,
    {
        LinkVecIter { arena: self, position: 0 }
    }
}

/// Cursor over a [`LinkVec`], yielding items in insertion order.
pub struct LinkVecIter<'a, T> {
    pub arena: &'a LinkVec<T>,
    pub position: usize,
}

impl<'a, T> LinkVecIter<'a, T> {
    /// The next item in insertion order, or nothing at the end.
    pub fn next(&mut self) -> (r: Option<&'a T>)
        ensures
            final(self).arena@ == old(self).arena@,
            old(self).position < old(self).arena@.len() ==> {
                &&& r matches Some(item) && *item == old(self).arena@[old(self).position as int]
                &&& final(self).position == old(self).position + 1
            },
            old(self).position >= old(self).arena@.len() ==> {
                &&& r is None
                &&& final(self).position == old(self).position
            },
    {
        if self.position < self.arena.items.len() {
            let item = &self.arena.items[self.position];
            self.position = self.position + 1;
            Some(item)
        } else {
            None
        }
    }

    /// Number of items not yet yielded.
    pub fn len(&self) -> (r: usize)
        ensures
            r == if self.arena@.len() >= self.position {
                self.arena@.len() - self.position
            } else {
                0
            },
    {
        if self.arena.items.len() >= self.position {
            self.arena.items.len() - self.position
        } else {
            0
        }
    }
}

} // verus!
