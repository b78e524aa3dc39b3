//! Asset stores and handles.
//!
//! Assets are created once during setup and live for the process. A store
//! only ever grows, and entities refer to its assets through handles, so a
//! handle once issued stays valid.

use vstd::prelude::*;

verus! {

/// A reference into an asset store: the index at which the asset was added.
#[derive(Clone, Copy, PartialEq, Eq, Debug)]
pub struct Handle {
    pub index: usize,
}

/// A growing store of assets of one kind.
pub struct Assets<T> {
    pub items: Vec<T>,
}

impl<T> Assets<T> {
    /// An empty store.
    pub fn new() -> (s: Assets<T>)
        ensures
            s.items@.len() == 0,
    {
        Assets { items: Vec::new() }
    }

    /// Whether `h` points at an asset of this store.
    pub open spec fn holds(&self, h: Handle) -> bool {
        h.index < self.items@.len()
    }

    /// Adds one asset and hands back its handle. Nothing already stored
    /// moves, so older handles stay valid.
    pub fn add(&mut self, item: T) -> (h: Handle)
        ensures
            final(self).items@ == old(self).items@.push(item),
            h.index == old(self).items@.len(),
            final(self).holds(h),
    {
        let i = self.items.len();
        self.items.push(item);
        Handle { index: i }
    }

    /// Reads the asset a handle points at.
    pub fn get(&self, h: Handle) -> (r: &T)
        requires
            self.holds(h),
        ensures
            *r == self.items@[h.index as int],
    {
        &self.items[h.index]
    }

    /// How many assets the store holds.
    pub fn len(&self) -> (n: usize)
        ensures
            n == self.items@.len(),
    {
        self.items.len()
    }
}

} // verus!
