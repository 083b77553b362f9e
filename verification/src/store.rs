//! The append-only history of saved layouts.
//!
//! A store is a sequence that only grows at its end. Exclusive access while it
//! changes is what `&mut` already demands, so a server that shares one store
//! among its tasks has to take a lock around each call, and every outcome is
//! then the outcome of running the calls one after another in some order.

use crate::geometry::{Layout, LayoutView};
use vstd::prelude::*;

verus! {

/// The last entry of `history`, or nothing where it is empty.
pub open spec fn latest_of(history: Seq<LayoutView>) -> Option<LayoutView> {
    if history.len() == 0 {
        None
    } else {
        Some(history.last())
    }
}

/// Every layout saved so far, oldest first.
pub struct LayoutStore {
    history: Vec<Layout>,
}

impl View for LayoutStore {
    type V = Seq<LayoutView>;

    closed spec fn view(&self) -> Seq<LayoutView> {
        self.history@.map_values(|layout: Layout| layout@)
    }
}

impl Default for LayoutStore {
    fn default() -> (store: Self)
        ensures
            store@ == Seq::<LayoutView>::empty(),
    {
        LayoutStore::new()
    }
}

impl LayoutStore {
    /// A store that holds nothing yet.
    pub fn new() -> (store: Self)
        ensures
            store@ == Seq::<LayoutView>::empty(),
    {
        let store = LayoutStore { history: Vec::new() };
        assert(store@ =~= Seq::<LayoutView>::empty());
        store
    }

    /// Adds `layout` at the end of the history. Nothing that was there before
    /// is touched.
    pub fn append(&mut self, layout: Layout)
        ensures
            final(self)@ == old(self)@.push(layout@),
    {
        self.history.push(layout);
        assert(self@ =~= old(self)@.push(layout@));
    }

    /// A copy of the layout appended last, or `None` while the store is empty.
    pub fn latest(&self) -> (found: Option<Layout>)
        ensures
            match found {
                Some(layout) => latest_of(self@) == Some(layout@),
                None => latest_of(self@) is None,
            },
    {
        let n: usize = self.history.len();
        if n == 0 {
            None
        } else {
            Some(self.history[n - 1].clone())
        }
    }

    /// How many layouts have been appended. All of them are kept, though only
    /// the newest is ever handed out.
    pub fn len(&self) -> (n: usize)
        ensures
            n == self@.len(),
    {
        self.history.len()
    }
}

} // verus!
