//! A listing of things returned by a paginated endpoint.

use std::collections::VecDeque;
use vstd::prelude::*;

verus! {

/// A listing of things, consumed from the front.
#[derive(Debug, Clone)]
pub struct Listing<T> {
    /// The contents of the listing.
    pub children: VecDeque<T>,
}

impl<T> Listing<T> {
    /// Creates a new empty listing.
    pub fn new() -> (r: Listing<T>)
        ensures
            r.children@.len() == 0,
    {
        Listing { children: VecDeque::new() }
    }

    /// Removes and returns the first element, or `None` when empty.
    pub fn next(&mut self) -> (r: Option<T>)
        ensures
            old(self).children@.len() == 0 ==> r is None
                && final(self).children@ == old(self).children@,
            old(self).children@.len() > 0 ==> r == Some(old(self).children@[0])
                && final(self).children@ == old(self).children@.drop_first(),
    {
        self.children.pop_front()
    }
}

} // verus!
