use std::collections::HashMap;
use vstd::prelude::*;

verus! {

broadcast use vstd::std_specs::hash::group_hash_axioms;

/// Failure of [`AssociationTable::bind`]: the window already has a decoration object.
#[derive(Clone, Copy, Debug, PartialEq, Eq, Structural)]
pub struct AlreadyBound;

/// For each top-level window (by identity), the decoration object bound to it, if any.
pub struct AssociationTable {
    slots: HashMap<u64, u64>,
}

impl View for AssociationTable {
    type V = Map<u64, u64>;

    closed spec fn view(&self) -> Map<u64, u64> {
        self.slots@
    }
}

impl AssociationTable {
    /// A table in which no window has a decoration object.
    pub fn new() -> (r: AssociationTable)
        ensures
            r@ == Map::<u64, u64>::empty(),
    {
        AssociationTable { slots: HashMap::new() }
    }

    /// The decoration object bound to `window`, if any.
    pub fn get(&self, window: u64) -> (r: Option<u64>)
        ensures
            r == (if self@.contains_key(window) {
                Some(self@[window])
            } else {
                None::<u64>
            }),
    {
        match self.slots.get(&window) {
            Some(d) => Some(*d),
            None => None,
        }
    }

    /// Binds `decoration` to `window` if the window has none; otherwise leaves
    /// the table as it was and fails.
    pub fn bind(&mut self, window: u64, decoration: u64) -> (r: Result<(), AlreadyBound>)
        ensures
            old(self)@.contains_key(window) ==> r == Err::<(), AlreadyBound>(AlreadyBound)
                && final(self)@ == old(self)@,
            !old(self)@.contains_key(window) ==> r == Ok::<(), AlreadyBound>(())
                && final(self)@ == old(self)@.insert(window, decoration),
    {
        if self.slots.contains_key(&window) {
            Err(AlreadyBound)
        } else {
            self.slots.insert(window, decoration);
            Ok(())
        }
    }

    /// Clears the slot of `window`, whether or not it held anything.
    pub fn unbind(&mut self, window: u64)
        ensures
            final(self)@ == old(self)@.remove(window),
    {
        self.slots.remove(&window);
    }
}

} // verus!
