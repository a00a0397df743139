//! Food that is eaten bite by bite.

use vstd::prelude::*;

verus! {

/// A bunch of grapes.
#[derive(Clone, Copy, Debug, PartialEq, Eq, Structural)]
pub struct Grapes {
    /// How many grapes are left on the bunch.
    pub total_left: i32,
}

impl Grapes {
    /// Takes one grape off the bunch.
    ///
    /// The count is not held at zero: a bite from an empty bunch leaves
    /// minus one. Only the least `i32` cannot be bitten from.
    pub fn bite(&mut self)
        requires
            old(self).total_left > i32::MIN,
        ensures
            final(self).total_left == old(self).total_left - 1,
    {
        self.total_left = self.total_left - 1;
    }
}

} // verus!
