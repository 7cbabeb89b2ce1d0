//! Engine-side bookkeeping for the rendering collaborator: erasure-group
//! identifiers handed out per drawable, the drawable primitives, and the
//! shape of the two render passes. Pipelines, buffers and presentation are
//! the collaborator's own work.

use vstd::prelude::*;

pub mod primitives;
pub mod render_pass;

verus! {

/// Hands out per-drawable group identifiers for GPU-side visibility masking.
pub struct GroupCounter {
    pub counter: u16,
}

impl GroupCounter {
    pub fn new() -> (r: GroupCounter)
        ensures
            r.counter == 1,
    {
        GroupCounter { counter: 1 }
    }

    /// The next free group identifier.
    pub fn next(&mut self) -> (r: u16)
        requires
            old(self).counter < u16::MAX,
        ensures
            r == old(self).counter,
            final(self).counter == old(self).counter + 1,
    {
        let r = self.counter;
        self.counter = self.counter + 1;
        r
    }
}

} // verus!
