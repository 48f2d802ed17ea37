//! The processor state saved on trap entry.

use vstd::prelude::*;

verus! {

/// Number of general-purpose registers of a hart.
pub const REGISTER_COUNT: usize = 32;

/// The registers of the interrupted code, as the entry glue saved them.
///
/// A context lives for one trap: the glue fills it on entry, lends it to the
/// dispatcher, and restores the hart from it before resuming at `sepc`.
#[derive(Clone, Copy, Debug, PartialEq, Eq)]
pub struct Context {
    /// General-purpose registers `x0` to `x31`.
    pub x: [usize; REGISTER_COUNT],
    /// Saved `sstatus`: previous privilege mode and interrupt-enable state.
    pub sstatus: usize,
    /// Address at which execution resumes.
    pub sepc: usize,
}

impl Context {
    /// This context with its resume address replaced by `sepc`.
    pub open spec fn with_sepc(self, sepc: usize) -> Context {
        Context { x: self.x, sstatus: self.sstatus, sepc }
    }

    /// Moves the resume address to `sepc` and leaves every register as it was.
    pub fn set_sepc(&mut self, sepc: usize)
        ensures
            *final(self) == old(self).with_sepc(sepc),
    {
        self.sepc = sepc;
    }
}

} // verus!
