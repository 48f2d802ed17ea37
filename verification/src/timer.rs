//! The count of timer interrupts.

use vstd::prelude::*;

verus! {

/// How many timer interrupts were handled since the system started.
///
/// The count starts at zero and only the timer interrupt handler advances it,
/// by one for each interrupt; everybody else can only read it.
#[derive(Debug)]
pub struct TickCounter {
    ticks: usize,
}

impl View for TickCounter {
    type V = nat;

    closed spec fn view(&self) -> nat {
        self.ticks as nat
    }
}

impl TickCounter {
    /// A counter that has seen no interrupt yet.
    pub fn new() -> (counter: TickCounter)
        ensures
            counter@ == 0,
    {
        TickCounter { ticks: 0 }
    }

    /// The number of timer interrupts counted so far.
    pub fn get(&self) -> (ticks: usize)
        ensures
            ticks == self@,
    {
        self.ticks
    }

    /// Counts one more timer interrupt.
    pub(crate) fn tick(&mut self)
        requires
            old(self)@ < usize::MAX,
        ensures
            final(self)@ == old(self)@ + 1,
    {
        self.ticks = self.ticks + 1;
    }
}

} // verus!
