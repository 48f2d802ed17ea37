//! The trap dispatcher and its handlers.
//!
//! A breakpoint is skipped: the resume address moves past the two-byte
//! `c.ebreak` that raised it, so that resuming does not trap again. A timer
//! interrupt is counted. A load fault, and every cause without a handler of
//! its own, is fatal: the handler hands back what there is to report and the
//! caller halts the system.

use crate::cause::{cause_of, classify, Cause, Exception, Interrupt};
use crate::context::Context;
use crate::timer::TickCounter;
use crate::vector::{base_of, is_aligned, mode_bits, mode_of, stvec_word, TrapMode};
use vstd::prelude::*;

verus! {

/// Width in bytes of the instruction that raises a breakpoint.
pub const BREAKPOINT_WIDTH: usize = 2;

/// Why the trap vector could not be set up.
#[derive(Clone, Copy, Debug, PartialEq, Eq)]
pub enum InstallError {
    /// The entry point is not aligned to four bytes.
    MisalignedEntry,
}

/// The handlers that a trap can be routed to.
#[derive(Clone, Copy, Debug, PartialEq, Eq)]
pub enum Handler {
    Breakpoint,
    LoadFault,
    SupervisorTimer,
    /// For every cause that none of the others takes.
    Fault,
}

/// What a handler leaves for its caller to do.
#[derive(Clone, Copy, Debug, PartialEq, Eq)]
pub enum Outcome {
    /// A breakpoint was hit at `sepc`: report it and resume.
    Breakpoint { sepc: usize },
    /// A timer interrupt was counted: resume.
    Tick,
    /// A load faulted: report the context and the fault value, then halt.
    LoadFault { context: Context, stval: usize },
    /// No handler takes this cause: report it, the context and the fault
    /// value, then halt.
    Unresolved { cause: Cause, context: Context, stval: usize },
}

impl Outcome {
    /// Whether the system stops for good instead of resuming.
    pub open spec fn halts(self) -> bool {
        self is LoadFault || self is Unresolved
    }

    /// Whether the system stops for good instead of resuming.
    pub fn is_fatal(&self) -> (fatal: bool)
        ensures
            fatal == self.halts(),
    {
        match self {
            Outcome::Breakpoint { .. } => false,
            Outcome::Tick => false,
            Outcome::LoadFault { .. } => true,
            Outcome::Unresolved { .. } => true,
        }
    }
}

/// The handler that takes a cause.
pub open spec fn route(cause: Cause) -> Handler {
    match cause {
        Cause::Exception(Exception::Breakpoint) => Handler::Breakpoint,
        Cause::Exception(Exception::LoadFault) => Handler::LoadFault,
        Cause::Interrupt(Interrupt::SupervisorTimer) => Handler::SupervisorTimer,
        _ => Handler::Fault,
    }
}

/// The saved context after a trap with the given cause word was handled.
pub open spec fn context_after(context: Context, scause: usize) -> Context {
    match route(cause_of(scause)) {
        Handler::Breakpoint => context.with_sepc((context.sepc + BREAKPOINT_WIDTH) as usize),
        _ => context,
    }
}

/// The tick count after a trap with the given cause word was handled.
pub open spec fn ticks_after(ticks: nat, scause: usize) -> nat {
    match route(cause_of(scause)) {
        Handler::SupervisorTimer => ticks + 1,
        _ => ticks,
    }
}

/// What handling a trap leaves to the caller.
pub open spec fn outcome_of(context: Context, scause: usize, stval: usize) -> Outcome {
    match route(cause_of(scause)) {
        Handler::Breakpoint => Outcome::Breakpoint { sepc: context.sepc },
        Handler::LoadFault => Outcome::LoadFault { context, stval },
        Handler::SupervisorTimer => Outcome::Tick,
        Handler::Fault => Outcome::Unresolved { cause: cause_of(scause), context, stval },
    }
}

/// Whether the dispatcher can handle the trap without leaving the range of a
/// machine word: a breakpoint needs room to move the resume address, a timer
/// interrupt needs room in the counter.
pub open spec fn in_range(context: Context, ticks: nat, scause: usize) -> bool {
    match route(cause_of(scause)) {
        Handler::Breakpoint => context.sepc + BREAKPOINT_WIDTH <= usize::MAX,
        Handler::SupervisorTimer => ticks < usize::MAX,
        _ => true,
    }
}

/// The word to write into the trap-vector register so that every trap,
/// whatever its cause, enters at `entry`.
///
/// Writing the word is left to the caller, who does so once, before any
/// interrupt source is enabled.
pub fn init(entry: usize) -> (word: Result<usize, InstallError>)
    ensures
        is_aligned(entry) ==> word == Ok::<usize, InstallError>(entry),
        !is_aligned(entry) ==> word == Err::<usize, InstallError>(InstallError::MisalignedEntry),
        word matches Ok(w) ==> base_of(w as int) == entry && mode_of(w as int) == mode_bits(
            TrapMode::Direct,
        ),
{
    match stvec_word(entry, TrapMode::Direct) {
        Ok(word) => Ok(word),
        Err(_) => Err(InstallError::MisalignedEntry),
    }
}

/// Picks the handler for a cause.
pub fn select(cause: Cause) -> (handler: Handler)
    ensures
        handler == route(cause),
{
    match cause {
        Cause::Exception(Exception::Breakpoint) => Handler::Breakpoint,
        Cause::Exception(Exception::LoadFault) => Handler::LoadFault,
        Cause::Interrupt(Interrupt::SupervisorTimer) => Handler::SupervisorTimer,
        _ => Handler::Fault,
    }
}

/// Tests whether the dispatcher can take a trap with this cause word on this
/// context and counter without leaving the range of a machine word.
pub fn is_in_range(context: &Context, ticks: &TickCounter, scause: usize) -> (fits: bool)
    ensures
        fits == in_range(*context, ticks@, scause),
{
    match select(classify(scause)) {
        Handler::Breakpoint => context.sepc <= usize::MAX - BREAKPOINT_WIDTH,
        Handler::SupervisorTimer => ticks.get() < usize::MAX,
        _ => true,
    }
}

/// Handles one trap: classifies the cause word, runs the handler that takes
/// the cause, and tells the caller whether to resume or to halt.
pub fn handle_interrupt(
    context: &mut Context,
    ticks: &mut TickCounter,
    scause: usize,
    stval: usize,
) -> (outcome: Outcome)
    requires
        in_range(*old(context), old(ticks)@, scause),
    ensures
        outcome == outcome_of(*old(context), scause, stval),
        *final(context) == context_after(*old(context), scause),
        final(ticks)@ == ticks_after(old(ticks)@, scause),
{
    let cause = classify(scause);
    match select(cause) {
        Handler::Breakpoint => breakpoint(context),
        Handler::LoadFault => loadfault(context, stval),
        Handler::SupervisorTimer => supervisor_timer(ticks),
        Handler::Fault => fault(context, cause, stval),
    }
}

/// Handles a breakpoint: notes where it was hit and moves the resume address
/// past the instruction that raised it.
pub fn breakpoint(context: &mut Context) -> (outcome: Outcome)
    requires
        old(context).sepc + BREAKPOINT_WIDTH <= usize::MAX,
    ensures
        outcome == (Outcome::Breakpoint { sepc: old(context).sepc }),
        *final(context) == old(context).with_sepc((old(context).sepc + BREAKPOINT_WIDTH) as usize),
{
    let sepc = context.sepc;
    context.set_sepc(sepc + BREAKPOINT_WIDTH);
    Outcome::Breakpoint { sepc }
}

/// Handles a load fault: there is no recovery, so the context and the
/// faulting address go into the report and the system halts.
pub fn loadfault(context: &Context, stval: usize) -> (outcome: Outcome)
    ensures
        outcome == (Outcome::LoadFault { context: *context, stval }),
        outcome.halts(),
{
    Outcome::LoadFault { context: *context, stval }
}

/// Handles a timer interrupt: counts it and touches nothing else.
pub fn supervisor_timer(ticks: &mut TickCounter) -> (outcome: Outcome)
    requires
        old(ticks)@ < usize::MAX,
    ensures
        outcome == Outcome::Tick,
        final(ticks)@ == old(ticks)@ + 1,
{
    ticks.tick();
    Outcome::Tick
}

/// Handles a trap that no other handler takes: the cause, the context and
/// the fault value go into the report and the system halts.
pub fn fault(context: &Context, cause: Cause, stval: usize) -> (outcome: Outcome)
    ensures
        outcome == (Outcome::Unresolved { cause, context: *context, stval }),
        outcome.halts(),
{
    Outcome::Unresolved { cause, context: *context, stval }
}

} // verus!
