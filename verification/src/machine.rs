//! A model of the hart across a run of traps, and what holds of it.
//!
//! The dispatcher handles one trap at a time. The model strings the traps
//! together: it keeps the saved context and the tick count from one trap to
//! the next, and stops at the first trap that is fatal.

use crate::cause::{cause_of, Cause, Exception, Interrupt};
use crate::context::Context;
use crate::handler::{context_after, in_range, outcome_of, route, ticks_after, Handler};
use vstd::prelude::*;

verus! {

/// What the trap handling has made of the system so far.
pub struct Machine {
    /// The context that the interrupted code resumes from.
    pub context: Context,
    /// Timer interrupts counted.
    pub ticks: nat,
    /// Whether a fatal trap has stopped the system.
    pub halted: bool,
}

/// Whether a cause word leads to a handler that halts the system.
pub open spec fn is_fatal(scause: usize) -> bool {
    route(cause_of(scause)) == Handler::LoadFault || route(cause_of(scause)) == Handler::Fault
}

/// Whether a cause word stands for the supervisor timer interrupt.
pub open spec fn is_timer(scause: usize) -> bool {
    cause_of(scause) == Cause::Interrupt(Interrupt::SupervisorTimer)
}

/// The machine after one more trap. A halted machine takes no trap.
pub open spec fn step(machine: Machine, scause: usize) -> Machine {
    if machine.halted {
        machine
    } else {
        Machine {
            context: context_after(machine.context, scause),
            ticks: ticks_after(machine.ticks, scause),
            halted: is_fatal(scause),
        }
    }
}

/// The machine after the traps of `causes`, taken in order.
pub open spec fn run(machine: Machine, causes: Seq<usize>) -> Machine
    decreases causes.len(),
{
    if causes.len() == 0 {
        machine
    } else {
        step(run(machine, causes.drop_last()), causes.last())
    }
}

/// Every cause has exactly one handler: each of the three named causes has
/// its own, and the fallback takes every other cause and no named one.
pub proof fn lemma_route_is_total(cause: Cause)
    ensures
        route(cause) == Handler::Breakpoint <==> cause == Cause::Exception(Exception::Breakpoint),
        route(cause) == Handler::LoadFault <==> cause == Cause::Exception(Exception::LoadFault),
        route(cause) == Handler::SupervisorTimer <==> cause == Cause::Interrupt(
            Interrupt::SupervisorTimer,
        ),
        route(cause) == Handler::Fault <==> (cause != Cause::Exception(Exception::Breakpoint)
            && cause != Cause::Exception(Exception::LoadFault) && cause != Cause::Interrupt(
            Interrupt::SupervisorTimer,
        )),
{
}

/// Handling a breakpoint moves the resume address forward by the width of
/// the breakpoint instruction and changes nothing else: no register, no
/// status bit, no tick.
pub proof fn lemma_breakpoint_skips(context: Context, ticks: nat, scause: usize)
    requires
        cause_of(scause) == Cause::Exception(Exception::Breakpoint),
        in_range(context, ticks, scause),
    ensures
        context_after(context, scause).sepc == context.sepc + 2,
        context_after(context, scause).x == context.x,
        context_after(context, scause).sstatus == context.sstatus,
        ticks_after(ticks, scause) == ticks,
        !is_fatal(scause),
{
}

/// A trap changes the saved context only if it is a breakpoint, and the tick
/// count only if it is a timer interrupt.
pub proof fn lemma_handlers_keep_to_their_state(context: Context, ticks: nat, scause: usize)
    ensures
        cause_of(scause) != Cause::Exception(Exception::Breakpoint) ==> context_after(
            context,
            scause,
        ) == context,
        !is_timer(scause) ==> ticks_after(ticks, scause) == ticks,
        is_timer(scause) ==> ticks_after(ticks, scause) == ticks + 1,
{
}

/// A run of timer interrupts with no other trap in between raises the tick
/// count by the length of the run and leaves the saved context untouched.
pub proof fn lemma_timer_run(machine: Machine, causes: Seq<usize>)
    requires
        !machine.halted,
        forall|i: int| 0 <= i < causes.len() ==> is_timer(#[trigger] causes[i]),
    ensures
        run(machine, causes).ticks == machine.ticks + causes.len(),
        run(machine, causes).context == machine.context,
        !run(machine, causes).halted,
    decreases causes.len(),
{
    if causes.len() > 0 {
        lemma_timer_run(machine, causes.drop_last());
    }
}

/// A load fault, and every trap that goes to the fallback, ends in a halt:
/// the outcome is fatal whatever the context and the fault value are, and
/// neither the context nor the tick count has changed.
pub proof fn lemma_fatal_outcome(context: Context, ticks: nat, scause: usize, stval: usize)
    ensures
        outcome_of(context, scause, stval).halts() <==> is_fatal(scause),
        is_fatal(scause) ==> context_after(context, scause) == context && ticks_after(
            ticks,
            scause,
        ) == ticks,
        is_fatal(scause) <==> (cause_of(scause) != Cause::Exception(Exception::Breakpoint)
            && !is_timer(scause)),
{
}

/// Once a fatal trap was taken nothing runs any more: whatever traps follow,
/// the machine stays as the fatal trap left it.
pub proof fn lemma_halt_is_final(machine: Machine, scause: usize, rest: Seq<usize>)
    requires
        !machine.halted,
        is_fatal(scause),
    ensures
        run(machine, seq![scause] + rest) == (Machine {
            context: machine.context,
            ticks: machine.ticks,
            halted: true,
        }),
    decreases rest.len(),
{
    let all = seq![scause] + rest;
    if rest.len() == 0 {
        assert(all.drop_last() =~= Seq::<usize>::empty());
        assert(all.last() == scause);
        assert(run(machine, all.drop_last()) == machine);
    } else {
        lemma_halt_is_final(machine, scause, rest.drop_last());
        assert(all.drop_last() =~= seq![scause] + rest.drop_last());
    }
}

} // verus!
