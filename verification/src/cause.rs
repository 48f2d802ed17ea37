//! Classification of the hardware trap cause.
//!
//! The `scause` register holds one machine word: its top bit tells an
//! interrupt from an exception, the bits below it hold a code. The classifier
//! turns that word into a [`Cause`], a closed set in which every code the
//! privileged architecture does not define for supervisor mode is `Unknown`.

use riscv::interrupt::Trap as ScauseTrap;
use riscv::register::scause::Scause;
use vstd::prelude::*;

verus! {

/// The two fields of a raw cause word: which kind of trap, and its code.
#[derive(Clone, Copy, Debug, PartialEq, Eq)]
pub enum Trap {
    /// Asynchronous: the top bit of the word is set.
    Interrupt(usize),
    /// Synchronous: the top bit of the word is clear.
    Exception(usize),
}

/// Source of an asynchronous trap.
#[derive(Clone, Copy, Debug, PartialEq, Eq)]
pub enum Interrupt {
    SupervisorSoft,
    SupervisorTimer,
    SupervisorExternal,
    /// A code with no standard supervisor-level meaning.
    Unknown,
}

/// Reason of a synchronous trap.
#[derive(Clone, Copy, Debug, PartialEq, Eq)]
pub enum Exception {
    InstructionMisaligned,
    InstructionFault,
    IllegalInstruction,
    Breakpoint,
    LoadMisaligned,
    LoadFault,
    StoreMisaligned,
    StoreFault,
    UserEnvCall,
    SupervisorEnvCall,
    InstructionPageFault,
    LoadPageFault,
    StorePageFault,
    /// A code with no standard supervisor-level meaning.
    Unknown,
}

/// Why a trap was taken.
#[derive(Clone, Copy, Debug, PartialEq, Eq)]
pub enum Cause {
    Interrupt(Interrupt),
    Exception(Exception),
}

/// The smallest cause word whose top bit is set.
pub open spec fn interrupt_bit() -> int {
    usize::MAX / 2 + 1
}

/// Whether the top bit of a cause word is set.
pub open spec fn is_interrupt(bits: usize) -> bool {
    bits >= interrupt_bit()
}

/// The cause word without its top bit.
pub open spec fn code_of(bits: usize) -> usize {
    if is_interrupt(bits) {
        (bits - interrupt_bit()) as usize
    } else {
        bits
    }
}

/// The fields of a cause word.
pub open spec fn trap_of(bits: usize) -> Trap {
    if is_interrupt(bits) {
        Trap::Interrupt(code_of(bits))
    } else {
        Trap::Exception(code_of(bits))
    }
}

/// The standard supervisor-level interrupt with the given code.
pub open spec fn interrupt_of(code: usize) -> Interrupt {
    if code == 1 {
        Interrupt::SupervisorSoft
    } else if code == 5 {
        Interrupt::SupervisorTimer
    } else if code == 9 {
        Interrupt::SupervisorExternal
    } else {
        Interrupt::Unknown
    }
}

/// The standard exception with the given code.
pub open spec fn exception_of(code: usize) -> Exception {
    if code == 0 {
        Exception::InstructionMisaligned
    } else if code == 1 {
        Exception::InstructionFault
    } else if code == 2 {
        Exception::IllegalInstruction
    } else if code == 3 {
        Exception::Breakpoint
    } else if code == 4 {
        Exception::LoadMisaligned
    } else if code == 5 {
        Exception::LoadFault
    } else if code == 6 {
        Exception::StoreMisaligned
    } else if code == 7 {
        Exception::StoreFault
    } else if code == 8 {
        Exception::UserEnvCall
    } else if code == 9 {
        Exception::SupervisorEnvCall
    } else if code == 12 {
        Exception::InstructionPageFault
    } else if code == 13 {
        Exception::LoadPageFault
    } else if code == 15 {
        Exception::StorePageFault
    } else {
        Exception::Unknown
    }
}

/// The cause that a raw cause word stands for.
pub open spec fn cause_of(bits: usize) -> Cause {
    match trap_of(bits) {
        Trap::Interrupt(code) => Cause::Interrupt(interrupt_of(code)),
        Trap::Exception(code) => Cause::Exception(exception_of(code)),
    }
}

/// Splits a cause word with `riscv::register::scause::Scause::from_bits` and
/// `Scause::cause`.
///
/// Trusted: `cause` reports an interrupt exactly when the top bit of the word
/// is set, and in both cases hands out the remaining low bits as the code.
#[verifier::external_body]
fn scause_trap(bits: usize) -> (trap: Trap)
    ensures
        trap == trap_of(bits),
{
    match Scause::from_bits(bits).cause() {
        ScauseTrap::Interrupt(code) => Trap::Interrupt(code),
        ScauseTrap::Exception(code) => Trap::Exception(code),
    }
}

impl Interrupt {
    /// Names the interrupt source that a code stands for.
    pub fn from_code(code: usize) -> (interrupt: Interrupt)
        ensures
            interrupt == interrupt_of(code),
    {
        match code {
            1 => Interrupt::SupervisorSoft,
            5 => Interrupt::SupervisorTimer,
            9 => Interrupt::SupervisorExternal,
            _ => Interrupt::Unknown,
        }
    }
}

impl Exception {
    /// Names the exception that a code stands for.
    pub fn from_code(code: usize) -> (exception: Exception)
        ensures
            exception == exception_of(code),
    {
        match code {
            0 => Exception::InstructionMisaligned,
            1 => Exception::InstructionFault,
            2 => Exception::IllegalInstruction,
            3 => Exception::Breakpoint,
            4 => Exception::LoadMisaligned,
            5 => Exception::LoadFault,
            6 => Exception::StoreMisaligned,
            7 => Exception::StoreFault,
            8 => Exception::UserEnvCall,
            9 => Exception::SupervisorEnvCall,
            12 => Exception::InstructionPageFault,
            13 => Exception::LoadPageFault,
            15 => Exception::StorePageFault,
            _ => Exception::Unknown,
        }
    }
}

/// Classifies a raw cause word. Every word has a cause: one that the
/// architecture leaves undefined is an `Unknown` interrupt or exception.
pub fn classify(bits: usize) -> (cause: Cause)
    ensures
        cause == cause_of(bits),
{
    match scause_trap(bits) {
        Trap::Interrupt(code) => Cause::Interrupt(Interrupt::from_code(code)),
        Trap::Exception(code) => Cause::Exception(Exception::from_code(code)),
    }
}

} // verus!
