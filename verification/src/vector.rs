//! The word that the trap-vector register holds.
//!
//! `stvec` keeps the address of the trap entry point in its upper bits and the
//! vectoring mode in its lowest two, so an entry point is aligned to four
//! bytes.

use riscv::register::stvec::Stvec;
use riscv::register::stvec::TrapMode as StvecMode;
use riscv::result::Error as RegisterError;
use vstd::prelude::*;

verus! {

#[verifier::external_type_specification]
#[verifier::external_body]
pub struct ExRegisterError(RegisterError);

/// How the hart picks the address it jumps to on a trap.
#[derive(Clone, Copy, Debug, PartialEq, Eq)]
pub enum TrapMode {
    /// Every trap enters at the base address.
    Direct,
    /// An interrupt enters at the base address plus four times its code.
    Vectored,
}

/// The value of the mode field for a mode.
pub open spec fn mode_bits(mode: TrapMode) -> int {
    match mode {
        TrapMode::Direct => 0,
        TrapMode::Vectored => 1,
    }
}

/// Whether an address can be the base of the trap vector.
pub open spec fn is_aligned(address: usize) -> bool {
    address % 4 == 0
}

/// The register word for an aligned base address and a mode.
pub open spec fn vector_word(address: usize, mode: TrapMode) -> int {
    address + mode_bits(mode)
}

/// The base address that a register word holds.
pub open spec fn base_of(word: int) -> int {
    word - word % 4
}

/// The mode field that a register word holds.
pub open spec fn mode_of(word: int) -> int {
    word % 4
}

/// The word for an aligned address and a mode holds that address as its base
/// and that mode in its mode field, and fits a machine word.
pub proof fn lemma_vector_word_fields(address: usize, mode: TrapMode)
    requires
        is_aligned(address),
    ensures
        base_of(vector_word(address, mode)) == address,
        mode_of(vector_word(address, mode)) == mode_bits(mode),
        vector_word(address, mode) <= usize::MAX,
{
}

/// Composes the register word with `riscv::register::stvec::Stvec::try_new`
/// and reads it back with `Stvec::bits`.
///
/// Trusted: `try_new` fails exactly on an address that is not a multiple of
/// four; otherwise the word is the address with the mode in its two lowest
/// bits.
#[verifier::external_body]
pub(crate) fn stvec_word(address: usize, mode: TrapMode) -> (word: Result<usize, RegisterError>)
    ensures
        word is Ok <==> is_aligned(address),
        word is Ok ==> word->Ok_0 == vector_word(address, mode),
{
    let mode = match mode {
        TrapMode::Direct => StvecMode::Direct,
        TrapMode::Vectored => StvecMode::Vectored,
    };
    match Stvec::try_new(address, mode) {
        Ok(stvec) => Ok(stvec.bits()),
        Err(error) => Err(error),
    }
}

} // verus!
