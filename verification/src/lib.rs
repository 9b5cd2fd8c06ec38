//! A model of the disassembler's view of a program: decoded instructions,
//! their operands, and the program's entry points.
use vstd::prelude::*;

pub mod entry;
pub mod insn;

verus! {

/// A virtual address in the analysed program.
pub type Address = u64;

/// The address that stands for "no address".
pub const BADADDR: Address = 0xFFFF_FFFF_FFFF_FFFF;

/// "No address" is the all-ones address, the largest an address can be.
pub proof fn lemma_badaddr_is_all_ones(a: Address)
    ensures
        BADADDR == u64::MAX,
        a <= BADADDR,
{
}

} // verus!
