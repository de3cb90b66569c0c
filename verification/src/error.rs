//! The failures that the emulation core reports.

use vstd::prelude::*;

verus! {

/// Why an instruction could not be carried out. Every failure is
/// deterministic: repeating the step on the same machine state fails in
/// the same way.
#[derive(Debug, Clone, Copy, PartialEq, Eq, Structural)]
pub enum CpuError {
    /// The fetched byte has no entry in the opcode table.
    UnknownOpcode(u8),
    /// The resolver was asked for the address of an operand that the
    /// instruction does not have.
    InvalidAddressingMode,
    /// Address arithmetic left the 64 KiB of memory.
    MemoryAddressOutOfRange,
}

} // verus!
