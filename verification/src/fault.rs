//! The fatal faults of the machine, reported as values.

use crate::opcodes::Opcode;
use vstd::prelude::*;

verus! {

/// A fatal fault. Every fault ends the run; none is retried.
#[derive(Clone, Copy, Debug, PartialEq, Eq, Structural)]
pub enum Fault {
    /// The byte is not the encoding of any opcode.
    InvalidOpcode(u8),
    /// The byte is not the encoding of any addressing mode.
    InvalidAddrMode(u8),
    /// The opcode was executed with an operand shape it does not accept.
    InvalidOperand(Opcode),
    /// The register index lies outside the register table.
    UnknownRegister(u8),
    /// A device access beyond the device's size.
    OutOfBounds,
    /// A write to an address that no region covers.
    UnmappedWrite(u64),
    /// A read from a write-only device.
    WriteOnlyRead,
    /// A write to a read-only device.
    ReadOnlyWrite,
    /// A division whose divisor is zero.
    DivideByZero,
}

} // verus!
