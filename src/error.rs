use vstd::prelude::*;

use crate::instruction::{InstructionMode, InstructionOperation};

verus! {

/// Every way a fetch-execute cycle can fail. None of them is retried: each
/// ends the current run.
#[derive(Debug, Clone, Copy, PartialEq, Eq, Structural)]
pub enum CpuError {
    /// The opcode byte has no instruction mapping.
    Decode { opcode: u8 },
    /// An operation asked a mode for something it cannot deliver: a plain
    /// byte from `Accumulator`, a location from `Relative`, or an input from a
    /// mode that has none.
    InvalidAddressing { mode: InstructionMode },
    /// An operation needed a memory address and the mode resolved to none.
    NoAddress { mode: InstructionMode },
    /// A real instruction whose semantics are not modelled.
    Unimplemented { operation: InstructionOperation },
    /// The bus could not serve an access at this address.
    Bus { address: u16 },
}

} // verus!
