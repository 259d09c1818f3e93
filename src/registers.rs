use vstd::prelude::*;

use crate::flags::StatusFlags;

verus! {

/// The processor's registers: accumulator, two index registers, stack
/// pointer, status flags and program counter.
#[derive(Debug, Clone, Copy, PartialEq, Eq, Structural)]
pub struct RegisterSet {
    pub a: u8,
    pub x: u8,
    pub y: u8,
    pub s: u8,
    pub p: StatusFlags,
    pub pc: u16,
}

impl RegisterSet {
    /// All registers zero and no flag set, but the stack pointer, which
    /// starts at 0xFF (an empty stack).
    pub open spec fn initial() -> RegisterSet {
        RegisterSet { a: 0, x: 0, y: 0, s: 0xFF, p: StatusFlags::empty_spec(), pc: 0 }
    }

    pub fn new() -> (r: RegisterSet)
        ensures
            r == Self::initial(),
    {
        RegisterSet { a: 0, x: 0, y: 0, s: 0xFF, p: StatusFlags::empty(), pc: 0 }
    }
}

/// The interrupt and reset vectors, read once when the processor is built.
#[derive(Debug, Clone, Copy, PartialEq, Eq, Structural)]
pub struct VectorSet {
    pub nmi: u16,
    pub reset: u16,
    pub irq: u16,
}

/// Where an addressing mode places an operation's operand.
#[derive(Debug, Clone, Copy, PartialEq, Eq, Structural)]
pub enum Location {
    Accumulator,
    Address(u16),
}

/// The two states of the fetch-execute loop.
#[derive(Debug, Clone, Copy, PartialEq, Eq, Structural)]
pub enum RunState {
    Running,
    Halted,
}

} // verus!
