//! An instruction-set simulator for a 6502-family processor: opcode decoding,
//! addressing-mode resolution, operation semantics and the fetch-execute loop,
//! each stated and proved against a mathematical model.

pub mod bus;
pub mod cpu;
pub mod error;
pub mod flags;
pub mod instruction;
pub mod laws;
pub mod registers;
pub mod semantics;

pub use bus::Bus;
pub use cpu::Cpu;
pub use error::CpuError;
pub use flags::{BreakType, StatusFlags};
pub use instruction::{Instruction, InstructionMode, InstructionOperation};
pub use registers::{Location, RegisterSet, RunState, VectorSet};
