//! The processor's behaviour as mathematics: addressing, operations, one
//! fetch-execute step, and a run of steps.
use vstd::prelude::*;

use crate::bus::{byte_spec, bytes_spec, le_u16, word_spec, wrap16, wrap8, zp_word_spec};
use crate::error::CpuError;
use crate::flags::StatusFlags;
use crate::instruction::{Instruction, InstructionMode, InstructionOperation};
use crate::registers::{Location, RegisterSet, RunState, VectorSet};
use InstructionMode as M;
use InstructionOperation as O;

verus! {

pub const ADDRESS_NMI: u16 = 0xFFFA;
pub const ADDRESS_RESET: u16 = 0xFFFC;
pub const ADDRESS_IRQ: u16 = 0xFFFE;

/// Bit 7, the sign bit of a byte.
pub open spec fn bit7(v: u8) -> bool {
    v >= 0x80
}

/// Where `mode` places the operand, given the operand bytes `b`. Immediate
/// and Implied give no location; Relative cannot give one.
#[verifier::opaque]
pub open spec fn location_spec(
    mode: InstructionMode,
    b: Seq<u8>,
    regs: RegisterSet,
    mem: Seq<u8>,
) -> Result<Option<Location>, CpuError> {
    match mode {
        M::Implied | M::Immediate => Ok(None),
        M::Accumulator => Ok(Some(Location::Accumulator)),
        M::Relative => Err(CpuError::InvalidAddressing { mode }),
        M::ZeroPage => Ok(Some(Location::Address(b[0] as u16))),
        M::ZeroPageX => Ok(Some(Location::Address(wrap8(b[0] + regs.x) as u16))),
        M::ZeroPageY => Ok(Some(Location::Address(wrap8(b[0] + regs.y) as u16))),
        M::Absolute => Ok(Some(Location::Address(le_u16(b[0], b[1])))),
        M::AbsoluteX => Ok(Some(Location::Address(wrap16(le_u16(b[0], b[1]) + regs.x)))),
        M::AbsoluteY => Ok(Some(Location::Address(wrap16(le_u16(b[0], b[1]) + regs.y)))),
        M::Indirect => match word_spec(mem, le_u16(b[0], b[1])) {
            Ok(w) => Ok(Some(Location::Address(w))),
            Err(e) => Err(e),
        },
        M::IndirectX => match zp_word_spec(mem, wrap8(b[0] + regs.x)) {
            Ok(w) => Ok(Some(Location::Address(w))),
            Err(e) => Err(e),
        },
        M::IndirectY => match zp_word_spec(mem, b[0]) {
            Ok(w) => Ok(Some(Location::Address(wrap16(w + regs.y)))),
            Err(e) => Err(e),
        },
    }
}

/// The memory address `mode` resolves to, where it resolves to one.
#[verifier::opaque]
pub open spec fn address_spec(
    mode: InstructionMode,
    b: Seq<u8>,
    regs: RegisterSet,
    mem: Seq<u8>,
) -> Result<u16, CpuError> {
    match location_spec(mode, b, regs, mem) {
        Err(e) => Err(e),
        Ok(Some(Location::Address(a))) => Ok(a),
        Ok(_) => Err(CpuError::NoAddress { mode }),
    }
}

/// The byte an operation reads as its input under `mode`: the operand itself
/// for Immediate, nothing for Implied, the byte at the resolved address for
/// the memory modes. Accumulator and Relative cannot give a plain byte.
#[verifier::opaque]
pub open spec fn input_byte_spec(
    mode: InstructionMode,
    b: Seq<u8>,
    regs: RegisterSet,
    mem: Seq<u8>,
) -> Result<Option<u8>, CpuError> {
    match mode {
        M::Implied => Ok(None),
        M::Accumulator | M::Relative => Err(CpuError::InvalidAddressing { mode }),
        M::Immediate => Ok(Some(b[0])),
        _ => match address_spec(mode, b, regs, mem) {
            Err(e) => Err(e),
            Ok(a) => match byte_spec(mem, a) {
                Err(e) => Err(e),
                Ok(v) => Ok(Some(v)),
            },
        },
    }
}

/// The accumulator after an addition with carry: `(a + input + carry) mod 256`.
pub open spec fn adc_result(a: u8, input: u8, carry: bool) -> u8 {
    wrap8(a + input + if carry { 1int } else { 0int })
}

/// ADC: the sum goes to A; Carry is set when the sum is below `input`, Zero
/// when it is 0, Overflow when its sign bit differs from the old
/// accumulator's, Negative from its sign bit. Nothing else changes.
pub open spec fn adc_spec(regs: RegisterSet, input: u8) -> RegisterSet {
    let r = adc_result(regs.a, input, regs.p.carry);
    RegisterSet {
        a: r,
        p: StatusFlags {
            carry: r < input,
            zero: r == 0,
            overflow: bit7(regs.a) != bit7(r),
            negative: bit7(r),
            ..regs.p
        },
        ..regs
    }
}

/// Zero and Negative taken from `v`, the other flags kept.
pub open spec fn zn_spec(p: StatusFlags, v: u8) -> StatusFlags {
    StatusFlags { zero: v == 0, negative: bit7(v), ..p }
}

/// The registers after `instruction` runs with operand bytes `b`, the
/// program counter standing just past the opcode. Every operation but a jump
/// leaves the program counter past its operand bytes.
#[verifier::opaque]
pub open spec fn execute_spec(
    instruction: Instruction,
    b: Seq<u8>,
    regs: RegisterSet,
    mem: Seq<u8>,
) -> Result<RegisterSet, CpuError> {
    let mode = instruction.mode;
    let next = RegisterSet { pc: wrap16(regs.pc + instruction.len - 1), ..regs };
    match instruction.operation {
        O::Adc => match input_byte_spec(mode, b, regs, mem) {
            Err(e) => Err(e),
            Ok(None) => Err(CpuError::InvalidAddressing { mode }),
            Ok(Some(v)) => Ok(RegisterSet { pc: next.pc, ..adc_spec(regs, v) }),
        },
        O::Jmp => match address_spec(mode, b, regs, mem) {
            Err(e) => Err(e),
            Ok(target) => Ok(RegisterSet { pc: target, ..regs }),
        },
        operation => match register_op_spec(operation, regs) {
            Some(after) => Ok(RegisterSet { pc: next.pc, ..after }),
            None => Err(CpuError::Unimplemented { operation }),
        },
    }
}

/// The operations that only touch registers and flags: each flag-control
/// operation sets or clears its one flag, a transfer copies one register to
/// another and sets Zero and Negative from the value, INX and INY increment
/// with 8-bit wraparound and set Zero and Negative, NOP changes nothing.
/// None for every other operation.
pub open spec fn register_op_spec(operation: InstructionOperation, regs: RegisterSet) -> Option<
    RegisterSet,
> {
    let p = regs.p;
    match operation {
        O::Clc => Some(RegisterSet { p: StatusFlags { carry: false, ..p }, ..regs }),
        O::Cld => Some(RegisterSet { p: StatusFlags { decimal: false, ..p }, ..regs }),
        O::Cli => Some(RegisterSet { p: StatusFlags { interrupt_disable: false, ..p }, ..regs }),
        O::Clv => Some(RegisterSet { p: StatusFlags { overflow: false, ..p }, ..regs }),
        O::Sec => Some(RegisterSet { p: StatusFlags { carry: true, ..p }, ..regs }),
        O::Sed => Some(RegisterSet { p: StatusFlags { decimal: true, ..p }, ..regs }),
        O::Sei => Some(RegisterSet { p: StatusFlags { interrupt_disable: true, ..p }, ..regs }),
        O::Tax => Some(RegisterSet { x: regs.a, p: zn_spec(p, regs.a), ..regs }),
        O::Tay => Some(RegisterSet { y: regs.a, p: zn_spec(p, regs.a), ..regs }),
        O::Txa => Some(RegisterSet { a: regs.x, p: zn_spec(p, regs.x), ..regs }),
        O::Tya => Some(RegisterSet { a: regs.y, p: zn_spec(p, regs.y), ..regs }),
        O::Inx => Some(RegisterSet { x: wrap8(regs.x + 1), p: zn_spec(p, wrap8(regs.x + 1)), ..regs }),
        O::Iny => Some(RegisterSet { y: wrap8(regs.y + 1), p: zn_spec(p, wrap8(regs.y + 1)), ..regs }),
        O::Nop => Some(regs),
        _ => None,
    }
}

/// The three vectors of a memory image, read in the order NMI, reset, IRQ.
pub open spec fn vectors_spec(mem: Seq<u8>) -> Result<VectorSet, CpuError> {
    match word_spec(mem, ADDRESS_NMI) {
        Err(e) => Err(e),
        Ok(nmi) => match word_spec(mem, ADDRESS_RESET) {
            Err(e) => Err(e),
            Ok(reset) => match word_spec(mem, ADDRESS_IRQ) {
                Err(e) => Err(e),
                Ok(irq) => Ok(VectorSet { nmi, reset, irq }),
            },
        },
    }
}

/// The instruction at the program counter, or none where running it would
/// carry the program counter into the vector region.
pub open spec fn next_spec(mem: Seq<u8>, regs: RegisterSet) -> Result<Option<Instruction>, CpuError> {
    match byte_spec(mem, regs.pc) {
        Err(e) => Err(e),
        Ok(opcode) => match Instruction::decode_spec(opcode) {
            None => Err(CpuError::Decode { opcode }),
            Some(i) => if regs.pc + i.len < ADDRESS_NMI {
                Ok(Some(i))
            } else {
                Ok(None)
            },
        },
    }
}

/// Runs a fetched instruction: step past the opcode, read the operand bytes,
/// execute. A failure leaves the registers as they stood when it came.
pub open spec fn process_spec(mem: Seq<u8>, regs: RegisterSet, instruction: Instruction) -> (
    Result<(), CpuError>,
    RegisterSet,
) {
    let fetched = RegisterSet { pc: wrap16(regs.pc + 1), ..regs };
    match bytes_spec(mem, fetched.pc, (instruction.len - 1) as nat) {
        Err(e) => (Err(e), fetched),
        Ok(b) => match execute_spec(instruction, b, fetched, mem) {
            Err(e) => (Err(e), fetched),
            Ok(after) => (Ok(()), after),
        },
    }
}

/// One step of the fetch-execute loop.
pub open spec fn step_spec(mem: Seq<u8>, regs: RegisterSet) -> (Result<RunState, CpuError>, RegisterSet) {
    match next_spec(mem, regs) {
        Err(e) => (Err(e), regs),
        Ok(None) => (Ok(RunState::Halted), regs),
        Ok(Some(i)) => match process_spec(mem, regs, i) {
            (Err(e), after) => (Err(e), after),
            (Ok(()), after) => (Ok(RunState::Running), after),
        },
    }
}

/// At most `fuel` steps, stopping at the first failure or halt.
pub open spec fn run_spec(mem: Seq<u8>, regs: RegisterSet, fuel: nat) -> (
    Result<RunState, CpuError>,
    RegisterSet,
)
    decreases fuel,
{
    if fuel == 0 {
        (Ok(RunState::Running), regs)
    } else {
        match step_spec(mem, regs) {
            (Ok(RunState::Running), after) => run_spec(mem, after, (fuel - 1) as nat),
            other => other,
        }
    }
}

} // verus!
