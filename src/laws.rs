//! Properties of the processor model that relate several of its parts.
use vstd::prelude::*;

use crate::bus::{le_u16, wrap16, wrap8};
use crate::error::CpuError;
use crate::instruction::{Instruction, InstructionMode, ADC_IMMEDIATE, JMP_ABSOLUTE};
use crate::registers::{RegisterSet, RunState};
use crate::semantics::{
    address_spec, execute_spec, input_byte_spec, location_spec, next_spec, run_spec,
    step_spec, ADDRESS_NMI,
};

verus! {

/// ADC with any accumulator `a`, any input `i` and either carry `c` leaves
/// `(a + i + c) mod 256` in A, sets Carry exactly when the result is below
/// `i`, Zero exactly when it is 0, Negative to its bit 7, and Overflow
/// exactly when its bit 7 differs from that of the old accumulator.
pub proof fn adc_law(regs: RegisterSet, input: u8, mem: Seq<u8>)
    ensures
        ({
            let adc = Instruction::decode_spec(ADC_IMMEDIATE)->Some_0;
            let c: int = if regs.p.carry { 1 } else { 0 };
            let after = execute_spec(adc, seq![input], regs, mem)->Ok_0;
            &&& execute_spec(adc, seq![input], regs, mem) is Ok
            &&& after.a as int == (regs.a + input + c) % 256
            &&& after.p.carry == (after.a < input)
            &&& after.p.zero == (after.a == 0)
            &&& after.p.negative == (after.a >= 0x80)
            &&& after.p.overflow == ((regs.a >= 0x80) != (after.a >= 0x80))
        }),
{
    reveal(execute_spec);
    reveal(input_byte_spec);
}

/// The zero-page modes, indexed or not, always give an address in page zero:
/// its high byte is 0 whatever the index register holds.
pub proof fn zero_page_law(mode: InstructionMode, b: Seq<u8>, regs: RegisterSet, mem: Seq<u8>)
    requires
        mode == InstructionMode::ZeroPage || mode == InstructionMode::ZeroPageX || mode
            == InstructionMode::ZeroPageY,
        b.len() >= 1,
    ensures
        address_spec(mode, b, regs, mem) is Ok,
        address_spec(mode, b, regs, mem)->Ok_0 / 0x100 == 0,
{
    reveal(address_spec);
    reveal(location_spec);
}

/// IndirectX and IndirectY read a little-endian word at a zero-page pointer:
/// IndirectX at `operand + X` wrapped in page zero, its result the address;
/// IndirectY at the operand, `Y` added to the word.
pub proof fn indirect_law(b: Seq<u8>, regs: RegisterSet, mem: Seq<u8>)
    requires
        b.len() >= 1,
        mem.len() >= 0x100,
    ensures
        ({
            let p = wrap8(b[0] + regs.x);
            address_spec(InstructionMode::IndirectX, b, regs, mem) == Ok::<u16, CpuError>(
                le_u16(mem[p as int], mem[wrap8(p + 1) as int]),
            )
        }),
        address_spec(InstructionMode::IndirectY, b, regs, mem) == Ok::<u16, CpuError>(
            wrap16(le_u16(mem[b[0] as int], mem[wrap8(b[0] + 1) as int]) + regs.y),
        ),
{
    reveal(address_spec);
    reveal(location_spec);
}

/// Asking Accumulator mode for a plain byte, or Relative mode for a
/// location or an address, fails with an invalid-addressing error, always.
pub proof fn invalid_addressing_law(b: Seq<u8>, regs: RegisterSet, mem: Seq<u8>)
    ensures
        input_byte_spec(InstructionMode::Accumulator, b, regs, mem) == Err::<Option<u8>, CpuError>(
            CpuError::InvalidAddressing { mode: InstructionMode::Accumulator },
        ),
        location_spec(InstructionMode::Relative, b, regs, mem) == Err::<
            Option<crate::registers::Location>,
            CpuError,
        >(CpuError::InvalidAddressing { mode: InstructionMode::Relative }),
        address_spec(InstructionMode::Relative, b, regs, mem) == Err::<u16, CpuError>(
            CpuError::InvalidAddressing { mode: InstructionMode::Relative },
        ),
{
    reveal(address_spec);
    reveal(location_spec);
    reveal(input_byte_spec);
}

/// JMP Absolute sets the program counter to its operand word whatever it was
/// before, and changes nothing else.
pub proof fn jmp_absolute_law(lo: u8, hi: u8, regs: RegisterSet, mem: Seq<u8>)
    ensures
        execute_spec(Instruction::decode_spec(JMP_ABSOLUTE)->Some_0, seq![lo, hi], regs, mem)
            == Ok::<RegisterSet, CpuError>(RegisterSet { pc: le_u16(lo, hi), ..regs }),
{
    reveal(execute_spec);
    reveal(address_spec);
    reveal(location_spec);
}

/// Where the next instruction would carry the program counter to 0xFFFA or
/// beyond, the loop halts with the registers untouched, and a run stops
/// there: no later step fetches anything.
pub proof fn halt_law(mem: Seq<u8>, regs: RegisterSet, fuel: nat)
    requires
        (regs.pc as int) < mem.len(),
        Instruction::decode_spec(mem[regs.pc as int]) is Some,
        regs.pc + Instruction::decode_spec(mem[regs.pc as int])->Some_0.len >= ADDRESS_NMI,
        fuel >= 1,
    ensures
        next_spec(mem, regs) == Ok::<Option<Instruction>, CpuError>(None),
        step_spec(mem, regs) == (Ok::<RunState, CpuError>(RunState::Halted), regs),
        run_spec(mem, regs, fuel) == (Ok::<RunState, CpuError>(RunState::Halted), regs),
{
}

} // verus!
