use vstd::prelude::*;

use crate::bus::{add16, add8, byte_spec, le_word, Bus};
use crate::error::CpuError;
use crate::flags::StatusFlags;
use crate::instruction::{operand_count, Instruction, InstructionMode, InstructionOperation};
use crate::registers::{Location, RegisterSet, RunState, VectorSet};
use crate::semantics::{
    adc_spec, address_spec, bit7, execute_spec, input_byte_spec, location_spec, next_spec,
    process_spec, register_op_spec, run_spec, step_spec, vectors_spec, ADDRESS_IRQ, ADDRESS_NMI, ADDRESS_RESET,
};
use InstructionMode as M;
use InstructionOperation as O;

verus! {

/// A processor over a bus: the registers it mutates and the vectors it read
/// when it was built.
pub struct Cpu {
    bus: Bus,
    registers: RegisterSet,
    vectors: VectorSet,
}

impl Cpu {
    pub closed spec fn memory(&self) -> Seq<u8> {
        self.bus@
    }

    pub closed spec fn regs(&self) -> RegisterSet {
        self.registers
    }

    pub closed spec fn vecs(&self) -> VectorSet {
        self.vectors
    }

    /// Reads the three vectors and starts with the program counter at the
    /// reset vector, every other register in its initial state.
    pub fn new(bus: Bus) -> (r: Result<Cpu, CpuError>)
        ensures
            match vectors_spec(bus@) {
                Ok(v) => r is Ok && r->Ok_0.vecs() == v && r->Ok_0.memory() == bus@
                    && r->Ok_0.regs() == (RegisterSet { pc: v.reset, ..RegisterSet::initial() }),
                Err(e) => r is Err && r->Err_0 == e,
            },
    {
        let nmi = bus.read_u16(ADDRESS_NMI)?;
        let reset = bus.read_u16(ADDRESS_RESET)?;
        let irq = bus.read_u16(ADDRESS_IRQ)?;
        let vectors = VectorSet { nmi, reset, irq };
        let mut registers = RegisterSet::new();
        registers.pc = vectors.reset;
        Ok(Cpu { bus, registers, vectors })
    }

    pub fn registers(&self) -> (r: RegisterSet)
        ensures
            r == self.regs(),
    {
        self.registers
    }

    /// Replaces the registers; memory and vectors stay.
    pub fn set_registers(&mut self, registers: RegisterSet)
        ensures
            final(self).regs() == registers,
            final(self).memory() == old(self).memory(),
            final(self).vecs() == old(self).vecs(),
    {
        self.registers = registers;
    }

    pub fn vectors(&self) -> (r: VectorSet)
        ensures
            r == self.vecs(),
    {
        self.vectors
    }

    pub fn bus(&self) -> (r: &Bus)
        ensures
            r@ == self.memory(),
    {
        &self.bus
    }

    /// Where `mode` places the operand given the operand bytes `bytes`.
    pub fn resolve_location_by_mode(&self, mode: InstructionMode, bytes: &[u8]) -> (r: Result<
        Option<Location>,
        CpuError,
    >)
        requires
            operand_count(mode) <= bytes@.len(),
        ensures
            r == location_spec(mode, bytes@, self.regs(), self.memory()),
    {
        proof {
            reveal(location_spec);
        }
        let location = match mode {
            M::Implied | M::Immediate => None,
            M::Accumulator => Some(Location::Accumulator),
            M::Relative => return Err(CpuError::InvalidAddressing { mode }),
            M::ZeroPage => Some(Location::Address(bytes[0] as u16)),
            M::ZeroPageX => Some(Location::Address(add8(bytes[0], self.registers.x) as u16)),
            M::ZeroPageY => Some(Location::Address(add8(bytes[0], self.registers.y) as u16)),
            M::Absolute => Some(Location::Address(le_word(bytes[0], bytes[1]))),
            M::AbsoluteX => {
                let base = le_word(bytes[0], bytes[1]);
                Some(Location::Address(add16(base, self.registers.x as u16)))
            },
            M::AbsoluteY => {
                let base = le_word(bytes[0], bytes[1]);
                Some(Location::Address(add16(base, self.registers.y as u16)))
            },
            M::Indirect => {
                let pointer = le_word(bytes[0], bytes[1]);
                Some(Location::Address(self.bus.read_u16(pointer)?))
            },
            M::IndirectX => {
                let pointer = add8(bytes[0], self.registers.x);
                Some(Location::Address(self.bus.read_zp_u16(pointer)?))
            },
            M::IndirectY => {
                let base = self.bus.read_zp_u16(bytes[0])?;
                Some(Location::Address(add16(base, self.registers.y as u16)))
            },
        };
        Ok(location)
    }

    /// The memory address `mode` resolves to; a mode that resolves to the
    /// accumulator or to nothing is an error.
    pub fn resolve_address_by_mode(&self, mode: InstructionMode, bytes: &[u8]) -> (r: Result<
        u16,
        CpuError,
    >)
        requires
            operand_count(mode) <= bytes@.len(),
        ensures
            r == address_spec(mode, bytes@, self.regs(), self.memory()),
    {
        proof {
            reveal(address_spec);
        }
        match self.resolve_location_by_mode(mode, bytes)? {
            Some(Location::Address(address)) => Ok(address),
            _ => Err(CpuError::NoAddress { mode }),
        }
    }

    fn determine_input_byte_from_address(&self, mode: InstructionMode, bytes: &[u8]) -> (r: Result<
        u8,
        CpuError,
    >)
        requires
            operand_count(mode) <= bytes@.len(),
        ensures
            r == (match address_spec(mode, bytes@, self.regs(), self.memory()) {
                Ok(a) => byte_spec(self.memory(), a),
                Err(e) => Err(e),
            }),
    {
        self.bus.read(self.resolve_address_by_mode(mode, bytes)?)
    }

    /// The byte an operation reads as its input under `mode`. Accumulator
    /// and Relative cannot give one and fail.
    pub fn determine_input_byte(&self, mode: InstructionMode, bytes: &[u8]) -> (r: Result<
        Option<u8>,
        CpuError,
    >)
        requires
            operand_count(mode) <= bytes@.len(),
        ensures
            r == input_byte_spec(mode, bytes@, self.regs(), self.memory()),
            mode == M::Accumulator || mode == M::Relative ==> r == Err::<Option<u8>, CpuError>(
                CpuError::InvalidAddressing { mode },
            ),
    {
        proof {
            reveal(input_byte_spec);
        }
        let input = match mode {
            M::Implied => None,
            M::Accumulator | M::Relative => return Err(CpuError::InvalidAddressing { mode }),
            M::Immediate => Some(bytes[0]),
            _ => Some(self.determine_input_byte_from_address(mode, bytes)?),
        };
        Ok(input)
    }

    /// Adds `input` and the carry to the accumulator and sets Carry, Zero,
    /// Overflow and Negative from the sum.
    fn run_adc(&mut self, input: u8)
        ensures
            final(self).regs() == adc_spec(old(self).regs(), input),
            final(self).memory() == old(self).memory(),
            final(self).vecs() == old(self).vecs(),
    {
        let carry: u8 = if self.registers.p.carry {
            1
        } else {
            0
        };
        let a_old = self.registers.a;
        let a_new = add8(add8(a_old, input), carry);
        assert(a_new == crate::semantics::adc_result(a_old, input, self.registers.p.carry));
        self.registers.a = a_new;
        self.registers.p.carry = is_carry(input, a_new);
        self.registers.p.zero = a_new == 0;
        self.registers.p.overflow = has_overflown(a_old, a_new);
        self.registers.p.negative = is_negative(a_new);
    }

    fn run_jmp(&mut self, address: u16)
        ensures
            final(self).regs() == (RegisterSet { pc: address, ..old(self).regs() }),
            final(self).memory() == old(self).memory(),
            final(self).vecs() == old(self).vecs(),
    {
        self.registers.pc = address;
    }

    /// Runs an operation that only touches registers and flags.
    fn run_register_op(&mut self, operation: InstructionOperation) -> (r: Result<(), CpuError>)
        ensures
            final(self).memory() == old(self).memory(),
            final(self).vecs() == old(self).vecs(),
            match register_op_spec(operation, old(self).regs()) {
                Some(after) => r == Ok::<(), CpuError>(()) && final(self).regs() == after,
                None => r == Err::<(), CpuError>(CpuError::Unimplemented { operation })
                    && final(self).regs() == old(self).regs(),
            },
    {
        let r = self.registers;
        let p = r.p;
        let after = match operation {
            O::Clc => RegisterSet { p: StatusFlags { carry: false, ..p }, ..r },
            O::Cld => RegisterSet { p: StatusFlags { decimal: false, ..p }, ..r },
            O::Cli => RegisterSet { p: StatusFlags { interrupt_disable: false, ..p }, ..r },
            O::Clv => RegisterSet { p: StatusFlags { overflow: false, ..p }, ..r },
            O::Sec => RegisterSet { p: StatusFlags { carry: true, ..p }, ..r },
            O::Sed => RegisterSet { p: StatusFlags { decimal: true, ..p }, ..r },
            O::Sei => RegisterSet { p: StatusFlags { interrupt_disable: true, ..p }, ..r },
            O::Tax => RegisterSet { x: r.a, p: zn(p, r.a), ..r },
            O::Tay => RegisterSet { y: r.a, p: zn(p, r.a), ..r },
            O::Txa => RegisterSet { a: r.x, p: zn(p, r.x), ..r },
            O::Tya => RegisterSet { a: r.y, p: zn(p, r.y), ..r },
            O::Inx => {
                let x = add8(r.x, 1);
                RegisterSet { x, p: zn(p, x), ..r }
            },
            O::Iny => {
                let y = add8(r.y, 1);
                RegisterSet { y, p: zn(p, y), ..r }
            },
            O::Nop => r,
            _ => return Err(CpuError::Unimplemented { operation }),
        };
        self.registers = after;
        Ok(())
    }

    /// Executes a decoded instruction on its operand bytes, the program
    /// counter standing just past the opcode. On failure the registers are
    /// left as they were.
    fn run_instruction(&mut self, instruction: Instruction, bytes: &[u8]) -> (r: Result<
        (),
        CpuError,
    >)
        requires
            instruction.wf(),
            bytes@.len() == instruction.len - 1,
        ensures
            final(self).memory() == old(self).memory(),
            final(self).vecs() == old(self).vecs(),
            match execute_spec(instruction, bytes@, old(self).regs(), old(self).memory()) {
                Ok(after) => r == Ok::<(), CpuError>(()) && final(self).regs() == after,
                Err(e) => r == Err::<(), CpuError>(e) && final(self).regs() == old(self).regs(),
            },
    {
        proof {
            reveal(execute_spec);
        }
        let mode = instruction.mode;
        let next_pc = add16(self.registers.pc, instruction.len as u16 - 1);
        match instruction.operation {
            O::Adc => {
                match self.determine_input_byte(mode, bytes)? {
                    Some(input) => self.run_adc(input),
                    None => return Err(CpuError::InvalidAddressing { mode }),
                }
            },
            O::Jmp => {
                let address = self.resolve_address_by_mode(mode, bytes)?;
                self.run_jmp(address);
                return Ok(());
            },
            operation => self.run_register_op(operation)?,
        }
        self.registers.pc = next_pc;
        Ok(())
    }

    /// Fetches the instruction at the program counter; none where running it
    /// would carry the program counter into the vector region.
    fn determine_instruction_next(&self) -> (r: Result<Option<Instruction>, CpuError>)
        ensures
            r == next_spec(self.memory(), self.regs()),
            r matches Ok(Some(i)) ==> i.wf(),
    {
        let opcode = self.bus.read(self.registers.pc)?;
        let instruction = Instruction::from_opcode(opcode)?;
        if (self.registers.pc as u32) + (instruction.len as u32) < ADDRESS_NMI as u32 {
            Ok(Some(instruction))
        } else {
            Ok(None)
        }
    }

    /// Steps past the opcode, reads the operand bytes and executes.
    fn process_instruction(&mut self, instruction: Instruction) -> (r: Result<(), CpuError>)
        requires
            instruction.wf(),
            old(self).regs().pc + instruction.len < ADDRESS_NMI,
        ensures
            final(self).memory() == old(self).memory(),
            final(self).vecs() == old(self).vecs(),
            (r, final(self).regs()) == process_spec(old(self).memory(), old(self).regs(), instruction),
    {
        self.registers.pc = self.registers.pc + 1;
        assert(self.registers.pc == crate::bus::wrap16(old(self).regs().pc + 1));
        let bytes = self.bus.read_n(self.registers.pc, instruction.len as u16 - 1)?;
        self.run_instruction(instruction, bytes.as_slice())
    }

    /// One step of the fetch-execute loop: `Halted` where the next
    /// instruction would run into the vector region, else `Running` once it
    /// has executed.
    pub fn step(&mut self) -> (r: Result<RunState, CpuError>)
        ensures
            final(self).memory() == old(self).memory(),
            final(self).vecs() == old(self).vecs(),
            (r, final(self).regs()) == step_spec(old(self).memory(), old(self).regs()),
    {
        match self.determine_instruction_next()? {
            Some(instruction) => {
                self.process_instruction(instruction)?;
                Ok(RunState::Running)
            },
            None => Ok(RunState::Halted),
        }
    }

    /// Steps until the loop halts or fails, or `max_steps` steps have run
    /// (then `Running`).
    pub fn run(&mut self, max_steps: u64) -> (r: Result<RunState, CpuError>)
        ensures
            final(self).memory() == old(self).memory(),
            final(self).vecs() == old(self).vecs(),
            (r, final(self).regs()) == run_spec(
                old(self).memory(),
                old(self).regs(),
                max_steps as nat,
            ),
    {
        let mut remaining: u64 = max_steps;
        while remaining > 0
            invariant
                self.memory() == old(self).memory(),
                self.vecs() == old(self).vecs(),
                run_spec(old(self).memory(), old(self).regs(), max_steps as nat) == run_spec(
                    self.memory(),
                    self.regs(),
                    remaining as nat,
                ),
            decreases remaining,
        {
            let state = self.step()?;
            if state == RunState::Halted {
                return Ok(RunState::Halted);
            }
            remaining = remaining - 1;
        }
        Ok(RunState::Running)
    }

    /// Runs the loop from the current state until it halts or fails, for at
    /// most `u64::MAX` steps.
    pub fn start(&mut self) -> (r: Result<(), CpuError>)
        ensures
            final(self).memory() == old(self).memory(),
            final(self).vecs() == old(self).vecs(),
            ({
                let (outcome, after) = run_spec(
                    old(self).memory(),
                    old(self).regs(),
                    u64::MAX as nat,
                );
                final(self).regs() == after && match outcome {
                    Ok(_) => r is Ok,
                    Err(e) => r == Err::<(), CpuError>(e),
                }
            }),
    {
        self.run(u64::MAX)?;
        Ok(())
    }
}

/// Whether an 8-bit addition that gave `value_new` carried: the sum fell
/// below `input`.
fn is_carry(input: u8, value_new: u8) -> (r: bool)
    ensures
        r == (value_new < input),
{
    value_new < input
}

/// Whether the sign bit changed between `value_old` and `value_new`.
fn has_overflown(value_old: u8, value_new: u8) -> (r: bool)
    ensures
        r == (bit7(value_old) != bit7(value_new)),
{
    (value_old >= 0x80) != (value_new >= 0x80)
}

/// `p` with Zero and Negative taken from `value`.
fn zn(p: StatusFlags, value: u8) -> (r: StatusFlags)
    ensures
        r == crate::semantics::zn_spec(p, value),
{
    StatusFlags { zero: value == 0, negative: is_negative(value), ..p }
}

/// Whether the sign bit of `value` is set.
fn is_negative(value: u8) -> (r: bool)
    ensures
        r == bit7(value),
{
    value >= 0x80
}

} // verus!
