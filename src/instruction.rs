use vstd::prelude::*;

use crate::error::CpuError;
use InstructionMode as M;
use InstructionOperation as O;

verus! {

pub const ADC_IMMEDIATE: u8 = 0x69;
pub const ASL_ACCUMULATOR: u8 = 0x0A;
pub const ASL_ZERO_PAGE_X: u8 = 0x16;
pub const CLC_IMPLIED: u8 = 0x18;
pub const CLD_IMPLIED: u8 = 0xD8;
pub const CLI_IMPLIED: u8 = 0x58;
pub const CLV_IMPLIED: u8 = 0xB8;
pub const INX_IMPLIED: u8 = 0xE8;
pub const INY_IMPLIED: u8 = 0xC8;
pub const JMP_ABSOLUTE: u8 = 0x4C;
pub const JMP_INDIRECT: u8 = 0x6C;
pub const LDA_ABSOLUTE: u8 = 0xAD;
pub const LDX_IMMEDIATE: u8 = 0xA2;
pub const NOP_IMPLIED: u8 = 0xEA;
pub const SEC_IMPLIED: u8 = 0x38;
pub const SED_IMPLIED: u8 = 0xF8;
pub const SEI_IMPLIED: u8 = 0x78;
pub const TAX_IMPLIED: u8 = 0xAA;
pub const TAY_IMPLIED: u8 = 0xA8;
pub const TXA_IMPLIED: u8 = 0x8A;
pub const TYA_IMPLIED: u8 = 0x98;

#[derive(Debug, Clone, Copy, PartialEq, Eq, Structural)]
pub enum InstructionOperation {
    Adc, And, Asl, Bcc, Bcs, Beq, Bit, Bmi, Bne, Bpl, Brk, Bvc, Bvs, Clc,
    Cld, Cli, Clv, Cmp, Cpx, Cpy, Dec, Dex, Dey, Eor, Inc, Inx, Iny, Jmp,
    Jsr, Lda, Ldx, Ldy, Lsr, Nop, Ora, Pha, Php, Pla, Plp, Rol, Ror, Rti,
    Rts, Sbc, Sec, Sed, Sei, Sta, Stx, Sty, Tax, Tay, Tsx, Txa, Txs, Tya,
}

#[derive(Debug, Clone, Copy, PartialEq, Eq, Structural)]
pub enum InstructionMode {
    Implied,
    Accumulator,
    Immediate,
    Relative,
    ZeroPage,
    ZeroPageX,
    ZeroPageY,
    Absolute,
    AbsoluteX,
    AbsoluteY,
    Indirect,
    IndirectX,
    IndirectY,
}

/// How many operand bytes follow the opcode in each mode.
pub open spec fn operand_count(mode: InstructionMode) -> nat {
    match mode {
        InstructionMode::Implied | InstructionMode::Accumulator => 0,
        InstructionMode::Absolute
        | InstructionMode::AbsoluteX
        | InstructionMode::AbsoluteY
        | InstructionMode::Indirect => 2,
        _ => 1,
    }
}

/// A decoded instruction: what it does, how it addresses its operand, its
/// encoded length (opcode byte included) and its base cycle cost.
#[derive(Debug, Clone, Copy, PartialEq, Eq, Structural)]
pub struct Instruction {
    pub opcode: u8,
    pub operation: InstructionOperation,
    pub mode: InstructionMode,
    pub len: u8,
    pub cycles_base: u8,
}

impl Instruction {
    /// The length covers the opcode and exactly the operand bytes the mode reads.
    pub open spec fn wf(self) -> bool {
        self.len as nat == 1 + operand_count(self.mode)
    }

    pub open spec fn entry(
        opcode: u8,
        operation: InstructionOperation,
        mode: InstructionMode,
        len: u8,
        cycles_base: u8,
    ) -> Instruction {
        Instruction { opcode, operation, mode, len, cycles_base }
    }

    /// The documented instruction set: the descriptor of each known opcode.
    pub open spec fn decode_spec(opcode: u8) -> Option<Instruction> {
        if opcode == ADC_IMMEDIATE { Some(Self::entry(opcode, O::Adc, M::Immediate, 2, 2)) }
        else if opcode == ASL_ACCUMULATOR { Some(Self::entry(opcode, O::Asl, M::Accumulator, 1, 2)) }
        else if opcode == ASL_ZERO_PAGE_X { Some(Self::entry(opcode, O::Asl, M::ZeroPageX, 2, 6)) }
        else if opcode == CLC_IMPLIED { Some(Self::entry(opcode, O::Clc, M::Implied, 1, 2)) }
        else if opcode == CLD_IMPLIED { Some(Self::entry(opcode, O::Cld, M::Implied, 1, 2)) }
        else if opcode == CLI_IMPLIED { Some(Self::entry(opcode, O::Cli, M::Implied, 1, 2)) }
        else if opcode == CLV_IMPLIED { Some(Self::entry(opcode, O::Clv, M::Implied, 1, 2)) }
        else if opcode == INX_IMPLIED { Some(Self::entry(opcode, O::Inx, M::Implied, 1, 2)) }
        else if opcode == INY_IMPLIED { Some(Self::entry(opcode, O::Iny, M::Implied, 1, 2)) }
        else if opcode == JMP_ABSOLUTE { Some(Self::entry(opcode, O::Jmp, M::Absolute, 3, 3)) }
        else if opcode == JMP_INDIRECT { Some(Self::entry(opcode, O::Jmp, M::Indirect, 3, 5)) }
        else if opcode == LDA_ABSOLUTE { Some(Self::entry(opcode, O::Lda, M::Absolute, 3, 4)) }
        else if opcode == LDX_IMMEDIATE { Some(Self::entry(opcode, O::Ldx, M::Immediate, 2, 2)) }
        else if opcode == NOP_IMPLIED { Some(Self::entry(opcode, O::Nop, M::Implied, 1, 2)) }
        else if opcode == SEC_IMPLIED { Some(Self::entry(opcode, O::Sec, M::Implied, 1, 2)) }
        else if opcode == SED_IMPLIED { Some(Self::entry(opcode, O::Sed, M::Implied, 1, 2)) }
        else if opcode == SEI_IMPLIED { Some(Self::entry(opcode, O::Sei, M::Implied, 1, 2)) }
        else if opcode == TAX_IMPLIED { Some(Self::entry(opcode, O::Tax, M::Implied, 1, 2)) }
        else if opcode == TAY_IMPLIED { Some(Self::entry(opcode, O::Tay, M::Implied, 1, 2)) }
        else if opcode == TXA_IMPLIED { Some(Self::entry(opcode, O::Txa, M::Implied, 1, 2)) }
        else if opcode == TYA_IMPLIED { Some(Self::entry(opcode, O::Tya, M::Implied, 1, 2)) }
        else { None }
    }

    /// Decodes one opcode byte. An opcode outside the instruction set is a
    /// decode failure, never a substitute instruction.
    pub fn from_opcode(opcode: u8) -> (r: Result<Instruction, CpuError>)
        ensures
            r == (match Self::decode_spec(opcode) {
                Some(i) => Ok(i),
                None => Err(CpuError::Decode { opcode }),
            }),
            r is Ok ==> r->Ok_0.wf(),
    {
        let (operation, mode, len, cycles_base) = match opcode {
            ADC_IMMEDIATE => (O::Adc, M::Immediate, 2u8, 2u8),
            ASL_ACCUMULATOR => (O::Asl, M::Accumulator, 1, 2),
            ASL_ZERO_PAGE_X => (O::Asl, M::ZeroPageX, 2, 6),
            CLC_IMPLIED => (O::Clc, M::Implied, 1, 2),
            CLD_IMPLIED => (O::Cld, M::Implied, 1, 2),
            CLI_IMPLIED => (O::Cli, M::Implied, 1, 2),
            CLV_IMPLIED => (O::Clv, M::Implied, 1, 2),
            INX_IMPLIED => (O::Inx, M::Implied, 1, 2),
            INY_IMPLIED => (O::Iny, M::Implied, 1, 2),
            JMP_ABSOLUTE => (O::Jmp, M::Absolute, 3, 3),
            JMP_INDIRECT => (O::Jmp, M::Indirect, 3, 5),
            LDA_ABSOLUTE => (O::Lda, M::Absolute, 3, 4),
            LDX_IMMEDIATE => (O::Ldx, M::Immediate, 2, 2),
            NOP_IMPLIED => (O::Nop, M::Implied, 1, 2),
            SEC_IMPLIED => (O::Sec, M::Implied, 1, 2),
            SED_IMPLIED => (O::Sed, M::Implied, 1, 2),
            SEI_IMPLIED => (O::Sei, M::Implied, 1, 2),
            TAX_IMPLIED => (O::Tax, M::Implied, 1, 2),
            TAY_IMPLIED => (O::Tay, M::Implied, 1, 2),
            TXA_IMPLIED => (O::Txa, M::Implied, 1, 2),
            TYA_IMPLIED => (O::Tya, M::Implied, 1, 2),
            _ => return Err(CpuError::Decode { opcode }),
        };
        Ok(Instruction { opcode, operation, mode, len, cycles_base })
    }

    pub fn opcode(&self) -> (r: u8)
        ensures
            r == self.opcode,
    {
        self.opcode
    }

    pub fn operation(&self) -> (r: InstructionOperation)
        ensures
            r == self.operation,
    {
        self.operation
    }

    pub fn mode(&self) -> (r: InstructionMode)
        ensures
            r == self.mode,
    {
        self.mode
    }

    pub fn len(&self) -> (r: u8)
        ensures
            r == self.len,
    {
        self.len
    }

    pub fn cycles_base(&self) -> (r: u8)
        ensures
            r == self.cycles_base,
    {
        self.cycles_base
    }
}

} // verus!
