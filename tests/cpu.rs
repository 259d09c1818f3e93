use mos6502::instruction::{
    ADC_IMMEDIATE, ASL_ACCUMULATOR, CLC_IMPLIED, INX_IMPLIED, JMP_ABSOLUTE, JMP_INDIRECT,
    LDA_ABSOLUTE, NOP_IMPLIED, SEC_IMPLIED, SED_IMPLIED, TAX_IMPLIED, TYA_IMPLIED,
};
use mos6502::{
    Bus, Cpu, CpuError, InstructionMode, InstructionOperation, Location, RegisterSet, RunState,
    StatusFlags, VectorSet,
};

/// A full 64 KiB image with the reset vector at `reset` and `program` there.
fn image(reset: u16, program: &[u8]) -> Vec<u8> {
    let mut mem = vec![0u8; 0x10000];
    mem[0xFFFC] = (reset & 0xFF) as u8;
    mem[0xFFFD] = (reset >> 8) as u8;
    for (k, b) in program.iter().enumerate() {
        mem[reset as usize + k] = *b;
    }
    mem
}

fn cpu_with(mem: Vec<u8>) -> Cpu {
    Cpu::new(Bus::new(mem)).unwrap()
}

fn with_a(cpu: &mut Cpu, a: u8) {
    let mut r = cpu.registers();
    r.a = a;
    cpu.set_registers(r);
}

#[test]
fn new_reads_vectors_and_starts_at_reset() {
    let mut mem = image(0x8000, &[]);
    mem[0xFFFA] = 0x34;
    mem[0xFFFB] = 0x12;
    mem[0xFFFE] = 0xCD;
    mem[0xFFFF] = 0xAB;
    let cpu = cpu_with(mem);
    assert_eq!(cpu.vectors(), VectorSet { nmi: 0x1234, reset: 0x8000, irq: 0xABCD });
    let r = cpu.registers();
    assert_eq!(r.pc, 0x8000);
    assert_eq!(r.s, 0xFF);
    assert_eq!((r.a, r.x, r.y), (0, 0, 0));
    assert_eq!(r.p, StatusFlags::empty());
}

#[test]
fn new_fails_when_the_vectors_are_out_of_reach() {
    let r = Cpu::new(Bus::new(vec![0u8; 0x100]));
    assert!(matches!(r, Err(CpuError::Bus { address: 0xFFFA })));
    let r = Cpu::new(Bus::new(vec![0u8; 0xFFFF]));
    assert!(matches!(r, Err(CpuError::Bus { address: 0xFFFF })));
}

#[test]
fn adc_immediate_end_to_end() {
    let mut cpu = cpu_with(image(0x8000, &[ADC_IMMEDIATE, 0x05]));
    with_a(&mut cpu, 0x01);
    assert_eq!(cpu.step(), Ok(RunState::Running));
    let r = cpu.registers();
    assert_eq!(r.a, 0x06);
    assert!(!r.p.carry && !r.p.zero && !r.p.overflow && !r.p.negative);
    assert_eq!(r.pc, 0x8002);
}

#[test]
fn adc_wraps_to_zero_with_carry() {
    let mut cpu = cpu_with(image(0x8000, &[ADC_IMMEDIATE, 0x01]));
    with_a(&mut cpu, 0xFF);
    assert_eq!(cpu.step(), Ok(RunState::Running));
    let r = cpu.registers();
    assert_eq!(r.a, 0x00);
    assert!(r.p.carry);
    assert!(r.p.zero);
    assert!(!r.p.negative);
    // the sign bit of the old accumulator (1) differs from the result's (0)
    assert!(r.p.overflow);
}

#[test]
fn adc_adds_the_carry_in() {
    let mut cpu = cpu_with(image(0x8000, &[SEC_IMPLIED, ADC_IMMEDIATE, 0x7F]));
    with_a(&mut cpu, 0x00);
    cpu.step().unwrap();
    cpu.step().unwrap();
    let r = cpu.registers();
    assert_eq!(r.a, 0x80);
    assert!(!r.p.carry && !r.p.zero);
    assert!(r.p.negative && r.p.overflow);
    assert_eq!(r.pc, 0x8003);
}

#[test]
fn jmp_absolute_sets_pc_and_keeps_flags() {
    let mut cpu = cpu_with(image(0x8000, &[SEC_IMPLIED, SED_IMPLIED, JMP_ABSOLUTE, 0x00, 0x90]));
    cpu.step().unwrap();
    cpu.step().unwrap();
    let before = cpu.registers();
    assert_eq!(before.pc, 0x8002);
    assert_eq!(cpu.step(), Ok(RunState::Running));
    let after = cpu.registers();
    assert_eq!(after.pc, 0x9000);
    assert_eq!(after.p, before.p);
    assert_eq!((after.a, after.x, after.y, after.s), (before.a, before.x, before.y, before.s));
}

#[test]
fn jmp_indirect_follows_the_pointer() {
    let mut mem = image(0x8000, &[JMP_INDIRECT, 0x20, 0x01]);
    mem[0x0120] = 0x56;
    mem[0x0121] = 0x34;
    let mut cpu = cpu_with(mem);
    cpu.step().unwrap();
    assert_eq!(cpu.registers().pc, 0x3456);
}

#[test]
fn loop_halts_before_the_vector_region() {
    let mut cpu = cpu_with(image(0xFFF0, &[NOP_IMPLIED; 10]));
    assert_eq!(cpu.start(), Ok(()));
    // NOP at 0xFFF9 would bring the program counter to 0xFFFA
    assert_eq!(cpu.registers().pc, 0xFFF9);
    assert_eq!(cpu.step(), Ok(RunState::Halted));
    assert_eq!(cpu.registers().pc, 0xFFF9);
}

#[test]
fn halts_on_a_long_instruction_near_the_top() {
    let mut cpu = cpu_with(image(0xFFF7, &[LDA_ABSOLUTE, 0x00, 0x00]));
    assert_eq!(cpu.step(), Ok(RunState::Halted));
    assert_eq!(cpu.registers().pc, 0xFFF7);
}

#[test]
fn run_stops_after_its_step_budget() {
    let mut cpu = cpu_with(image(0x8000, &[JMP_ABSOLUTE, 0x00, 0x80]));
    assert_eq!(cpu.run(10), Ok(RunState::Running));
    assert_eq!(cpu.registers().pc, 0x8000);
    assert_eq!(cpu.run(0), Ok(RunState::Running));
}

#[test]
fn unknown_opcode_stops_the_run() {
    let mut cpu = cpu_with(image(0x8000, &[NOP_IMPLIED, 0xFF]));
    assert_eq!(cpu.start(), Err(CpuError::Decode { opcode: 0xFF }));
    assert_eq!(cpu.registers().pc, 0x8001);
}

#[test]
fn unimplemented_operation_is_distinct_from_decode_failure() {
    let mut cpu = cpu_with(image(0x8000, &[ASL_ACCUMULATOR]));
    assert_eq!(
        cpu.step(),
        Err(CpuError::Unimplemented { operation: InstructionOperation::Asl })
    );
    let mut cpu = cpu_with(image(0x8000, &[LDA_ABSOLUTE, 0x00, 0x10]));
    assert_eq!(
        cpu.start(),
        Err(CpuError::Unimplemented { operation: InstructionOperation::Lda })
    );
}

#[test]
fn flag_operations_touch_one_flag() {
    let mut cpu = cpu_with(image(0x8000, &[SEC_IMPLIED, SED_IMPLIED, CLC_IMPLIED]));
    cpu.step().unwrap();
    assert!(cpu.registers().p.carry);
    cpu.step().unwrap();
    let p = cpu.registers().p;
    assert!(p.carry && p.decimal);
    cpu.step().unwrap();
    let p = cpu.registers().p;
    assert!(!p.carry && p.decimal);
    assert_eq!(p.bits(), 0x08);
}

#[test]
fn transfers_set_zero_and_negative() {
    let mut cpu = cpu_with(image(0x8000, &[TAX_IMPLIED, TYA_IMPLIED]));
    with_a(&mut cpu, 0x90);
    cpu.step().unwrap();
    let r = cpu.registers();
    assert_eq!(r.x, 0x90);
    assert!(r.p.negative && !r.p.zero);
    cpu.step().unwrap();
    let r = cpu.registers();
    assert_eq!(r.a, 0x00);
    assert!(!r.p.negative && r.p.zero);
}

#[test]
fn inx_wraps_without_carry() {
    let mut cpu = cpu_with(image(0x8000, &[INX_IMPLIED]));
    let mut r = cpu.registers();
    r.x = 0xFF;
    cpu.set_registers(r);
    cpu.step().unwrap();
    let r = cpu.registers();
    assert_eq!(r.x, 0x00);
    assert!(r.p.zero && !r.p.carry);
    assert_eq!(r.pc, 0x8001);
}

#[test]
fn accumulator_and_relative_are_invalid_requests() {
    let cpu = cpu_with(image(0x8000, &[]));
    assert_eq!(
        cpu.determine_input_byte(InstructionMode::Accumulator, &[]),
        Err(CpuError::InvalidAddressing { mode: InstructionMode::Accumulator })
    );
    assert_eq!(
        cpu.determine_input_byte(InstructionMode::Relative, &[0x10]),
        Err(CpuError::InvalidAddressing { mode: InstructionMode::Relative })
    );
    assert_eq!(
        cpu.resolve_location_by_mode(InstructionMode::Relative, &[0x10]),
        Err(CpuError::InvalidAddressing { mode: InstructionMode::Relative })
    );
    assert_eq!(
        cpu.resolve_address_by_mode(InstructionMode::Accumulator, &[]),
        Err(CpuError::NoAddress { mode: InstructionMode::Accumulator })
    );
}

fn cpu_with_index(mem: Vec<u8>, x: u8, y: u8) -> Cpu {
    let mut cpu = cpu_with(mem);
    let mut r: RegisterSet = cpu.registers();
    r.x = x;
    r.y = y;
    cpu.set_registers(r);
    cpu
}

#[test]
fn zero_page_indexing_stays_in_page_zero() {
    let cpu = cpu_with_index(image(0x8000, &[]), 0xFF, 0x90);
    assert_eq!(
        cpu.resolve_location_by_mode(InstructionMode::ZeroPageX, &[0x80]),
        Ok(Some(Location::Address(0x007F)))
    );
    assert_eq!(
        cpu.resolve_location_by_mode(InstructionMode::ZeroPageY, &[0x80]),
        Ok(Some(Location::Address(0x0010)))
    );
    assert_eq!(
        cpu.resolve_location_by_mode(InstructionMode::ZeroPage, &[0xAB]),
        Ok(Some(Location::Address(0x00AB)))
    );
}

#[test]
fn absolute_modes() {
    let cpu = cpu_with_index(image(0x8000, &[]), 0x02, 0x10);
    assert_eq!(cpu.resolve_address_by_mode(InstructionMode::Absolute, &[0x34, 0x12]), Ok(0x1234));
    assert_eq!(cpu.resolve_address_by_mode(InstructionMode::AbsoluteX, &[0xFF, 0x10]), Ok(0x1101));
    assert_eq!(cpu.resolve_address_by_mode(InstructionMode::AbsoluteY, &[0x00, 0x20]), Ok(0x2010));
    assert_eq!(cpu.resolve_address_by_mode(InstructionMode::AbsoluteX, &[0xFF, 0xFF]), Ok(0x0001));
}

#[test]
fn indirect_x_and_y_read_zero_page_words() {
    let mut mem = image(0x8000, &[]);
    mem[0x24] = 0x74;
    mem[0x25] = 0x20;
    mem[0xFF] = 0x34;
    mem[0x00] = 0x12;
    mem[0x86] = 0x28;
    mem[0x87] = 0x40;
    let cpu = cpu_with_index(mem, 0x04, 0x10);
    assert_eq!(cpu.resolve_address_by_mode(InstructionMode::IndirectX, &[0x20]), Ok(0x2074));
    assert_eq!(cpu.resolve_address_by_mode(InstructionMode::IndirectX, &[0xFB]), Ok(0x1234));
    assert_eq!(cpu.resolve_address_by_mode(InstructionMode::IndirectY, &[0x86]), Ok(0x4038));
    assert_eq!(cpu.resolve_address_by_mode(InstructionMode::IndirectY, &[0xFF]), Ok(0x1244));
}

#[test]
fn input_bytes_by_mode() {
    let mut mem = image(0x8000, &[]);
    mem[0x0042] = 0x99;
    mem[0x1234] = 0x77;
    let cpu = cpu_with(mem);
    assert_eq!(cpu.determine_input_byte(InstructionMode::Implied, &[]), Ok(None));
    assert_eq!(cpu.determine_input_byte(InstructionMode::Immediate, &[0x05]), Ok(Some(0x05)));
    assert_eq!(cpu.determine_input_byte(InstructionMode::ZeroPage, &[0x42]), Ok(Some(0x99)));
    assert_eq!(
        cpu.determine_input_byte(InstructionMode::Absolute, &[0x34, 0x12]),
        Ok(Some(0x77))
    );
    assert_eq!(cpu.resolve_location_by_mode(InstructionMode::Accumulator, &[]), Ok(Some(Location::Accumulator)));
    assert_eq!(cpu.resolve_location_by_mode(InstructionMode::Immediate, &[0x05]), Ok(None));
}
