use processor::{
    Cpu, DecodeError, Fault, Instruction, Memory, Register, RegisterFile, OPCODE_ADD_R1_R2,
    OPCODE_MOV_R1, OPCODE_MOV_R2, REGISTER_COUNT,
};

fn cpu_with(program: &[u8]) -> Cpu {
    let mut cpu = Cpu::with_memory_capacity(64);
    cpu.load_program(program);
    cpu
}

#[test]
fn values_lists_registers_in_order() {
    let v = Register::values();
    assert_eq!(
        v,
        vec![
            Register::IP,
            Register::ACC,
            Register::R1,
            Register::R2,
            Register::R3,
            Register::R4,
            Register::R5,
            Register::R6,
            Register::R7,
            Register::R8,
        ]
    );
    assert_eq!(Register::register_amount(), 10);
    assert_eq!(REGISTER_COUNT, 10);
}

#[test]
fn register_names_are_bracketed() {
    assert_eq!(Register::IP.name(), "[IP]");
    assert_eq!(Register::ACC.name(), "[ACC]");
    assert_eq!(Register::R8.name(), "[R8]");
}

#[test]
fn new_cpu_has_all_registers_zero_and_empty_memory() {
    let cpu = Cpu::with_memory_capacity(1024);
    for r in Register::values() {
        assert_eq!(cpu.register(r), 0);
    }
    assert_eq!(cpu.memory().len(), 0);
}

#[test]
fn register_file_get_and_set() {
    let mut regs = RegisterFile::new();
    regs.set(Register::R5, 0xBEEF);
    assert_eq!(regs.get(Register::R5), 0xBEEF);
    assert_eq!(regs.get(Register::R4), 0);
    regs.set(Register::R5, 1);
    assert_eq!(regs.get(Register::R5), 1);
}

#[test]
fn decode_known_opcodes() {
    assert_eq!(Instruction::decode(0x10), Ok(Instruction::MovR1));
    assert_eq!(Instruction::decode(0x11), Ok(Instruction::MovR2));
    assert_eq!(Instruction::decode(0x12), Ok(Instruction::AddR1R2));
    assert_eq!(Instruction::try_from(0x12u8), Ok(Instruction::AddR1R2));
}

#[test]
fn decode_rejects_every_other_byte() {
    for b in 0u16..=255 {
        let b = b as u8;
        let r = Instruction::decode(b);
        if (0x10..=0x12).contains(&b) {
            assert!(r.is_ok());
        } else {
            assert_eq!(r, Err(DecodeError::UnknownOpcode(b)));
            assert_eq!(Instruction::try_from(b), Err(DecodeError::UnknownOpcode(b)));
        }
    }
}

#[test]
fn opcode_and_width_round_trip() {
    for i in [Instruction::MovR1, Instruction::MovR2, Instruction::AddR1R2] {
        assert_eq!(Instruction::decode(i.opcode()), Ok(i));
    }
    assert_eq!(Instruction::MovR1.opcode(), OPCODE_MOV_R1);
    assert_eq!(Instruction::MovR2.opcode(), OPCODE_MOV_R2);
    assert_eq!(Instruction::AddR1R2.opcode(), OPCODE_ADD_R1_R2);
    assert_eq!(Instruction::MovR1.width(), 3);
    assert_eq!(Instruction::AddR1R2.width(), 1);
}

#[test]
fn mov_r1_loads_immediate_and_advances_three() {
    let mut cpu = cpu_with(&[0x12, 0x12, 0x10, 0x00, 0xAB]);
    cpu.set_register(Register::IP, 2);
    assert_eq!(cpu.step(), Ok(()));
    assert_eq!(cpu.register(Register::R1), 0x00AB);
    assert_eq!(cpu.register(Register::IP), 5);
}

#[test]
fn mov_r2_then_add() {
    let mut cpu = cpu_with(&[0x11, 0x00, 0x05, 0x12]);
    cpu.set_register(Register::R1, 0x0003);
    assert_eq!(cpu.step(), Ok(()));
    assert_eq!(cpu.register(Register::R2), 0x0005);
    assert_eq!(cpu.step(), Ok(()));
    assert_eq!(cpu.register(Register::ACC), 0x0008);
    assert_eq!(cpu.register(Register::IP), 4);
}

#[test]
fn add_wraps_on_overflow() {
    let mut cpu = cpu_with(&[0x12]);
    cpu.set_register(Register::R1, 0xFFFF);
    cpu.set_register(Register::R2, 0x0001);
    assert_eq!(cpu.step(), Ok(()));
    assert_eq!(cpu.register(Register::ACC), 0x0000);
    assert_eq!(cpu.register(Register::IP), 1);
}

#[test]
fn read_past_length_is_out_of_bounds() {
    let mut mem = Memory::with_capacity(8);
    assert_eq!(mem.read_u8(0), Err(Fault::OutOfBounds(0)));
    mem.load(&[1, 2, 3]);
    assert_eq!(mem.len(), 3);
    assert_eq!(mem.read_u8(2), Ok(3));
    assert_eq!(mem.read_u8(3), Err(Fault::OutOfBounds(3)));
    assert_eq!(mem.read_u8(usize::MAX), Err(Fault::OutOfBounds(usize::MAX)));
    assert_eq!(mem.read_u16(1), Ok(0x0203));
    assert_eq!(mem.read_u16(2), Err(Fault::OutOfBounds(3)));
    assert_eq!(mem.read_u16(3), Err(Fault::OutOfBounds(3)));
}

#[test]
fn writes_are_strict_and_read_back() {
    let mut mem = Memory::with_capacity(0);
    mem.load(&[0, 0, 0]);
    assert_eq!(mem.write_u16(1, 0xA1B2), Ok(()));
    assert_eq!(mem.read_u8(1), Ok(0xA1));
    assert_eq!(mem.read_u8(2), Ok(0xB2));
    assert_eq!(mem.read_u16(1), Ok(0xA1B2));
    assert_eq!(mem.write_u16(2, 0xFFFF), Err(Fault::OutOfBounds(3)));
    assert_eq!(mem.read_u8(2), Ok(0xB2));
    assert_eq!(mem.write_u8(0, 7), Ok(()));
    assert_eq!(mem.read_u8(0), Ok(7));
    assert_eq!(mem.write_u8(3, 7), Err(Fault::OutOfBounds(3)));
    assert_eq!(mem.len(), 3);
}

#[test]
fn unknown_opcode_faults_and_keeps_registers() {
    let mut cpu = cpu_with(&[0x10, 0x00, 0x07, 0xFF, 0x12]);
    assert_eq!(cpu.step(), Ok(()));
    let before = cpu.display();
    assert_eq!(
        cpu.step(),
        Err(Fault::UnknownOpcode { byte: 0xFF, address: 3 })
    );
    assert_eq!(cpu.display(), before);
    assert_eq!(cpu.register(Register::IP), 3);
    assert_eq!(cpu.register(Register::R1), 7);
}

#[test]
fn run_stops_at_unknown_opcode() {
    let mut cpu = cpu_with(&[0x10, 0x00, 0x02, 0x11, 0x00, 0x03, 0x12, 0x00]);
    assert_eq!(cpu.run(100), Err(Fault::UnknownOpcode { byte: 0x00, address: 7 }));
    assert_eq!(cpu.register(Register::ACC), 5);
    assert_eq!(cpu.register(Register::IP), 7);
}

#[test]
fn run_respects_step_budget() {
    let mut cpu = cpu_with(&[0x12, 0x12, 0x12]);
    assert_eq!(cpu.run(2), Ok(()));
    assert_eq!(cpu.register(Register::IP), 2);
    assert_eq!(cpu.run(0), Ok(()));
    assert_eq!(cpu.register(Register::IP), 2);
}

#[test]
fn truncated_operand_is_out_of_bounds() {
    let mut cpu = cpu_with(&[0x10, 0x01]);
    assert_eq!(cpu.step(), Err(Fault::OutOfBounds(2)));
    assert_eq!(cpu.register(Register::IP), 0);
    assert_eq!(cpu.register(Register::R1), 0);
}

#[test]
fn step_past_end_of_program_is_out_of_bounds() {
    let mut cpu = cpu_with(&[0x12]);
    assert_eq!(cpu.step(), Ok(()));
    assert_eq!(cpu.step(), Err(Fault::OutOfBounds(1)));
}

#[test]
fn instruction_pointer_wraps_at_sixteen_bits() {
    let program = vec![0x12u8; 0x10000];
    let mut cpu = cpu_with(&program);
    cpu.set_register(Register::IP, 0xFFFF);
    assert_eq!(cpu.step(), Ok(()));
    assert_eq!(cpu.register(Register::IP), 0);
}

#[test]
fn display_is_idempotent_and_ordered() {
    let mut cpu = cpu_with(&[0x10, 0x01, 0x2C]);
    assert_eq!(cpu.step(), Ok(()));
    let first = cpu.display();
    let second = cpu.display();
    assert_eq!(first, second);
    assert_eq!(
        first,
        "CPU: { [IP] -> 3; [ACC] -> 0; [R1] -> 300; [R2] -> 0; [R3] -> 0; [R4] -> 0; \
         [R5] -> 0; [R6] -> 0; [R7] -> 0; [R8] -> 0; }"
    );
    assert_eq!(cpu.registers().display(), cpu.registers().display());
}

#[test]
fn display_writes_full_range_values() {
    let mut regs = RegisterFile::new();
    regs.set(Register::IP, 65535);
    regs.set(Register::R8, 10);
    assert_eq!(
        regs.display(),
        "[IP] -> 65535; [ACC] -> 0; [R1] -> 0; [R2] -> 0; [R3] -> 0; [R4] -> 0; \
         [R5] -> 0; [R6] -> 0; [R7] -> 0; [R8] -> 10; "
    );
}

#[test]
fn end_to_end_three_steps() {
    let mut cpu = cpu_with(&[0x10, 0x00, 0x05, 0x11, 0x00, 0x03, 0x12]);
    assert_eq!(cpu.register(Register::IP), 0);
    assert_eq!(cpu.step(), Ok(()));
    assert_eq!(cpu.step(), Ok(()));
    assert_eq!(cpu.step(), Ok(()));
    assert_eq!(cpu.register(Register::R1), 5);
    assert_eq!(cpu.register(Register::R2), 3);
    assert_eq!(cpu.register(Register::ACC), 8);
    assert_eq!(cpu.register(Register::IP), 7);
}
