use cc8r::flags::{FLAG_CARRY, FLAG_NEGATIVE, FLAG_OVERFLOW, FLAG_ZERO};
use cc8r::isa::{decode_instruction, operand_count, Control, Instruction};
use cc8r::machine::CC8R;

fn machine_with(regs: [u8; 8]) -> CC8R {
    let mut cpu = CC8R::new();
    cpu.registers = regs;
    cpu
}

#[test]
fn new_machine_is_zeroed() {
    let cpu = CC8R::new();
    assert_eq!(cpu.registers(), [0; 8]);
    assert_eq!(cpu.program_counter(), 0);
    assert_eq!(cpu.stack_pointer(), 0xF0);
    assert_eq!(cpu.flags(), 0);
    assert!(cpu.memory.iter().all(|&b| b == 0));
}

#[test]
fn load_program_copies_from_address_zero() {
    let mut cpu = CC8R::new();
    cpu.memory[10] = 0x77;
    cpu.load_program(&[1, 2, 3]);
    assert_eq!(&cpu.memory[0..4], &[1, 2, 3, 0]);
    assert_eq!(cpu.memory[10], 0x77);
    assert_eq!(cpu.program_counter(), 0);
}

#[test]
fn load_program_fills_whole_memory() {
    let mut cpu = CC8R::new();
    let program: Vec<u8> = (0..=255u8).collect();
    cpu.load_program(&program);
    assert_eq!(cpu.memory[0], 0);
    assert_eq!(cpu.memory[255], 255);
}

#[test]
fn decode_names_each_opcode() {
    let cpu = CC8R::new();
    assert_eq!(cpu.decode(0x00), "NOP");
    assert_eq!(cpu.decode(0x10), "HALT");
    assert_eq!(cpu.decode(0x14), "LDI");
    assert_eq!(cpu.decode(0x18), "MV");
    assert_eq!(cpu.decode(0x50), "DIV");
    assert_eq!(cpu.decode(0xF0), "JNZ");
    assert_eq!(cpu.decode(0xFF), "UNKNOWN");
    assert_eq!(cpu.decode(0x15), "UNKNOWN");
}

#[test]
fn operand_counts_follow_the_table() {
    assert_eq!(operand_count(0x00), 0);
    assert_eq!(operand_count(0x10), 0);
    assert_eq!(operand_count(0x14), 2);
    assert_eq!(operand_count(0x80), 2);
    assert_eq!(operand_count(0x90), 1);
    assert_eq!(operand_count(0xD0), 1);
    assert_eq!(operand_count(0x33), 0);
}

#[test]
fn decode_instruction_uses_operands() {
    assert_eq!(decode_instruction(0x14, 2, 9), Instruction::Ldi { reg: 2, value: 9 });
    assert_eq!(decode_instruction(0xB0, 4, 9), Instruction::Push { reg: 4 });
    assert_eq!(decode_instruction(0x00, 4, 9), Instruction::Nop);
    assert_eq!(decode_instruction(0x07, 4, 9), Instruction::Unknown { opcode: 7 });
}

#[test]
fn fetch_reads_and_advances() {
    let mut cpu = CC8R::new();
    cpu.load_program(&[0xAB, 0xCD]);
    assert_eq!(cpu.fetch(), 0xAB);
    assert_eq!(cpu.program_counter(), 1);
    assert_eq!(cpu.fetch(), 0xCD);
}

#[test]
fn fetch_wraps_program_counter() {
    let mut cpu = CC8R::new();
    cpu.pc = 255;
    cpu.memory[255] = 0x5A;
    assert_eq!(cpu.fetch(), 0x5A);
    assert_eq!(cpu.program_counter(), 0);
}

#[test]
fn operands_wrap_around_memory_end() {
    let mut cpu = CC8R::new();
    cpu.pc = 254;
    cpu.memory[254] = 0x14;
    cpu.memory[255] = 0x02;
    cpu.memory[0] = 0x33;
    let s = cpu.step();
    assert_eq!(s.opcode, 0x14);
    assert_eq!(s.instruction, Instruction::Ldi { reg: 2, value: 0x33 });
    assert_eq!(s.control, Control::Continue);
    assert_eq!(cpu.registers[2], 0x33);
    assert_eq!(cpu.program_counter(), 1);
}

#[test]
fn push_wraps_stack_pointer_below_zero() {
    let mut cpu = machine_with([0, 0x66, 0, 0, 0, 0, 0, 0]);
    cpu.sp = 0;
    assert_eq!(cpu.apply(Instruction::Push { reg: 1 }), Control::Continue);
    assert_eq!(cpu.stack_pointer(), 255);
    assert_eq!(cpu.memory[255], 0x66);
}

#[test]
fn pop_wraps_stack_pointer_above_top() {
    let mut cpu = CC8R::new();
    cpu.sp = 255;
    cpu.memory[255] = 0x11;
    assert_eq!(cpu.apply(Instruction::Pop { reg: 5 }), Control::Continue);
    assert_eq!(cpu.stack_pointer(), 0);
    assert_eq!(cpu.registers[5], 0x11);
}

#[test]
fn add_sets_carry_on_wrap() {
    let mut cpu = machine_with([0, 200, 100, 0, 0, 0, 0, 0]);
    cpu.apply(Instruction::Add { ra: 1, rb: 2 });
    assert_eq!(cpu.registers[0], 44);
    assert!(cpu.flag(FLAG_CARRY));
    assert!(!cpu.flag(FLAG_ZERO));
    assert!(!cpu.flag(FLAG_NEGATIVE));
}

#[test]
fn add_clears_carry_without_wrap() {
    let mut cpu = machine_with([0, 100, 28, 0, 0, 0, 0, 0]);
    cpu.flags = FLAG_CARRY;
    cpu.apply(Instruction::Add { ra: 1, rb: 2 });
    assert_eq!(cpu.registers[0], 128);
    assert!(!cpu.flag(FLAG_CARRY));
    assert!(cpu.flag(FLAG_NEGATIVE));
}

#[test]
fn add_to_exactly_256_is_zero_with_carry() {
    let mut cpu = machine_with([0, 255, 1, 0, 0, 0, 0, 0]);
    cpu.apply(Instruction::Add { ra: 1, rb: 2 });
    assert_eq!(cpu.registers[0], 0);
    assert!(cpu.flag(FLAG_CARRY));
    assert!(cpu.flag(FLAG_ZERO));
}

#[test]
fn sub_sets_carry_on_borrow() {
    let mut cpu = machine_with([0, 3, 5, 0, 0, 0, 0, 0]);
    cpu.apply(Instruction::Sub { ra: 1, rb: 2 });
    assert_eq!(cpu.registers[0], 254);
    assert!(cpu.flag(FLAG_CARRY));
    assert!(cpu.flag(FLAG_NEGATIVE));
}

#[test]
fn sub_of_equal_values_is_zero() {
    let mut cpu = machine_with([0, 7, 7, 0, 0, 0, 0, 0]);
    cpu.apply(Instruction::Sub { ra: 1, rb: 2 });
    assert_eq!(cpu.registers[0], 0);
    assert!(!cpu.flag(FLAG_CARRY));
    assert!(cpu.flag(FLAG_ZERO));
}

#[test]
fn mul_keeps_low_byte_and_sets_overflow() {
    let mut cpu = machine_with([0, 16, 17, 0, 0, 0, 0, 0]);
    cpu.apply(Instruction::Mul { ra: 1, rb: 2 });
    assert_eq!(cpu.registers[0], 16);
    assert!(cpu.flag(FLAG_OVERFLOW));
}

#[test]
fn mul_flags_come_from_first_source_register() {
    let mut cpu = machine_with([0, 0x90, 2, 0, 0, 0, 0, 0]);
    cpu.flags = FLAG_OVERFLOW;
    cpu.apply(Instruction::Mul { ra: 2, rb: 2 });
    assert_eq!(cpu.registers[0], 4);
    assert!(!cpu.flag(FLAG_OVERFLOW));
    cpu.apply(Instruction::Mul { ra: 1, rb: 2 });
    assert_eq!(cpu.registers[0], 0x20);
    assert!(cpu.flag(FLAG_NEGATIVE));
    assert!(cpu.flag(FLAG_OVERFLOW));
}

#[test]
fn div_truncates() {
    let mut cpu = machine_with([0, 10, 3, 0, 0, 0, 0, 0]);
    cpu.apply(Instruction::Div { ra: 1, rb: 2 });
    assert_eq!(cpu.registers[0], 3);
    assert!(!cpu.flag(FLAG_OVERFLOW));
}

#[test]
fn div_by_zero_leaves_zero_and_negative() {
    let mut cpu = machine_with([0x99, 10, 0, 0, 0, 0, 0, 0]);
    cpu.flags = FLAG_NEGATIVE | FLAG_CARRY;
    assert_eq!(cpu.apply(Instruction::Div { ra: 1, rb: 2 }), Control::Continue);
    assert_eq!(cpu.registers[0], 0x99);
    assert_eq!(cpu.flags(), FLAG_NEGATIVE | FLAG_CARRY | FLAG_OVERFLOW);
}

#[test]
fn and_or_xor_results() {
    let mut cpu = machine_with([0, 0x0F, 0x3C, 0, 0, 0, 0, 0]);
    cpu.apply(Instruction::And { ra: 1, rb: 2 });
    assert_eq!(cpu.registers[0], 0x0C);
    cpu.apply(Instruction::Or { ra: 1, rb: 2 });
    assert_eq!(cpu.registers[0], 0x3F);
    cpu.apply(Instruction::Xor { ra: 1, rb: 2 });
    assert_eq!(cpu.registers[0], 0x33);
}

#[test]
fn and_flags_come_from_first_source_register() {
    let mut cpu = machine_with([0, 0x0F, 0xF0, 0, 0, 0, 0, 0]);
    cpu.apply(Instruction::And { ra: 1, rb: 2 });
    assert_eq!(cpu.registers[0], 0);
    assert!(!cpu.flag(FLAG_ZERO));
}

#[test]
fn mv_flags_come_from_source_index() {
    let mut cpu = machine_with([0, 0, 0x80, 0, 0, 0, 0, 0]);
    cpu.apply(Instruction::Mv { dst: 3, src: 1 });
    assert_eq!(cpu.registers[3], 0);
    assert!(!cpu.flag(FLAG_ZERO));
    cpu.apply(Instruction::Mv { dst: 4, src: 0 });
    assert!(cpu.flag(FLAG_ZERO));
    cpu.apply(Instruction::Mv { dst: 5, src: 2 });
    assert_eq!(cpu.registers[5], 0x80);
    assert!(!cpu.flag(FLAG_NEGATIVE));
}

#[test]
fn ldi_derives_zero_and_negative() {
    let mut cpu = CC8R::new();
    cpu.flags = FLAG_CARRY | FLAG_OVERFLOW;
    cpu.apply(Instruction::Ldi { reg: 6, value: 0x80 });
    assert_eq!(cpu.registers[6], 0x80);
    assert_eq!(cpu.flags(), FLAG_CARRY | FLAG_OVERFLOW | FLAG_NEGATIVE);
    cpu.apply(Instruction::Ldi { reg: 6, value: 0 });
    assert_eq!(cpu.flags(), FLAG_CARRY | FLAG_OVERFLOW | FLAG_ZERO);
}

#[test]
fn shifts_drop_the_outer_bit() {
    let mut cpu = machine_with([0, 0x81, 0x81, 0, 0, 0, 0, 0]);
    cpu.apply(Instruction::Shl { reg: 1 });
    assert_eq!(cpu.registers[1], 0x02);
    cpu.apply(Instruction::Shr { reg: 2 });
    assert_eq!(cpu.registers[2], 0x40);
    cpu.apply(Instruction::Shl { reg: 2 });
    assert_eq!(cpu.registers[2], 0x80);
    assert!(cpu.flag(FLAG_NEGATIVE));
    cpu.apply(Instruction::Shl { reg: 2 });
    assert_eq!(cpu.registers[2], 0);
    assert!(cpu.flag(FLAG_ZERO));
}

#[test]
fn update_flags_sets_and_clears() {
    let mut cpu = CC8R::new();
    cpu.update_flags(0);
    assert_eq!(cpu.flags(), FLAG_ZERO);
    cpu.update_flags(0xFF);
    assert_eq!(cpu.flags(), FLAG_NEGATIVE);
    cpu.update_flags(1);
    assert_eq!(cpu.flags(), 0);
}

#[test]
fn apply_with_bad_register_changes_nothing() {
    let mut cpu = machine_with([1, 2, 3, 4, 5, 6, 7, 8]);
    assert_eq!(
        cpu.apply(Instruction::Mv { dst: 1, src: 200 }),
        Control::InvalidRegister { index: 200 }
    );
    assert_eq!(cpu.apply(Instruction::Pop { reg: 8 }), Control::InvalidRegister { index: 8 });
    assert_eq!(cpu.registers, [1, 2, 3, 4, 5, 6, 7, 8]);
    assert_eq!(cpu.stack_pointer(), 0xF0);
    assert_eq!(cpu.flags(), 0);
}

#[test]
fn execute_reads_operands_then_applies() {
    let mut cpu = CC8R::new();
    cpu.load_program(&[0x14, 0x03, 0x2A, 0x10]);
    let op = cpu.fetch();
    assert_eq!(cpu.execute(op), Control::Continue);
    assert_eq!(cpu.registers[3], 0x2A);
    assert_eq!(cpu.program_counter(), 3);
    let op = cpu.fetch();
    assert_eq!(cpu.execute(op), Control::Halt);
    assert_eq!(cpu.program_counter(), 4);
}

#[test]
fn mul_into_register_zero_takes_flags_from_product() {
    let mut cpu = machine_with([3, 0, 0, 0, 0, 0, 0, 0]);
    cpu.apply(Instruction::Mul { ra: 0, rb: 1 });
    assert_eq!(cpu.registers[0], 0);
    assert!(cpu.flag(FLAG_ZERO));
    assert!(!cpu.flag(FLAG_NEGATIVE));
}

#[test]
fn logic_into_register_zero_takes_flags_from_result() {
    let mut cpu = machine_with([3, 0, 0, 0, 0, 0, 0, 0]);
    cpu.apply(Instruction::And { ra: 0, rb: 1 });
    assert_eq!(cpu.registers[0], 0);
    assert!(cpu.flag(FLAG_ZERO));

    let mut cpu = machine_with([0x01, 0x80, 0, 0, 0, 0, 0, 0]);
    cpu.apply(Instruction::Or { ra: 0, rb: 1 });
    assert_eq!(cpu.registers[0], 0x81);
    assert!(cpu.flag(FLAG_NEGATIVE));
    assert!(!cpu.flag(FLAG_ZERO));

    let mut cpu = machine_with([0x5A, 0, 0, 0, 0, 0, 0, 0]);
    cpu.apply(Instruction::Xor { ra: 0, rb: 0 });
    assert_eq!(cpu.registers[0], 0);
    assert!(cpu.flag(FLAG_ZERO));
}

#[test]
fn mul_program_with_register_zero_operand_sets_zero() {
    let mut cpu = CC8R::new();
    cpu.load_program(&[0x14, 0x00, 0x03, 0x14, 0x01, 0x00, 0x40, 0x00, 0x01, 0x10]);
    assert_eq!(cpu.run(), Some(Control::Halt));
    assert_eq!(cpu.registers[0], 0);
    assert!(cpu.flag(FLAG_ZERO));
}
