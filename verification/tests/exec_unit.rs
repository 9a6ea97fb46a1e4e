use rv32core::cpu::{Cpu, Opcode};

#[test]
fn addi_chains_accumulate() {
    let mut cpu = Cpu::new();
    cpu.exec(Opcode::Addi { rd: 1, rs1: 0, imm: 5 });
    cpu.exec(Opcode::Addi { rd: 2, rs1: 1, imm: 10 });
    assert_eq!(cpu.registers().read(1), 5);
    assert_eq!(cpu.registers().read(2), 15);
}

#[test]
fn slti_compares_signed_sltiu_compares_unsigned() {
    let mut cpu = Cpu::new();
    // Immediate bits of -1, sign-extended: 0xFFFF_FFFF.
    cpu.exec(Opcode::Slti { rd: 3, rs1: 0, imm: 0xFFFF_FFFF });
    assert_eq!(cpu.registers().read(3), 0, "signed 0 < -1 is false");
    cpu.exec(Opcode::Sltiu { rd: 3, rs1: 0, imm: 0xFFFF_FFFF });
    assert_eq!(cpu.registers().read(3), 1, "unsigned 0 < 0xFFFF_FFFF is true");
}

#[test]
fn srai_sign_fills_srli_zero_fills() {
    let mut cpu = Cpu::new();
    cpu.exec(Opcode::Lui { imm: 0x8000_0000, rd: 1 });
    assert_eq!(cpu.registers().read(1), 0x8000_0000);
    cpu.exec(Opcode::Srai { rd: 2, rs1: 1, shamt: 4 });
    assert_eq!(cpu.registers().read(2), 0xF800_0000);
    cpu.exec(Opcode::Srli { rd: 3, rs1: 1, shamt: 4 });
    assert_eq!(cpu.registers().read(3), 0x0800_0000);
}

#[test]
fn auipc_adds_the_placed_immediate_to_the_fetch_address() {
    // A fresh core's program counter sits at 0x0000_1000.
    let mut cpu = Cpu::new();
    assert_eq!(cpu.pc(), 0x0000_1000);
    cpu.exec(Opcode::Auipc { imm: 0x0000_1000, rd: 5 });
    assert_eq!(cpu.registers().read(5), 0x0000_2000);
    assert_eq!(cpu.pc(), 0x0000_1004);
}

#[test]
fn jalr_links_past_the_instruction_and_jumps() {
    let mut cpu = Cpu::new();
    let fetch_address = cpu.pc();
    cpu.exec(Opcode::Jalr { rd: 1, rs1: 0, offset: 0x1000 });
    assert_eq!(cpu.registers().read(1), fetch_address.wrapping_add(4));
    assert_eq!(cpu.pc(), 0x1000);
}

#[test]
fn jalr_clears_bit_zero_of_the_target() {
    let mut cpu = Cpu::new();
    cpu.exec(Opcode::Jalr { rd: 1, rs1: 0, offset: 0x101 });
    assert_eq!(cpu.pc(), 0x100);
}

#[test]
fn add_and_sub_wrap_around() {
    let mut cpu = Cpu::new();
    cpu.exec(Opcode::Addi { rd: 1, rs1: 0, imm: 0xFFFF_FFFF });
    cpu.exec(Opcode::Add { rd: 2, rs1: 1, rs2: 1 });
    assert_eq!(cpu.registers().read(2), 0xFFFF_FFFE);
    cpu.exec(Opcode::Sub { rd: 3, rs1: 0, rs2: 1 });
    assert_eq!(cpu.registers().read(3), 1);
}

#[test]
fn register_shifts_mask_the_amount_to_five_bits() {
    let mut cpu = Cpu::new();
    cpu.exec(Opcode::Addi { rd: 1, rs1: 0, imm: 1 });
    cpu.exec(Opcode::Addi { rd: 2, rs1: 0, imm: 33 });
    cpu.exec(Opcode::Sll { rd: 3, rs1: 1, rs2: 2 });
    assert_eq!(cpu.registers().read(3), 2, "a shift by 33 acts as a shift by 1");
    cpu.exec(Opcode::Srl { rd: 4, rs1: 2, rs2: 2 });
    assert_eq!(cpu.registers().read(4), 16, "33 >> (33 & 31) == 16");
}

#[test]
fn slt_and_sltu_compare_register_values() {
    let mut cpu = Cpu::new();
    cpu.exec(Opcode::Addi { rd: 1, rs1: 0, imm: 0xFFFF_FFFF });
    cpu.exec(Opcode::Addi { rd: 2, rs1: 0, imm: 3 });
    cpu.exec(Opcode::Slt { rd: 3, rs1: 1, rs2: 2 });
    assert_eq!(cpu.registers().read(3), 1, "signed -1 < 3");
    cpu.exec(Opcode::Sltu { rd: 4, rs1: 1, rs2: 2 });
    assert_eq!(cpu.registers().read(4), 0, "unsigned 0xFFFF_FFFF < 3 is false");
}

#[test]
fn bitwise_forms_operate_on_sign_extended_immediates() {
    let mut cpu = Cpu::new();
    cpu.exec(Opcode::Addi { rd: 1, rs1: 0, imm: 0x0F0 });
    cpu.exec(Opcode::Xori { rd: 2, rs1: 1, imm: 0xFFFF_FFFF });
    assert_eq!(cpu.registers().read(2), 0xFFFF_FF0F);
    cpu.exec(Opcode::Ori { rd: 3, rs1: 1, imm: 0x00F });
    assert_eq!(cpu.registers().read(3), 0x0FF);
    cpu.exec(Opcode::Andi { rd: 4, rs1: 1, imm: 0x03C });
    assert_eq!(cpu.registers().read(4), 0x030);
}

#[test]
fn fence_only_advances_the_program_counter() {
    let mut cpu = Cpu::new();
    let before = cpu.pc();
    cpu.exec(Opcode::Fence);
    assert_eq!(cpu.pc(), before.wrapping_add(4));
    for i in 0..32usize {
        assert_eq!(cpu.registers().read(i), 0);
    }
}

#[test]
fn writes_to_x0_are_discarded_by_execution() {
    let mut cpu = Cpu::new();
    cpu.exec(Opcode::Addi { rd: 0, rs1: 0, imm: 7 });
    assert_eq!(cpu.registers().read(0), 0);
    cpu.exec(Opcode::Lui { imm: 0x1000, rd: 0 });
    assert_eq!(cpu.registers().read(0), 0);
}
