use rv32core::cpu::{Cpu, Opcode};
use rv32core::util::Fault;

fn round_trip(op: Opcode) {
    let word = op.encode();
    assert_eq!(Cpu::decode(word), Ok(op));
}

#[test]
fn upper_immediate_forms_round_trip() {
    round_trip(Opcode::Lui { imm: 0x8000_0000, rd: 1 });
    round_trip(Opcode::Lui { imm: 0, rd: 31 });
    round_trip(Opcode::Auipc { imm: 0x0000_1000, rd: 5 });
    round_trip(Opcode::Auipc { imm: 0xFFFF_F000, rd: 0 });
}

#[test]
fn immediate_arithmetic_forms_round_trip() {
    round_trip(Opcode::Addi { rd: 1, rs1: 0, imm: 5 });
    round_trip(Opcode::Addi { rd: 2, rs1: 1, imm: 0xFFFF_FFFF });
    round_trip(Opcode::Slti { rd: 3, rs1: 0, imm: 0xFFFF_FFFF });
    round_trip(Opcode::Sltiu { rd: 3, rs1: 0, imm: 0xFFFF_F800 });
    round_trip(Opcode::Xori { rd: 4, rs1: 5, imm: 0x7FF });
    round_trip(Opcode::Ori { rd: 6, rs1: 7, imm: 0 });
    round_trip(Opcode::Andi { rd: 8, rs1: 9, imm: 0xFFFF_FF80 });
}

#[test]
fn immediate_shift_forms_round_trip() {
    round_trip(Opcode::Slli { rd: 1, rs1: 2, shamt: 0 });
    round_trip(Opcode::Slli { rd: 1, rs1: 2, shamt: 31 });
    round_trip(Opcode::Srli { rd: 3, rs1: 4, shamt: 4 });
    round_trip(Opcode::Srai { rd: 2, rs1: 1, shamt: 4 });
    round_trip(Opcode::Srai { rd: 31, rs1: 31, shamt: 31 });
}

#[test]
fn register_register_forms_round_trip() {
    round_trip(Opcode::Add { rd: 1, rs1: 2, rs2: 3 });
    round_trip(Opcode::Sub { rd: 4, rs1: 5, rs2: 6 });
    round_trip(Opcode::Sll { rd: 7, rs1: 8, rs2: 9 });
    round_trip(Opcode::Slt { rd: 10, rs1: 11, rs2: 12 });
    round_trip(Opcode::Sltu { rd: 13, rs1: 14, rs2: 15 });
    round_trip(Opcode::Xor { rd: 16, rs1: 17, rs2: 18 });
    round_trip(Opcode::Srl { rd: 19, rs1: 20, rs2: 21 });
    round_trip(Opcode::Sra { rd: 22, rs1: 23, rs2: 24 });
    round_trip(Opcode::Or { rd: 25, rs1: 26, rs2: 27 });
    round_trip(Opcode::And { rd: 28, rs1: 29, rs2: 30 });
}

#[test]
fn jump_and_fence_round_trip() {
    round_trip(Opcode::Jalr { rd: 1, rs1: 0, offset: 16 });
    round_trip(Opcode::Jalr { rd: 0, rs1: 31, offset: 0xFFFF_F800 });
    round_trip(Opcode::Fence);
}

#[test]
fn encode_matches_documented_bit_layout() {
    assert_eq!(Opcode::Addi { rd: 1, rs1: 0, imm: 5 }.encode(), 0x0050_0093);
    assert_eq!(Opcode::Addi { rd: 2, rs1: 1, imm: 10 }.encode(), 0x00A0_8113);
    assert_eq!(Opcode::Lui { imm: 0x8000_0000, rd: 1 }.encode(), 0x8000_00B7);
    assert_eq!(Opcode::Srai { rd: 2, rs1: 1, shamt: 4 }.encode(), 0x4040_D113);
    assert_eq!(Opcode::Add { rd: 3, rs1: 1, rs2: 2 }.encode(), 0x0020_81B3);
    assert_eq!(Opcode::Fence.encode(), 0x0000_000F);
}

#[test]
fn decode_reads_fields_from_their_positions() {
    // addi x1, x0, 5
    assert_eq!(Cpu::decode(0x0050_0093), Ok(Opcode::Addi { rd: 1, rs1: 0, imm: 5 }));
    // srli x3, x4, 4
    assert_eq!(Cpu::decode(0x0042_5193), Ok(Opcode::Srli { rd: 3, rs1: 4, shamt: 4 }));
    // jalr x1, 16(x2)
    assert_eq!(Cpu::decode(0x0101_00E7), Ok(Opcode::Jalr { rd: 1, rs1: 2, offset: 16 }));
}

#[test]
fn decode_sign_extends_i_type_immediates() {
    // addi x1, x0, -1: immediate bits are all ones.
    assert_eq!(Cpu::decode(0xFFF0_0093), Ok(Opcode::Addi { rd: 1, rs1: 0, imm: 0xFFFF_FFFF }));
    // addi x1, x0, -2048: the most negative 12-bit immediate.
    assert_eq!(Cpu::decode(0x8000_0093), Ok(Opcode::Addi { rd: 1, rs1: 0, imm: 0xFFFF_F800 }));
    // addi x1, x0, 2047 stays positive.
    assert_eq!(Cpu::decode(0x7FF0_0093), Ok(Opcode::Addi { rd: 1, rs1: 0, imm: 0x0000_07FF }));
}

#[test]
fn unmatched_patterns_are_decode_faults() {
    assert_eq!(Cpu::decode(0), Err(Fault::DecodeFault { word: 0 }));
    assert_eq!(Cpu::decode(0xFFFF_FFFF), Err(Fault::DecodeFault { word: 0xFFFF_FFFF }));
    // An R-type word with funct7 = 1 (a multiply-extension pattern).
    assert_eq!(Cpu::decode(0x0220_81B3), Err(Fault::DecodeFault { word: 0x0220_81B3 }));
    // An immediate shift with an unknown funct7.
    assert_eq!(Cpu::decode(0x0600_5013), Err(Fault::DecodeFault { word: 0x0600_5013 }));
}
