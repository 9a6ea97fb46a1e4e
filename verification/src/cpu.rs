//! The processor core: field extraction from 32-bit instruction words, the
//! typed operation set, a pure decoder, a mirroring encoder, and the
//! execution unit that applies one operation's semantics to the register
//! file and the program counter. One `step` fetches at the program counter,
//! decodes, and executes; the program counter advances by 4 unless a
//! control-flow operation overrides it.

use crate::bus::Bus;
use crate::register::{write_reg, Register};
use crate::rom::ROM_BASE;
use crate::util::{
    s_lt, signed_lt, shift_right_arithmetic, sra32, wadd, wsub, Fault, MemorySize,
};
use vstd::prelude::*;

verus! {

// Field layout of an instruction word (bit 0 = least significant):
// opcode = bits[6:0], rd = bits[11:7], funct3 = bits[14:12],
// rs1 = bits[19:15], rs2 = bits[24:20], funct7 = bits[31:25].
/// opcode = bits[6:0].
pub open spec fn opcode_bits(w: u32) -> u32 {
    w & 0x7F
}

/// rd = bits[11:7].
pub open spec fn rd_bits(w: u32) -> usize {
    ((w >> 7) & 0x1F) as usize
}

/// funct3 = bits[14:12].
pub open spec fn funct3_bits(w: u32) -> u32 {
    (w >> 12) & 0x7
}

/// rs1 = bits[19:15].
pub open spec fn rs1_bits(w: u32) -> usize {
    ((w >> 15) & 0x1F) as usize
}

/// rs2 = bits[24:20].
pub open spec fn rs2_bits(w: u32) -> usize {
    ((w >> 20) & 0x1F) as usize
}

/// funct7 = bits[31:25].
pub open spec fn funct7_bits(w: u32) -> u32 {
    (w >> 25) & 0x7F
}

/// Shift amount of the immediate-shift forms: the low 5 bits of the rs2
/// field position, unsigned.
pub open spec fn shamt_bits(w: u32) -> u32 {
    (w >> 20) & 0x1F
}

/// I-type immediate: bits[31:20], sign-extended to 32 bits.
pub open spec fn imm_i_bits(w: u32) -> u32 {
    if (w >> 20) >= 0x800 {
        (w >> 20) | 0xFFFF_F000
    } else {
        w >> 20
    }
}

/// U-type immediate: bits[31:12], placed as the upper 20 bits of the value,
/// the lower 12 bits zero.
pub open spec fn imm_u_bits(w: u32) -> u32 {
    w & 0xFFFF_F000
}

/// A well-formed sign-extended 12-bit immediate: its upper 20 bits all
/// repeat bit 11.
pub open spec fn imm12_wf(imm: u32) -> bool {
    imm < 0x800 || imm >= 0xFFFF_F800
}

/// The closed set of supported operations, each carrying only the operand
/// fields its semantics require. Register indices are 0–31; immediates are
/// carried as 32-bit two's-complement patterns, already sign-extended
/// (I-type) or placed in the upper 20 bits (U-type).
#[derive(Clone, Copy, Debug, PartialEq, Eq, Structural)]
pub enum Opcode {
    Lui { imm: u32, rd: usize },
    Auipc { imm: u32, rd: usize },
    Addi { rd: usize, rs1: usize, imm: u32 },
    Slti { rd: usize, rs1: usize, imm: u32 },
    Sltiu { rd: usize, rs1: usize, imm: u32 },
    Xori { rd: usize, rs1: usize, imm: u32 },
    Ori { rd: usize, rs1: usize, imm: u32 },
    Andi { rd: usize, rs1: usize, imm: u32 },
    Slli { rd: usize, rs1: usize, shamt: u32 },
    Srli { rd: usize, rs1: usize, shamt: u32 },
    Srai { rd: usize, rs1: usize, shamt: u32 },
    Add { rd: usize, rs1: usize, rs2: usize },
    Sub { rd: usize, rs1: usize, rs2: usize },
    Sll { rd: usize, rs1: usize, rs2: usize },
    Slt { rd: usize, rs1: usize, rs2: usize },
    Sltu { rd: usize, rs1: usize, rs2: usize },
    Xor { rd: usize, rs1: usize, rs2: usize },
    Srl { rd: usize, rs1: usize, rs2: usize },
    Sra { rd: usize, rs1: usize, rs2: usize },
    Or { rd: usize, rs1: usize, rs2: usize },
    And { rd: usize, rs1: usize, rs2: usize },
    Fence,
    Jalr { rd: usize, rs1: usize, offset: u32 },
}

impl Opcode {
    /// The operand bounds execution relies on: register indices and shift
    /// amounts below 32. Immediates carry no such bound — their semantics
    /// are total.
    pub open spec fn regs_in_range(self) -> bool {
        match self {
            Opcode::Lui { rd, .. } => rd < 32,
            Opcode::Auipc { rd, .. } => rd < 32,
            Opcode::Addi { rd, rs1, .. } => rd < 32 && rs1 < 32,
            Opcode::Slti { rd, rs1, .. } => rd < 32 && rs1 < 32,
            Opcode::Sltiu { rd, rs1, .. } => rd < 32 && rs1 < 32,
            Opcode::Xori { rd, rs1, .. } => rd < 32 && rs1 < 32,
            Opcode::Ori { rd, rs1, .. } => rd < 32 && rs1 < 32,
            Opcode::Andi { rd, rs1, .. } => rd < 32 && rs1 < 32,
            Opcode::Slli { rd, rs1, shamt } => rd < 32 && rs1 < 32 && shamt < 32,
            Opcode::Srli { rd, rs1, shamt } => rd < 32 && rs1 < 32 && shamt < 32,
            Opcode::Srai { rd, rs1, shamt } => rd < 32 && rs1 < 32 && shamt < 32,
            Opcode::Add { rd, rs1, rs2 } => rd < 32 && rs1 < 32 && rs2 < 32,
            Opcode::Sub { rd, rs1, rs2 } => rd < 32 && rs1 < 32 && rs2 < 32,
            Opcode::Sll { rd, rs1, rs2 } => rd < 32 && rs1 < 32 && rs2 < 32,
            Opcode::Slt { rd, rs1, rs2 } => rd < 32 && rs1 < 32 && rs2 < 32,
            Opcode::Sltu { rd, rs1, rs2 } => rd < 32 && rs1 < 32 && rs2 < 32,
            Opcode::Xor { rd, rs1, rs2 } => rd < 32 && rs1 < 32 && rs2 < 32,
            Opcode::Srl { rd, rs1, rs2 } => rd < 32 && rs1 < 32 && rs2 < 32,
            Opcode::Sra { rd, rs1, rs2 } => rd < 32 && rs1 < 32 && rs2 < 32,
            Opcode::Or { rd, rs1, rs2 } => rd < 32 && rs1 < 32 && rs2 < 32,
            Opcode::And { rd, rs1, rs2 } => rd < 32 && rs1 < 32 && rs2 < 32,
            Opcode::Fence => true,
            Opcode::Jalr { rd, rs1, .. } => rd < 32 && rs1 < 32,
        }
    }

    /// Validity as the decoder guarantees it: operand bounds, I-type
    /// immediates properly sign-extended, U-type immediates with a zero low
    /// 12 bits. Exactly the operations the encoder can reproduce.
    pub open spec fn wf(self) -> bool {
        self.regs_in_range() && match self {
            Opcode::Lui { imm, .. } => imm % 0x1000 == 0,
            Opcode::Auipc { imm, .. } => imm % 0x1000 == 0,
            Opcode::Addi { imm, .. } => imm12_wf(imm),
            Opcode::Slti { imm, .. } => imm12_wf(imm),
            Opcode::Sltiu { imm, .. } => imm12_wf(imm),
            Opcode::Xori { imm, .. } => imm12_wf(imm),
            Opcode::Ori { imm, .. } => imm12_wf(imm),
            Opcode::Andi { imm, .. } => imm12_wf(imm),
            Opcode::Jalr { offset, .. } => imm12_wf(offset),
            _ => true,
        }
    }

    /// The instruction word this operation occupies, built by placing each
    /// field at its position in the layout above. Decoding the encoded word
    /// reproduces the same operation and operand values, for every
    /// well-formed operation.
    pub fn encode(self) -> (w: u32)
        requires
            self.wf(),
        ensures
            decode_spec(w) == Some(self),
    {
        match self {
            Opcode::Lui { imm, rd } => {
                proof {
                    lemma_encode_u(0x37, rd, imm);
                }
                imm | ((rd as u32) << 7) | 0x37
            },
            Opcode::Auipc { imm, rd } => {
                proof {
                    lemma_encode_u(0x17, rd, imm);
                }
                imm | ((rd as u32) << 7) | 0x17
            },
            Opcode::Addi { rd, rs1, imm } => {
                proof {
                    lemma_encode_i(0x13, 0, rd, rs1, imm);
                }
                ((imm & 0xFFF) << 20) | ((rs1 as u32) << 15) | (0 << 12) | ((rd as u32) << 7)
                    | 0x13
            },
            Opcode::Slti { rd, rs1, imm } => {
                proof {
                    lemma_encode_i(0x13, 2, rd, rs1, imm);
                }
                ((imm & 0xFFF) << 20) | ((rs1 as u32) << 15) | (2 << 12) | ((rd as u32) << 7)
                    | 0x13
            },
            Opcode::Sltiu { rd, rs1, imm } => {
                proof {
                    lemma_encode_i(0x13, 3, rd, rs1, imm);
                }
                ((imm & 0xFFF) << 20) | ((rs1 as u32) << 15) | (3 << 12) | ((rd as u32) << 7)
                    | 0x13
            },
            Opcode::Xori { rd, rs1, imm } => {
                proof {
                    lemma_encode_i(0x13, 4, rd, rs1, imm);
                }
                ((imm & 0xFFF) << 20) | ((rs1 as u32) << 15) | (4 << 12) | ((rd as u32) << 7)
                    | 0x13
            },
            Opcode::Ori { rd, rs1, imm } => {
                proof {
                    lemma_encode_i(0x13, 6, rd, rs1, imm);
                }
                ((imm & 0xFFF) << 20) | ((rs1 as u32) << 15) | (6 << 12) | ((rd as u32) << 7)
                    | 0x13
            },
            Opcode::Andi { rd, rs1, imm } => {
                proof {
                    lemma_encode_i(0x13, 7, rd, rs1, imm);
                }
                ((imm & 0xFFF) << 20) | ((rs1 as u32) << 15) | (7 << 12) | ((rd as u32) << 7)
                    | 0x13
            },
            Opcode::Slli { rd, rs1, shamt } => {
                proof {
                    lemma_encode_shift(0, 1, rd, rs1, shamt);
                }
                (0 << 25) | (shamt << 20) | ((rs1 as u32) << 15) | (1 << 12) | ((rd as u32) << 7)
                    | 0x13
            },
            Opcode::Srli { rd, rs1, shamt } => {
                proof {
                    lemma_encode_shift(0, 5, rd, rs1, shamt);
                }
                (0 << 25) | (shamt << 20) | ((rs1 as u32) << 15) | (5 << 12) | ((rd as u32) << 7)
                    | 0x13
            },
            Opcode::Srai { rd, rs1, shamt } => {
                proof {
                    lemma_encode_shift(0x20, 5, rd, rs1, shamt);
                }
                (0x20 << 25) | (shamt << 20) | ((rs1 as u32) << 15) | (5 << 12) | ((
                rd as u32) << 7) | 0x13
            },
            Opcode::Add { rd, rs1, rs2 } => {
                proof {
                    lemma_encode_r(0, 0, rd, rs1, rs2);
                }
                (0 << 25) | ((rs2 as u32) << 20) | ((rs1 as u32) << 15) | (0 << 12) | ((
                rd as u32) << 7) | 0x33
            },
            Opcode::Sub { rd, rs1, rs2 } => {
                proof {
                    lemma_encode_r(0x20, 0, rd, rs1, rs2);
                }
                (0x20 << 25) | ((rs2 as u32) << 20) | ((rs1 as u32) << 15) | (0 << 12) | ((
                rd as u32) << 7) | 0x33
            },
            Opcode::Sll { rd, rs1, rs2 } => {
                proof {
                    lemma_encode_r(0, 1, rd, rs1, rs2);
                }
                (0 << 25) | ((rs2 as u32) << 20) | ((rs1 as u32) << 15) | (1 << 12) | ((
                rd as u32) << 7) | 0x33
            },
            Opcode::Slt { rd, rs1, rs2 } => {
                proof {
                    lemma_encode_r(0, 2, rd, rs1, rs2);
                }
                (0 << 25) | ((rs2 as u32) << 20) | ((rs1 as u32) << 15) | (2 << 12) | ((
                rd as u32) << 7) | 0x33
            },
            Opcode::Sltu { rd, rs1, rs2 } => {
                proof {
                    lemma_encode_r(0, 3, rd, rs1, rs2);
                }
                (0 << 25) | ((rs2 as u32) << 20) | ((rs1 as u32) << 15) | (3 << 12) | ((
                rd as u32) << 7) | 0x33
            },
            Opcode::Xor { rd, rs1, rs2 } => {
                proof {
                    lemma_encode_r(0, 4, rd, rs1, rs2);
                }
                (0 << 25) | ((rs2 as u32) << 20) | ((rs1 as u32) << 15) | (4 << 12) | ((
                rd as u32) << 7) | 0x33
            },
            Opcode::Srl { rd, rs1, rs2 } => {
                proof {
                    lemma_encode_r(0, 5, rd, rs1, rs2);
                }
                (0 << 25) | ((rs2 as u32) << 20) | ((rs1 as u32) << 15) | (5 << 12) | ((
                rd as u32) << 7) | 0x33
            },
            Opcode::Sra { rd, rs1, rs2 } => {
                proof {
                    lemma_encode_r(0x20, 5, rd, rs1, rs2);
                }
                (0x20 << 25) | ((rs2 as u32) << 20) | ((rs1 as u32) << 15) | (5 << 12) | ((
                rd as u32) << 7) | 0x33
            },
            Opcode::Or { rd, rs1, rs2 } => {
                proof {
                    lemma_encode_r(0, 6, rd, rs1, rs2);
                }
                (0 << 25) | ((rs2 as u32) << 20) | ((rs1 as u32) << 15) | (6 << 12) | ((
                rd as u32) << 7) | 0x33
            },
            Opcode::And { rd, rs1, rs2 } => {
                proof {
                    lemma_encode_r(0, 7, rd, rs1, rs2);
                }
                (0 << 25) | ((rs2 as u32) << 20) | ((rs1 as u32) << 15) | (7 << 12) | ((
                rd as u32) << 7) | 0x33
            },
            Opcode::Fence => {
                proof {
                    assert(opcode_bits(0x0F) == 0x0F) by (bit_vector);
                }
                0x0F
            },
            Opcode::Jalr { rd, rs1, offset } => {
                proof {
                    lemma_encode_i(0x67, 0, rd, rs1, offset);
                }
                ((offset & 0xFFF) << 20) | ((rs1 as u32) << 15) | (0 << 12) | ((rd as u32) << 7)
                    | 0x67
            },
        }
    }
}

/// Field recovery from a U-type word: placing the page-aligned immediate,
/// rd and the opcode in their positions lets each be read back.
proof fn lemma_encode_u(opc: u32, rd: usize, imm: u32)
    by (bit_vector)
    requires
        opc < 128,
        rd < 32,
        imm % 0x1000 == 0,
    ensures
        ({
            let w = imm | ((rd as u32) << 7) | opc;
            opcode_bits(w) == opc && rd_bits(w) == rd && imm_u_bits(w) == imm
        }),
{
}

/// Field recovery from an I-type word built from a well-formed sign-extended
/// immediate.
proof fn lemma_encode_i(opc: u32, f3: u32, rd: usize, rs1: usize, imm: u32)
    by (bit_vector)
    requires
        opc < 128,
        f3 < 8,
        rd < 32,
        rs1 < 32,
        imm < 0x800 || imm >= 0xFFFF_F800,
    ensures
        ({
            let w = ((imm & 0xFFF) << 20) | ((rs1 as u32) << 15) | (f3 << 12) | ((rd as u32) << 7)
                | opc;
            opcode_bits(w) == opc && funct3_bits(w) == f3 && rd_bits(w) == rd && rs1_bits(w) == rs1
                && imm_i_bits(w) == imm
        }),
{
}

/// Field recovery from an immediate-shift word.
proof fn lemma_encode_shift(f7: u32, f3: u32, rd: usize, rs1: usize, shamt: u32)
    by (bit_vector)
    requires
        f7 < 128,
        f3 < 8,
        rd < 32,
        rs1 < 32,
        shamt < 32,
    ensures
        ({
            let w = (f7 << 25) | (shamt << 20) | ((rs1 as u32) << 15) | (f3 << 12) | ((
            rd as u32) << 7) | 0x13;
            opcode_bits(w) == 0x13 && funct3_bits(w) == f3 && funct7_bits(w) == f7 && rd_bits(w)
                == rd && rs1_bits(w) == rs1 && shamt_bits(w) == shamt
        }),
{
}

/// Field recovery from an R-type word.
proof fn lemma_encode_r(f7: u32, f3: u32, rd: usize, rs1: usize, rs2: usize)
    by (bit_vector)
    requires
        f7 < 128,
        f3 < 8,
        rd < 32,
        rs1 < 32,
        rs2 < 32,
    ensures
        ({
            let w = (f7 << 25) | ((rs2 as u32) << 20) | ((rs1 as u32) << 15) | (f3 << 12) | ((
            rd as u32) << 7) | 0x33;
            opcode_bits(w) == 0x33 && funct3_bits(w) == f3 && funct7_bits(w) == f7 && rd_bits(w)
                == rd && rs1_bits(w) == rs1 && rs2_bits(w) == rs2
        }),
{
}

/// The dispatch table: what a 32-bit word decodes to, keyed on
/// (opcode, funct3, funct7) as far as each family needs, or nothing when no
/// rule matches.
pub open spec fn decode_spec(w: u32) -> Option<Opcode> {
    let opcode = opcode_bits(w);
    let f3 = funct3_bits(w);
    let f7 = funct7_bits(w);
    let rd = rd_bits(w);
    let rs1 = rs1_bits(w);
    let rs2 = rs2_bits(w);
    if opcode == 0x37 {
        Some(Opcode::Lui { imm: imm_u_bits(w), rd })
    } else if opcode == 0x17 {
        Some(Opcode::Auipc { imm: imm_u_bits(w), rd })
    } else if opcode == 0x13 {
        if f3 == 0 {
            Some(Opcode::Addi { rd, rs1, imm: imm_i_bits(w) })
        } else if f3 == 2 {
            Some(Opcode::Slti { rd, rs1, imm: imm_i_bits(w) })
        } else if f3 == 3 {
            Some(Opcode::Sltiu { rd, rs1, imm: imm_i_bits(w) })
        } else if f3 == 4 {
            Some(Opcode::Xori { rd, rs1, imm: imm_i_bits(w) })
        } else if f3 == 6 {
            Some(Opcode::Ori { rd, rs1, imm: imm_i_bits(w) })
        } else if f3 == 7 {
            Some(Opcode::Andi { rd, rs1, imm: imm_i_bits(w) })
        } else if f3 == 1 {
            Some(Opcode::Slli { rd, rs1, shamt: shamt_bits(w) })
        } else if f7 == 0 {
            Some(Opcode::Srli { rd, rs1, shamt: shamt_bits(w) })
        } else if f7 == 0x20 {
            Some(Opcode::Srai { rd, rs1, shamt: shamt_bits(w) })
        } else {
            None
        }
    } else if opcode == 0x33 {
        if f7 == 0 && f3 == 0 {
            Some(Opcode::Add { rd, rs1, rs2 })
        } else if f7 == 0x20 && f3 == 0 {
            Some(Opcode::Sub { rd, rs1, rs2 })
        } else if f7 == 0 && f3 == 1 {
            Some(Opcode::Sll { rd, rs1, rs2 })
        } else if f7 == 0 && f3 == 2 {
            Some(Opcode::Slt { rd, rs1, rs2 })
        } else if f7 == 0 && f3 == 3 {
            Some(Opcode::Sltu { rd, rs1, rs2 })
        } else if f7 == 0 && f3 == 4 {
            Some(Opcode::Xor { rd, rs1, rs2 })
        } else if f7 == 0 && f3 == 5 {
            Some(Opcode::Srl { rd, rs1, rs2 })
        } else if f7 == 0x20 && f3 == 5 {
            Some(Opcode::Sra { rd, rs1, rs2 })
        } else if f7 == 0 && f3 == 6 {
            Some(Opcode::Or { rd, rs1, rs2 })
        } else if f7 == 0 && f3 == 7 {
            Some(Opcode::And { rd, rs1, rs2 })
        } else {
            None
        }
    } else if opcode == 0x67 {
        Some(Opcode::Jalr { rd, rs1, offset: imm_i_bits(w) })
    } else if opcode == 0x0F {
        Some(Opcode::Fence)
    } else {
        None
    }
}

/// Bounds of every extracted field: masking keeps register indices and shift
/// amounts below 32, immediates sign-extended or page-aligned.
proof fn lemma_field_bounds(w: u32)
    by (bit_vector)
    ensures
        opcode_bits(w) < 128,
        rd_bits(w) < 32,
        funct3_bits(w) < 8,
        rs1_bits(w) < 32,
        rs2_bits(w) < 32,
        funct7_bits(w) < 128,
        shamt_bits(w) < 32,
        imm_i_bits(w) < 0x800 || imm_i_bits(w) >= 0xFFFF_F800,
        imm_u_bits(w) % 0x1000 == 0,
{
}

/// Whatever the decoder produces is well-formed.
pub proof fn lemma_decode_wf(w: u32)
    ensures
        decode_spec(w) matches Some(op) ==> op.wf(),
{
    lemma_field_bounds(w);
}

/// The register file together with the program counter.
pub struct Cpu {
    reg: Register,
    pc: u32,
}

impl Cpu {
    /// The register values, as a sequence of 32 words.
    pub closed spec fn regs(&self) -> Seq<u32> {
        self.reg@
    }

    /// The current program counter.
    pub closed spec fn pc_spec(&self) -> u32 {
        self.pc
    }

    /// Well-formedness of the register file.
    pub open spec fn wf(&self) -> bool {
        self.regs().len() == 32 && self.regs()[0] == 0
    }

    /// A core with all registers zero and the program counter at the base
    /// of the example map's executable region.
    pub fn new() -> (c: Cpu)
        ensures
            c.wf(),
            c.pc_spec() == ROM_BASE,
            forall|i: int| 0 <= i < 32 ==> c.regs()[i] == 0u32,
    {
        Cpu { reg: Register::new(), pc: ROM_BASE }
    }

    /// A core with all registers zero and the program counter at a
    /// configurable address.
    pub fn with_pc(pc: u32) -> (c: Cpu)
        ensures
            c.wf(),
            c.pc_spec() == pc,
            forall|i: int| 0 <= i < 32 ==> c.regs()[i] == 0u32,
    {
        Cpu { reg: Register::new(), pc }
    }

    /// Read access to the register file.
    pub fn registers(&self) -> (r: &Register)
        ensures
            r@ == self.regs(),
    {
        &self.reg
    }

    /// The current program counter.
    pub fn pc(&self) -> (p: u32)
        ensures
            p == self.pc_spec(),
    {
        self.pc
    }

    /// Translates a raw word to a typed operation, or fails with a
    /// `DecodeFault` when no dispatch rule matches.
    pub fn decode(word: u32) -> (r: Result<Opcode, Fault>)
        ensures
            decode_spec(word) matches Some(op) ==> r == Ok::<Opcode, Fault>(op) && op.wf(),
            decode_spec(word) is None ==> r == Err::<Opcode, Fault>(
                Fault::DecodeFault { word },
            ),
    {
        proof {
            lemma_decode_wf(word);
        }
        let opcode = word & 0x7F;
        let f3 = (word >> 12) & 0x7;
        let f7 = (word >> 25) & 0x7F;
        let rd = ((word >> 7) & 0x1F) as usize;
        let rs1 = ((word >> 15) & 0x1F) as usize;
        let rs2 = ((word >> 20) & 0x1F) as usize;
        let hi = word >> 20;
        let imm_i = if hi >= 0x800 {
            hi | 0xFFFF_F000
        } else {
            hi
        };
        let imm_u = word & 0xFFFF_F000;
        let shamt = (word >> 20) & 0x1F;
        if opcode == 0x37 {
            Ok(Opcode::Lui { imm: imm_u, rd })
        } else if opcode == 0x17 {
            Ok(Opcode::Auipc { imm: imm_u, rd })
        } else if opcode == 0x13 {
            if f3 == 0 {
                Ok(Opcode::Addi { rd, rs1, imm: imm_i })
            } else if f3 == 2 {
                Ok(Opcode::Slti { rd, rs1, imm: imm_i })
            } else if f3 == 3 {
                Ok(Opcode::Sltiu { rd, rs1, imm: imm_i })
            } else if f3 == 4 {
                Ok(Opcode::Xori { rd, rs1, imm: imm_i })
            } else if f3 == 6 {
                Ok(Opcode::Ori { rd, rs1, imm: imm_i })
            } else if f3 == 7 {
                Ok(Opcode::Andi { rd, rs1, imm: imm_i })
            } else if f3 == 1 {
                Ok(Opcode::Slli { rd, rs1, shamt })
            } else if f7 == 0 {
                Ok(Opcode::Srli { rd, rs1, shamt })
            } else if f7 == 0x20 {
                Ok(Opcode::Srai { rd, rs1, shamt })
            } else {
                Err(Fault::DecodeFault { word })
            }
        } else if opcode == 0x33 {
            if f7 == 0 && f3 == 0 {
                Ok(Opcode::Add { rd, rs1, rs2 })
            } else if f7 == 0x20 && f3 == 0 {
                Ok(Opcode::Sub { rd, rs1, rs2 })
            } else if f7 == 0 && f3 == 1 {
                Ok(Opcode::Sll { rd, rs1, rs2 })
            } else if f7 == 0 && f3 == 2 {
                Ok(Opcode::Slt { rd, rs1, rs2 })
            } else if f7 == 0 && f3 == 3 {
                Ok(Opcode::Sltu { rd, rs1, rs2 })
            } else if f7 == 0 && f3 == 4 {
                Ok(Opcode::Xor { rd, rs1, rs2 })
            } else if f7 == 0 && f3 == 5 {
                Ok(Opcode::Srl { rd, rs1, rs2 })
            } else if f7 == 0x20 && f3 == 5 {
                Ok(Opcode::Sra { rd, rs1, rs2 })
            } else if f7 == 0 && f3 == 6 {
                Ok(Opcode::Or { rd, rs1, rs2 })
            } else if f7 == 0 && f3 == 7 {
                Ok(Opcode::And { rd, rs1, rs2 })
            } else {
                Err(Fault::DecodeFault { word })
            }
        } else if opcode == 0x67 {
            Ok(Opcode::Jalr { rd, rs1, offset: imm_i })
        } else if opcode == 0x0F {
            Ok(Opcode::Fence)
        } else {
            Err(Fault::DecodeFault { word })
        }
    }
}

/// One operation's semantics: the register file and the program counter
/// after executing `op` fetched at address `pc`. The program counter becomes
/// `pc + 4` (wraparound) unless the operation is a jump; JALR's link value
/// is the address of the following instruction, its target the sum of the
/// base register and the offset with bit 0 cleared.
pub open spec fn exec_spec(regs: Seq<u32>, pc: u32, op: Opcode) -> (Seq<u32>, u32)
    recommends
        regs.len() == 32,
        op.regs_in_range(),
{
    let next = wadd(pc, 4);
    match op {
        Opcode::Lui { imm, rd } => (write_reg(regs, rd as int, imm), next),
        Opcode::Auipc { imm, rd } => (write_reg(regs, rd as int, wadd(pc, imm)), next),
        Opcode::Addi { rd, rs1, imm } => (
            write_reg(regs, rd as int, wadd(regs[rs1 as int], imm)),
            next,
        ),
        Opcode::Slti { rd, rs1, imm } => (
            write_reg(
                regs,
                rd as int,
                if s_lt(regs[rs1 as int], imm) {
                    1u32
                } else {
                    0u32
                },
            ),
            next,
        ),
        Opcode::Sltiu { rd, rs1, imm } => (
            write_reg(
                regs,
                rd as int,
                if regs[rs1 as int] < imm {
                    1u32
                } else {
                    0u32
                },
            ),
            next,
        ),
        Opcode::Xori { rd, rs1, imm } => (
            write_reg(regs, rd as int, regs[rs1 as int] ^ imm),
            next,
        ),
        Opcode::Ori { rd, rs1, imm } => (
            write_reg(regs, rd as int, regs[rs1 as int] | imm),
            next,
        ),
        Opcode::Andi { rd, rs1, imm } => (
            write_reg(regs, rd as int, regs[rs1 as int] & imm),
            next,
        ),
        Opcode::Slli { rd, rs1, shamt } => (
            write_reg(regs, rd as int, regs[rs1 as int] << shamt),
            next,
        ),
        Opcode::Srli { rd, rs1, shamt } => (
            write_reg(regs, rd as int, regs[rs1 as int] >> shamt),
            next,
        ),
        Opcode::Srai { rd, rs1, shamt } => (
            write_reg(regs, rd as int, sra32(regs[rs1 as int], shamt)),
            next,
        ),
        Opcode::Add { rd, rs1, rs2 } => (
            write_reg(regs, rd as int, wadd(regs[rs1 as int], regs[rs2 as int])),
            next,
        ),
        Opcode::Sub { rd, rs1, rs2 } => (
            write_reg(regs, rd as int, wsub(regs[rs1 as int], regs[rs2 as int])),
            next,
        ),
        Opcode::Sll { rd, rs1, rs2 } => (
            write_reg(regs, rd as int, regs[rs1 as int] << (regs[rs2 as int] & 0x1F)),
            next,
        ),
        Opcode::Slt { rd, rs1, rs2 } => (
            write_reg(
                regs,
                rd as int,
                if s_lt(regs[rs1 as int], regs[rs2 as int]) {
                    1u32
                } else {
                    0u32
                },
            ),
            next,
        ),
        Opcode::Sltu { rd, rs1, rs2 } => (
            write_reg(
                regs,
                rd as int,
                if regs[rs1 as int] < regs[rs2 as int] {
                    1u32
                } else {
                    0u32
                },
            ),
            next,
        ),
        Opcode::Xor { rd, rs1, rs2 } => (
            write_reg(regs, rd as int, regs[rs1 as int] ^ regs[rs2 as int]),
            next,
        ),
        Opcode::Srl { rd, rs1, rs2 } => (
            write_reg(regs, rd as int, regs[rs1 as int] >> (regs[rs2 as int] & 0x1F)),
            next,
        ),
        Opcode::Sra { rd, rs1, rs2 } => (
            write_reg(regs, rd as int, sra32(regs[rs1 as int], regs[rs2 as int] & 0x1F)),
            next,
        ),
        Opcode::Or { rd, rs1, rs2 } => (
            write_reg(regs, rd as int, regs[rs1 as int] | regs[rs2 as int]),
            next,
        ),
        Opcode::And { rd, rs1, rs2 } => (
            write_reg(regs, rd as int, regs[rs1 as int] & regs[rs2 as int]),
            next,
        ),
        Opcode::Fence => (regs, next),
        Opcode::Jalr { rd, rs1, offset } => {
            let target = wadd(regs[rs1 as int], offset) & 0xFFFF_FFFE;
            (write_reg(regs, rd as int, next), target)
        },
    }
}

/// One whole step as a function of the machine state: the fetched word's
/// decoded operation applied to the register file and program counter, or
/// the first fault — from the fetch or from the decoder — with the state
/// unchanged.
pub open spec fn cpu_step_spec(bus: Bus, regs: Seq<u32>, pc: u32) -> Result<
    (Seq<u32>, u32),
    Fault,
> {
    match bus.read_spec(pc, 4) {
        Ok(w) => match decode_spec(w) {
            Some(op) => Ok(exec_spec(regs, pc, op)),
            None => Err(Fault::DecodeFault { word: w }),
        },
        Err(f) => Err(f),
    }
}

/// Masking to 5 bits keeps a shift amount in range.
proof fn lemma_mask5(x: u32)
    by (bit_vector)
    ensures
        x & 0x1F < 32,
{
}

impl Cpu {
    /// Applies one operation's semantics. `self.pc_spec()` before the call
    /// is the operation's fetch address; afterwards it is the next fetch
    /// address.
    pub fn exec(&mut self, opcode: Opcode)
        requires
            old(self).wf(),
            opcode.regs_in_range(),
        ensures
            final(self).wf(),
            final(self).regs() == exec_spec(old(self).regs(), old(self).pc_spec(), opcode).0,
            final(self).pc_spec() == exec_spec(old(self).regs(), old(self).pc_spec(), opcode).1,
    {
        let next = self.pc.wrapping_add(4);
        match opcode {
            Opcode::Lui { imm, rd } => {
                self.reg.write(rd, imm);
                self.pc = next;
            },
            Opcode::Auipc { imm, rd } => {
                let v = self.pc.wrapping_add(imm);
                self.reg.write(rd, v);
                self.pc = next;
            },
            Opcode::Addi { rd, rs1, imm } => {
                let v = self.reg.read(rs1).wrapping_add(imm);
                self.reg.write(rd, v);
                self.pc = next;
            },
            Opcode::Slti { rd, rs1, imm } => {
                let v: u32 = if signed_lt(self.reg.read(rs1), imm) {
                    1
                } else {
                    0
                };
                self.reg.write(rd, v);
                self.pc = next;
            },
            Opcode::Sltiu { rd, rs1, imm } => {
                let v: u32 = if self.reg.read(rs1) < imm {
                    1
                } else {
                    0
                };
                self.reg.write(rd, v);
                self.pc = next;
            },
            Opcode::Xori { rd, rs1, imm } => {
                let v = self.reg.read(rs1) ^ imm;
                self.reg.write(rd, v);
                self.pc = next;
            },
            Opcode::Ori { rd, rs1, imm } => {
                let v = self.reg.read(rs1) | imm;
                self.reg.write(rd, v);
                self.pc = next;
            },
            Opcode::Andi { rd, rs1, imm } => {
                let v = self.reg.read(rs1) & imm;
                self.reg.write(rd, v);
                self.pc = next;
            },
            Opcode::Slli { rd, rs1, shamt } => {
                let v = self.reg.read(rs1) << shamt;
                self.reg.write(rd, v);
                self.pc = next;
            },
            Opcode::Srli { rd, rs1, shamt } => {
                let v = self.reg.read(rs1) >> shamt;
                self.reg.write(rd, v);
                self.pc = next;
            },
            Opcode::Srai { rd, rs1, shamt } => {
                let v = shift_right_arithmetic(self.reg.read(rs1), shamt);
                self.reg.write(rd, v);
                self.pc = next;
            },
            Opcode::Add { rd, rs1, rs2 } => {
                let v = self.reg.read(rs1).wrapping_add(self.reg.read(rs2));
                self.reg.write(rd, v);
                self.pc = next;
            },
            Opcode::Sub { rd, rs1, rs2 } => {
                let v = self.reg.read(rs1).wrapping_sub(self.reg.read(rs2));
                self.reg.write(rd, v);
                self.pc = next;
            },
            Opcode::Sll { rd, rs1, rs2 } => {
                let sh = self.reg.read(rs2) & 0x1F;
                proof {
                    lemma_mask5(old(self).regs()[rs2 as int]);
                }
                let v = self.reg.read(rs1) << sh;
                self.reg.write(rd, v);
                self.pc = next;
            },
            Opcode::Slt { rd, rs1, rs2 } => {
                let v: u32 = if signed_lt(self.reg.read(rs1), self.reg.read(rs2)) {
                    1
                } else {
                    0
                };
                self.reg.write(rd, v);
                self.pc = next;
            },
            Opcode::Sltu { rd, rs1, rs2 } => {
                let v: u32 = if self.reg.read(rs1) < self.reg.read(rs2) {
                    1
                } else {
                    0
                };
                self.reg.write(rd, v);
                self.pc = next;
            },
            Opcode::Xor { rd, rs1, rs2 } => {
                let v = self.reg.read(rs1) ^ self.reg.read(rs2);
                self.reg.write(rd, v);
                self.pc = next;
            },
            Opcode::Srl { rd, rs1, rs2 } => {
                let sh = self.reg.read(rs2) & 0x1F;
                proof {
                    lemma_mask5(old(self).regs()[rs2 as int]);
                }
                let v = self.reg.read(rs1) >> sh;
                self.reg.write(rd, v);
                self.pc = next;
            },
            Opcode::Sra { rd, rs1, rs2 } => {
                let sh = self.reg.read(rs2) & 0x1F;
                proof {
                    lemma_mask5(old(self).regs()[rs2 as int]);
                }
                let v = shift_right_arithmetic(self.reg.read(rs1), sh);
                self.reg.write(rd, v);
                self.pc = next;
            },
            Opcode::Or { rd, rs1, rs2 } => {
                let v = self.reg.read(rs1) | self.reg.read(rs2);
                self.reg.write(rd, v);
                self.pc = next;
            },
            Opcode::And { rd, rs1, rs2 } => {
                let v = self.reg.read(rs1) & self.reg.read(rs2);
                self.reg.write(rd, v);
                self.pc = next;
            },
            Opcode::Fence => {
                self.pc = next;
            },
            Opcode::Jalr { rd, rs1, offset } => {
                let target = self.reg.read(rs1).wrapping_add(offset) & 0xFFFF_FFFE;
                self.reg.write(rd, next);
                self.pc = target;
            },
        }
    }

    /// One step of the machine: fetch the word at the program counter from
    /// the bus, decode it, and apply its semantics. On any fault the core is
    /// left unchanged and the fault is fatal to the machine.
    pub fn step(&mut self, bus: &Bus) -> (r: Result<(), Fault>)
        requires
            old(self).wf(),
            bus.wf(),
        ensures
            final(self).wf(),
            ({
                match cpu_step_spec(*bus, old(self).regs(), old(self).pc_spec()) {
                    Ok(rp) => r == Ok::<(), Fault>(()) && final(self).regs() == rp.0
                        && final(self).pc_spec() == rp.1,
                    Err(f) => r == Err::<(), Fault>(f) && *final(self) == *old(self),
                }
            }),
    {
        let word = match bus.read(self.pc, MemorySize::Word) {
            Ok(w) => w,
            Err(f) => {
                return Err(f);
            },
        };
        let op = match Cpu::decode(word) {
            Ok(op) => op,
            Err(f) => {
                return Err(f);
            },
        };
        self.exec(op);
        Ok(())
    }
}

} // verus!
