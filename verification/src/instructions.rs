//! Instruction words, their decoded form, and the field and immediate
//! extractors for the U/J/I/B/S encoding formats of RV32I and Zicsr.

use vstd::prelude::*;

verus! {

/// The recognized operations: RV32I control transfer, loads, stores, and the
/// Zicsr register instructions.
#[derive(Debug, Clone, Copy, PartialEq, Eq, Structural)]
pub enum OpCode {
    /// Load upper immediate: place the U-immediate in rd.
    Lui,
    /// Add upper immediate to pc: rd receives pc plus the U-immediate.
    Auipc,
    /// Jump and link: rd receives pc + 4, pc receives pc + J-immediate.
    Jal,
    /// Jump and link register: rd receives pc + 4, pc receives
    /// (rs1 + I-immediate) with the lowest bit cleared.
    Jalr,
    /// Branch if rs1 == rs2.
    Beq,
    /// Branch if rs1 != rs2.
    Bne,
    /// Branch if rs1 < rs2, signed.
    Blt,
    /// Branch if rs1 < rs2, unsigned.
    Bltu,
    /// Branch if rs1 >= rs2, signed.
    Bge,
    /// Branch if rs1 >= rs2, unsigned.
    Bgeu,
    /// Load byte, sign-extended.
    Lb,
    /// Load halfword, sign-extended.
    Lh,
    /// Load word.
    Lw,
    /// Load byte, zero-extended.
    Lbu,
    /// Load halfword, zero-extended.
    Lhu,
    /// Store byte.
    Sb,
    /// Store halfword.
    Sh,
    /// Store word.
    Sw,
    /// Atomic CSR read and write.
    Csrrw,
    /// Atomic CSR read and set bits.
    Csrrs,
    /// Atomic CSR read and clear bits.
    Csrrc,
    /// CSR read and write, immediate form.
    Csrrwi,
    /// CSR read and set bits, immediate form.
    Csrrsi,
    /// CSR read and clear bits, immediate form.
    Csrrci,
}

/// The encoding format of an instruction, named as in the RV32I manual.
#[derive(Debug, Clone, Copy, PartialEq, Eq, Structural)]
pub enum Format {
    U,
    J,
    I,
    B,
    S,
}

/// Index of a general-purpose register or of a CSR.
pub type RegisterIdx = usize;

/// The format each operation is encoded in.
pub open spec fn spec_format(op: OpCode) -> Format {
    match op {
        OpCode::Lui | OpCode::Auipc => Format::U,
        OpCode::Jal => Format::J,
        OpCode::Jalr => Format::I,
        OpCode::Beq | OpCode::Bne | OpCode::Blt | OpCode::Bltu | OpCode::Bge | OpCode::Bgeu
            => Format::B,
        OpCode::Lb | OpCode::Lh | OpCode::Lw | OpCode::Lbu | OpCode::Lhu => Format::I,
        OpCode::Sb | OpCode::Sh | OpCode::Sw => Format::S,
        OpCode::Csrrw | OpCode::Csrrs | OpCode::Csrrc | OpCode::Csrrwi | OpCode::Csrrsi
            | OpCode::Csrrci => Format::I,
    }
}

/// Whether an operation is one of the Zicsr register instructions.
pub open spec fn is_csr_op(op: OpCode) -> bool {
    match op {
        OpCode::Csrrw | OpCode::Csrrs | OpCode::Csrrc | OpCode::Csrrwi | OpCode::Csrrsi
            | OpCode::Csrrci => true,
        _ => false,
    }
}

/// The destination register field: bits 7 to 11.
pub open spec fn rd_of(w: u32) -> u32 {
    (w >> 7) & 0x1f
}

/// The first source register field: bits 15 to 19.
pub open spec fn rs1_of(w: u32) -> u32 {
    (w >> 15) & 0x1f
}

/// The second source register field: bits 20 to 24.
pub open spec fn rs2_of(w: u32) -> u32 {
    (w >> 20) & 0x1f
}

/// The CSR address field: bits 20 to 31.
pub open spec fn csr_of(w: u32) -> u32 {
    w >> 20
}

/// The U-type immediate: the top 20 bits in place, low 12 bits zero.
pub open spec fn imm_u_of(w: u32) -> u32 {
    w & 0xffff_f000
}

/// The I-type immediate, sign-extended from bit 11 to a 32-bit pattern.
pub open spec fn imm_i_of(w: u32) -> u32 {
    let i = w >> 20;
    if i & 0x800 != 0 {
        i | 0xffff_f000
    } else {
        i
    }
}

/// The S-type immediate, sign-extended from bit 11 to a 32-bit pattern.
pub open spec fn imm_s_of(w: u32) -> u32 {
    let i = ((w >> 25) << 5) | ((w >> 7) & 0x1f);
    if i & 0x800 != 0 {
        i | 0xffff_f000
    } else {
        i
    }
}

/// The B-type immediate, sign-extended from bit 12; its lowest bit is zero.
pub open spec fn imm_b_of(w: u32) -> u32 {
    let i = ((w & 0x80000000) >> 19) | ((w & 0x7e000000) >> 20) | ((w & 0x00000f00) >> 7) | ((w
        & 0x00000080) << 4);
    if i & 0x1000 != 0 {
        i | 0xffff_e000
    } else {
        i
    }
}

/// The J-type immediate, sign-extended from bit 20; its lowest bit is zero.
pub open spec fn imm_j_of(w: u32) -> u32 {
    let i = ((w & 0x80000000) >> 11) | ((w & 0x7fe00000) >> 20) | ((w & 0x00100000) >> 9) | (w
        & 0x000ff000);
    if i & 0x0010_0000 != 0 {
        i | 0xffe0_0000
    } else {
        i
    }
}

/// The sign-extended immediate pattern an instruction of format `f` carries.
pub open spec fn spec_imm_signed(w: u32, f: Format) -> u32 {
    match f {
        Format::J => imm_j_of(w),
        Format::I => imm_i_of(w),
        Format::B => imm_b_of(w),
        Format::S => imm_s_of(w),
        Format::U => 0,
    }
}

/// The operation a 32-bit word encodes, if any: dispatch on the low 7 bits,
/// then on funct3 where one opcode covers several operations.
pub open spec fn spec_decode(w: u32) -> Option<OpCode> {
    let opcode = w & 0x7f;
    let funct3 = (w >> 12) & 0x07;
    if opcode == 0b0110111 {
        Some(OpCode::Lui)
    } else if opcode == 0b0010111 {
        Some(OpCode::Auipc)
    } else if opcode == 0b1101111 {
        Some(OpCode::Jal)
    } else if opcode == 0b1100111 {
        Some(OpCode::Jalr)
    } else if opcode == 0b1100011 {
        if funct3 == 0b000 {
            Some(OpCode::Beq)
        } else if funct3 == 0b001 {
            Some(OpCode::Bne)
        } else if funct3 == 0b100 {
            Some(OpCode::Blt)
        } else if funct3 == 0b101 {
            Some(OpCode::Bge)
        } else if funct3 == 0b110 {
            Some(OpCode::Bltu)
        } else if funct3 == 0b111 {
            Some(OpCode::Bgeu)
        } else {
            None
        }
    } else if opcode == 0b0000011 {
        if funct3 == 0b000 {
            Some(OpCode::Lb)
        } else if funct3 == 0b001 {
            Some(OpCode::Lh)
        } else if funct3 == 0b010 {
            Some(OpCode::Lw)
        } else if funct3 == 0b100 {
            Some(OpCode::Lbu)
        } else if funct3 == 0b101 {
            Some(OpCode::Lhu)
        } else {
            None
        }
    } else if opcode == 0b0100011 {
        if funct3 == 0b000 {
            Some(OpCode::Sb)
        } else if funct3 == 0b001 {
            Some(OpCode::Sh)
        } else if funct3 == 0b010 {
            Some(OpCode::Sw)
        } else {
            None
        }
    } else if opcode == 0b1110011 {
        if funct3 == 0b001 {
            Some(OpCode::Csrrw)
        } else if funct3 == 0b010 {
            Some(OpCode::Csrrs)
        } else if funct3 == 0b011 {
            Some(OpCode::Csrrc)
        } else if funct3 == 0b101 {
            Some(OpCode::Csrrwi)
        } else if funct3 == 0b110 {
            Some(OpCode::Csrrsi)
        } else if funct3 == 0b111 {
            Some(OpCode::Csrrci)
        } else {
            None
        }
    } else {
        None
    }
}

/// A decoded instruction: the operation tag plus the raw word the register
/// and immediate fields are derived from.
#[derive(Debug, Clone, Copy, PartialEq, Eq, Structural)]
pub struct Instruction {
    pub op_code: OpCode,
    pub ir: u32,
}

impl Instruction {
    /// A well-formed instruction carries the operation its word decodes to.
    pub open spec fn wf(&self) -> bool {
        spec_decode(self.ir) == Some(self.op_code)
    }

    /// The encoding format of this instruction.
    pub fn format(&self) -> (r: Format)
        ensures
            r == spec_format(self.op_code),
    {
        match self.op_code {
            OpCode::Lui | OpCode::Auipc => Format::U,
            OpCode::Jal => Format::J,
            OpCode::Jalr => Format::I,
            OpCode::Beq | OpCode::Bne | OpCode::Blt | OpCode::Bltu | OpCode::Bge | OpCode::Bgeu
                => Format::B,
            OpCode::Lb | OpCode::Lh | OpCode::Lw | OpCode::Lbu | OpCode::Lhu => Format::I,
            OpCode::Sb | OpCode::Sh | OpCode::Sw => Format::S,
            OpCode::Csrrw | OpCode::Csrrs | OpCode::Csrrc | OpCode::Csrrwi | OpCode::Csrrsi
                | OpCode::Csrrci => Format::I,
        }
    }

    /// The unsigned U-type immediate, already shifted into the top 20 bits.
    pub fn imm(&self) -> (r: u32)
        requires
            spec_format(self.op_code) == Format::U,
        ensures
            r == imm_u_of(self.ir),
    {
        self.ir & 0xffff_f000
    }

    /// The sign-extended immediate of a J, I, B or S format instruction,
    /// as a signed 32-bit value.
    pub fn imm_signed(&self) -> (r: i32)
        requires
            spec_format(self.op_code) != Format::U,
        ensures
            r == spec_imm_signed(self.ir, spec_format(self.op_code)) as i32,
            r as u32 == spec_imm_signed(self.ir, spec_format(self.op_code)),
    {
        let w = self.ir;
        let imm: u32 = match self.format() {
            Format::J => {
                let i = ((w & 0x80000000) >> 11) | ((w & 0x7fe00000) >> 20) | ((w & 0x00100000)
                    >> 9) | (w & 0x000ff000);
                if i & 0x0010_0000 != 0 {
                    i | 0xffe0_0000
                } else {
                    i
                }
            },
            Format::I => {
                let i = w >> 20;
                if i & 0x800 != 0 {
                    i | 0xffff_f000
                } else {
                    i
                }
            },
            Format::B => {
                let i = ((w & 0x80000000) >> 19) | ((w & 0x7e000000) >> 20) | ((w & 0x00000f00)
                    >> 7) | ((w & 0x00000080) << 4);
                if i & 0x1000 != 0 {
                    i | 0xffff_e000
                } else {
                    i
                }
            },
            Format::S => {
                let i = ((w >> 25) << 5) | ((w >> 7) & 0x1f);
                if i & 0x800 != 0 {
                    i | 0xffff_f000
                } else {
                    i
                }
            },
            Format::U => 0,
        };
        proof {
            lemma_i32_cast_roundtrip(imm);
        }
        #[verifier::truncate] (imm as i32)
    }

    /// The destination register index.
    pub fn rd(&self) -> (r: RegisterIdx)
        ensures
            r == rd_of(self.ir) as usize,
            r < 32,
    {
        let r = (self.ir >> 7) & 0x1f;
        proof {
            lemma_five_bit_field(self.ir >> 7);
        }
        r as usize
    }

    /// The first source register index.
    pub fn rs1(&self) -> (r: RegisterIdx)
        ensures
            r == rs1_of(self.ir) as usize,
            r < 32,
    {
        let r = (self.ir >> 15) & 0x1f;
        proof {
            lemma_five_bit_field(self.ir >> 15);
        }
        r as usize
    }

    /// The second source register index.
    pub fn rs2(&self) -> (r: RegisterIdx)
        ensures
            r == rs2_of(self.ir) as usize,
            r < 32,
    {
        let r = (self.ir >> 20) & 0x1f;
        proof {
            lemma_five_bit_field(self.ir >> 20);
        }
        r as usize
    }

    /// The CSR address of a Zicsr instruction: a 12-bit value.
    pub fn csr(&self) -> (r: RegisterIdx)
        requires
            is_csr_op(self.op_code),
        ensures
            r == csr_of(self.ir) as usize,
            r < 4096,
    {
        let r = self.ir >> 20;
        proof {
            lemma_csr_field(self.ir);
        }
        r as usize
    }
}

/// A five-bit masked field is below 32.
proof fn lemma_five_bit_field(v: u32)
    ensures
        v & 0x1f < 32,
{
    assert(v & 0x1f < 32) by (bit_vector);
}

/// The CSR field, bits 20 to 31 of the word, is below 4096.
proof fn lemma_csr_field(w: u32)
    ensures
        w >> 20 < 4096,
{
    assert(w >> 20 < 4096) by (bit_vector);
}

/// Casting a 32-bit pattern to signed and back returns the pattern.
pub proof fn lemma_i32_cast_roundtrip(v: u32)
    ensures
        (v as i32) as u32 == v,
{
    assert((v as i32) as u32 == v) by (bit_vector);
}

/// Decoding failed: the word matches no recognized opcode.
#[derive(Debug, Clone, Copy, PartialEq, Eq, Structural)]
pub enum DecodeError {
    InvalidOpCode,
}

/// A stateless decoder from raw words to typed instructions.
#[derive(Debug)]
pub struct Decoder {}

impl Decoder {
    /// Build a decoder; it carries no state.
    pub fn new() -> (r: Self) {
        Decoder {  }
    }

    /// Decode a 32-bit word: `Ok` exactly on the words `spec_decode`
    /// recognizes, `Err(InvalidOpCode)` on every other word.
    pub fn try_decode(&self, instruction: u32) -> (r: Result<Instruction, DecodeError>)
        ensures
            match r {
                Ok(ins) => spec_decode(instruction) == Some(ins.op_code) && ins.ir
                    == instruction && ins.wf(),
                Err(e) => e == DecodeError::InvalidOpCode && spec_decode(instruction) is None,
            },
    {
        let op_code = match instruction & 0x7f {
            0b0110111 => OpCode::Lui,
            0b0010111 => OpCode::Auipc,
            0b1101111 => OpCode::Jal,
            0b1100111 => OpCode::Jalr,
            0b1100011 => match (instruction >> 12) & 0x07 {
                0b000 => OpCode::Beq,
                0b001 => OpCode::Bne,
                0b100 => OpCode::Blt,
                0b101 => OpCode::Bge,
                0b110 => OpCode::Bltu,
                0b111 => OpCode::Bgeu,
                _ => {
                    return Err(DecodeError::InvalidOpCode);
                },
            },
            0b0000011 => match (instruction >> 12) & 0x07 {
                0b000 => OpCode::Lb,
                0b001 => OpCode::Lh,
                0b010 => OpCode::Lw,
                0b100 => OpCode::Lbu,
                0b101 => OpCode::Lhu,
                _ => {
                    return Err(DecodeError::InvalidOpCode);
                },
            },
            0b0100011 => match (instruction >> 12) & 0x07 {
                0b000 => OpCode::Sb,
                0b001 => OpCode::Sh,
                0b010 => OpCode::Sw,
                _ => {
                    return Err(DecodeError::InvalidOpCode);
                },
            },
            0b1110011 => match (instruction >> 12) & 0x07 {
                0b001 => OpCode::Csrrw,
                0b010 => OpCode::Csrrs,
                0b011 => OpCode::Csrrc,
                0b101 => OpCode::Csrrwi,
                0b110 => OpCode::Csrrsi,
                0b111 => OpCode::Csrrci,
                _ => {
                    return Err(DecodeError::InvalidOpCode);
                },
            },
            _ => {
                return Err(DecodeError::InvalidOpCode);
            },
        };
        Ok(Instruction { op_code, ir: instruction })
    }
}

} // verus!
