//! The architectural laws, proved once over the semantics in `model`:
//! invariants every retired instruction preserves, the decode/encode round
//! trip, and the fault taxonomy of the fetch stage.

use vstd::prelude::*;

use crate::bus::BusReadException;
use crate::bus::spec_read32;
use crate::cpu::CpuError;
use crate::instructions::Format;
use crate::instructions::OpCode;
use crate::instructions::csr_of;
use crate::instructions::imm_b_of;
use crate::instructions::imm_i_of;
use crate::instructions::imm_j_of;
use crate::instructions::imm_s_of;
use crate::instructions::imm_u_of;
use crate::instructions::is_csr_op;
use crate::instructions::rd_of;
use crate::instructions::rs1_of;
use crate::instructions::rs2_of;
use crate::instructions::spec_decode;
use crate::instructions::spec_format;
use crate::model::MachineState;
use crate::model::spec_execute;
use crate::model::spec_step;
use crate::model::wf_state;

verus! {

/// The register and CSR fields of any word lie in their ranges.
proof fn lemma_field_bounds(w: u32)
    ensures
        rd_of(w) < 32,
        rs1_of(w) < 32,
        rs2_of(w) < 32,
        csr_of(w) < 4096,
{
    assert((w >> 7) & 0x1f < 32 && (w >> 15) & 0x1f < 32 && (w >> 20) & 0x1f < 32 && w >> 20
        < 4096) by (bit_vector);
}

/// Law: a cycle that retires leaves the machine well-formed. In particular
/// x0 still reads as zero after every instruction: writes to it are ignored.
pub proof fn lemma_step_preserves_wf(s: MachineState)
    requires
        wf_state(s),
    ensures
        match spec_step(s) {
            Ok(s2) => wf_state(s2),
            Err(_) => true,
        },
{
    match spec_read32(s.mem, s.pc) {
        Ok(w) => {
            lemma_field_bounds(w);
        },
        Err(_) => {},
    }
}

/// Both summands even makes the 32-bit wrapping sum even.
proof fn lemma_wrapping_add_even(a: u32, b: u32)
    requires
        a % 2 == 0,
        b % 2 == 0,
    ensures
        a.wrapping_add(b) % 2 == 0,
{
    assert(a.wrapping_add(b) % 2 == 0) by (bit_vector)
        requires
            a % 2 == 0,
            b % 2 == 0,
    ;
}

/// The B-type and J-type immediates encode multiples of two.
proof fn lemma_branch_immediates_even(w: u32)
    ensures
        imm_b_of(w) % 2 == 0,
        imm_j_of(w) % 2 == 0,
{
    assert(imm_b_of(w) % 2 == 0 && imm_j_of(w) % 2 == 0) by (bit_vector);
}

/// Clearing the lowest bit makes a value even.
proof fn lemma_clear_low_bit_even(v: u32)
    ensures
        (v & !1u32) % 2 == 0,
{
    assert((v & !1u32) % 2 == 0) by (bit_vector);
}

/// Law: after every cycle that retires, the program counter is even. The
/// fetch already required pc to be 4-aligned; every pc the instruction set
/// can produce is a multiple of two (JALR clears the lowest bit, branch and
/// jump immediates are multiples of two).
pub proof fn lemma_step_pc_aligned(s: MachineState)
    requires
        wf_state(s),
    ensures
        match spec_step(s) {
            Ok(s2) => s2.pc % 2 == 0,
            Err(_) => true,
        },
{
    match spec_read32(s.mem, s.pc) {
        Ok(w) => {
            let pc = s.pc;
            assert(pc % 4 == 0);
            assert(pc % 2 == 0) by (bit_vector)
                requires
                    pc % 4 == 0,
            ;
            lemma_wrapping_add_even(s.pc, 4);
            lemma_branch_immediates_even(w);
            lemma_wrapping_add_even(s.pc, imm_b_of(w));
            lemma_wrapping_add_even(s.pc, imm_j_of(w));
            lemma_clear_low_bit_even(s.x[rs1_of(w) as int].wrapping_add(imm_i_of(w)));
        },
        Err(_) => {},
    }
}

/// Law: writes to x0 are silently ignored — an instruction whose rd field
/// is zero leaves the whole register file unchanged, whichever operation it
/// encodes.
pub proof fn lemma_rd_zero_leaves_registers(s: MachineState, op: OpCode, w: u32)
    requires
        wf_state(s),
        spec_decode(w) == Some(op),
        rd_of(w) == 0,
    ensures
        match spec_execute(s, op, w) {
            Ok(s2) => s2.x == s.x,
            Err(_) => true,
        },
{
}

/// Law: fetching from a pc that is not 4-aligned faults with a misaligned
/// load, whatever else the state holds.
pub proof fn lemma_fetch_misaligned(s: MachineState)
    requires
        s.pc % 4 != 0,
    ensures
        spec_step(s) == Err::<MachineState, CpuError>(
            CpuError::Load(BusReadException::LoadAddressMisaligned),
        ),
{
}

/// Law: fetching an aligned pc at or past the bus extent faults with a load
/// access fault.
pub proof fn lemma_fetch_access_fault(s: MachineState)
    requires
        s.pc % 4 == 0,
        s.pc + 3 >= s.mem.len(),
    ensures
        spec_step(s) == Err::<MachineState, CpuError>(
            CpuError::Load(BusReadException::LoadAccessFault),
        ),
{
}

/// Law: LUI with rd != 0 puts the 20-bit immediate, shifted left by 12,
/// into rd, leaves every other register unchanged, and advances pc by 4.
pub proof fn lemma_lui_sets_rd(s: MachineState, w: u32)
    requires
        wf_state(s),
        spec_decode(w) == Some(OpCode::Lui),
        rd_of(w) != 0,
    ensures
        match spec_execute(s, OpCode::Lui, w) {
            Ok(s2) => {
                &&& s2.x[rd_of(w) as int] == (w >> 12) << 12
                &&& forall|j: int| 0 <= j < 32 && j != rd_of(w) ==> s2.x[j] == s.x[j]
                &&& s2.pc == s.pc.wrapping_add(4)
                &&& s2.csr == s.csr
                &&& s2.mem == s.mem
            },
            Err(_) => false,
        },
{
    lemma_field_bounds(w);
    assert(imm_u_of(w) == (w >> 12) << 12) by (bit_vector);
}

/// Law: CSRRW with rd != 0 swaps — rd receives the old CSR value and the
/// CSR receives the old rs1 value, also when rd == rs1: the CSR is read
/// before it is written.
pub proof fn lemma_csrrw_swaps(s: MachineState, w: u32)
    requires
        wf_state(s),
        spec_decode(w) == Some(OpCode::Csrrw),
        rd_of(w) != 0,
    ensures
        match spec_execute(s, OpCode::Csrrw, w) {
            Ok(s2) => {
                &&& s2.x[rd_of(w) as int] == s.csr[csr_of(w) as int]
                &&& s2.csr[csr_of(w) as int] == s.x[rs1_of(w) as int]
            },
            Err(_) => false,
        },
{
    lemma_field_bounds(w);
}

/// Law: the CSR set and clear instructions, register or immediate form,
/// leave the CSR file untouched when their rs1 field is zero.
pub proof fn lemma_csr_set_clear_keep_csr(s: MachineState, op: OpCode, w: u32)
    requires
        wf_state(s),
        spec_decode(w) == Some(op),
        op == OpCode::Csrrs || op == OpCode::Csrrc || op == OpCode::Csrrsi || op
            == OpCode::Csrrci,
        rs1_of(w) == 0,
    ensures
        match spec_execute(s, op, w) {
            Ok(s2) => s2.csr == s.csr,
            Err(_) => false,
        },
{
}

/// Law: a branch whose source fields name the same register is decided by
/// the comparison alone — BEQ is always taken, BNE never, whatever the
/// register holds.
pub proof fn lemma_branch_same_source(s: MachineState, w: u32)
    requires
        wf_state(s),
        rs1_of(w) == rs2_of(w),
    ensures
        spec_decode(w) == Some(OpCode::Beq) ==> match spec_execute(s, OpCode::Beq, w) {
            Ok(s2) => s2.pc == s.pc.wrapping_add(imm_b_of(w)),
            Err(_) => false,
        },
        spec_decode(w) == Some(OpCode::Bne) ==> match spec_execute(s, OpCode::Bne, w) {
            Ok(s2) => s2.pc == s.pc.wrapping_add(4),
            Err(_) => false,
        },
{
}

/// The 7-bit opcode field each operation is encoded with.
pub open spec fn opcode_bits(op: OpCode) -> u32 {
    match op {
        OpCode::Lui => 0b0110111,
        OpCode::Auipc => 0b0010111,
        OpCode::Jal => 0b1101111,
        OpCode::Jalr => 0b1100111,
        OpCode::Beq | OpCode::Bne | OpCode::Blt | OpCode::Bltu | OpCode::Bge | OpCode::Bgeu
            => 0b1100011,
        OpCode::Lb | OpCode::Lh | OpCode::Lw | OpCode::Lbu | OpCode::Lhu => 0b0000011,
        OpCode::Sb | OpCode::Sh | OpCode::Sw => 0b0100011,
        OpCode::Csrrw | OpCode::Csrrs | OpCode::Csrrc | OpCode::Csrrwi | OpCode::Csrrsi
            | OpCode::Csrrci => 0b1110011,
    }
}

/// The funct3 field each operation is encoded with; zero where the format
/// carries none.
pub open spec fn funct3_bits(op: OpCode) -> u32 {
    match op {
        OpCode::Lui | OpCode::Auipc | OpCode::Jal | OpCode::Jalr => 0,
        OpCode::Beq => 0b000,
        OpCode::Bne => 0b001,
        OpCode::Blt => 0b100,
        OpCode::Bge => 0b101,
        OpCode::Bltu => 0b110,
        OpCode::Bgeu => 0b111,
        OpCode::Lb => 0b000,
        OpCode::Lh => 0b001,
        OpCode::Lw => 0b010,
        OpCode::Lbu => 0b100,
        OpCode::Lhu => 0b101,
        OpCode::Sb => 0b000,
        OpCode::Sh => 0b001,
        OpCode::Sw => 0b010,
        OpCode::Csrrw => 0b001,
        OpCode::Csrrs => 0b010,
        OpCode::Csrrc => 0b011,
        OpCode::Csrrwi => 0b101,
        OpCode::Csrrsi => 0b110,
        OpCode::Csrrci => 0b111,
    }
}

/// The J-type immediate pattern scattered back into instruction bits.
pub open spec fn scatter_j(p: u32) -> u32 {
    ((p & 0x0010_0000) << 11) | ((p & 0x7fe) << 20) | ((p & 0x800) << 9) | (p & 0xff000)
}

/// The B-type immediate pattern scattered back into instruction bits.
pub open spec fn scatter_b(p: u32) -> u32 {
    ((p & 0x1000) << 19) | ((p & 0x7e0) << 20) | ((p & 0x1e) << 7) | ((p & 0x800) >> 4)
}

/// The S-type immediate pattern scattered back into instruction bits.
pub open spec fn scatter_s(p: u32) -> u32 {
    ((p & 0xfe0) << 20) | ((p & 0x1f) << 7)
}

/// A word re-encoded from the fields extracted of `w`, as an instruction of
/// operation `op`.
pub open spec fn spec_encode(op: OpCode, w: u32) -> u32 {
    match spec_format(op) {
        Format::U => opcode_bits(op) | (rd_of(w) << 7) | imm_u_of(w),
        Format::J => opcode_bits(op) | (rd_of(w) << 7) | scatter_j(imm_j_of(w)),
        Format::I => if is_csr_op(op) {
            opcode_bits(op) | (rd_of(w) << 7) | (funct3_bits(op) << 12) | (rs1_of(w) << 15) | (
            csr_of(w) << 20)
        } else {
            opcode_bits(op) | (rd_of(w) << 7) | (funct3_bits(op) << 12) | (rs1_of(w) << 15) | ((
            imm_i_of(w) & 0xfff) << 20)
        },
        Format::B => opcode_bits(op) | (funct3_bits(op) << 12) | (rs1_of(w) << 15) | (rs2_of(w)
            << 20) | scatter_b(imm_b_of(w)),
        Format::S => opcode_bits(op) | (funct3_bits(op) << 12) | (rs1_of(w) << 15) | (rs2_of(w)
            << 20) | scatter_s(imm_s_of(w)),
    }
}

/// The fields a format carries are the same in `w` and in `e`.
pub open spec fn fields_preserved(op: OpCode, w: u32, e: u32) -> bool {
    match spec_format(op) {
        Format::U => rd_of(e) == rd_of(w) && imm_u_of(e) == imm_u_of(w),
        Format::J => rd_of(e) == rd_of(w) && imm_j_of(e) == imm_j_of(w),
        Format::I => if is_csr_op(op) {
            rd_of(e) == rd_of(w) && rs1_of(e) == rs1_of(w) && csr_of(e) == csr_of(w)
        } else {
            rd_of(e) == rd_of(w) && rs1_of(e) == rs1_of(w) && imm_i_of(e) == imm_i_of(w)
        },
        Format::B => rs1_of(e) == rs1_of(w) && rs2_of(e) == rs2_of(w) && imm_b_of(e) == imm_b_of(
            w,
        ),
        Format::S => rs1_of(e) == rs1_of(w) && rs2_of(e) == rs2_of(w) && imm_s_of(e) == imm_s_of(
            w,
        ),
    }
}

/// Reassembling the U-format fields of any word gives the word back.
proof fn lemma_reassemble_u(w: u32)
    ensures
        (w & 0x7f) | (rd_of(w) << 7) | imm_u_of(w) == w,
{
    assert((w & 0x7f) | (rd_of(w) << 7) | imm_u_of(w) == w) by (bit_vector);
}

/// Reassembling the J-format fields of any word gives the word back.
proof fn lemma_reassemble_j(w: u32)
    ensures
        (w & 0x7f) | (rd_of(w) << 7) | scatter_j(imm_j_of(w)) == w,
{
    assert((w & 0x7f) | (rd_of(w) << 7) | scatter_j(imm_j_of(w)) == w) by (bit_vector);
}

/// Reassembling the I-format fields of any word gives the word back.
proof fn lemma_reassemble_i(w: u32)
    ensures
        (w & 0x7f) | (rd_of(w) << 7) | (((w >> 12) & 0x7) << 12) | (rs1_of(w) << 15) | ((imm_i_of(
            w,
        ) & 0xfff) << 20) == w,
{
    assert((w & 0x7f) | (rd_of(w) << 7) | (((w >> 12) & 0x7) << 12) | (rs1_of(w) << 15) | ((
    imm_i_of(w) & 0xfff) << 20) == w) by (bit_vector);
}

/// Reassembling the CSR-form I-format fields of any word gives the word
/// back.
proof fn lemma_reassemble_csr(w: u32)
    ensures
        (w & 0x7f) | (rd_of(w) << 7) | (((w >> 12) & 0x7) << 12) | (rs1_of(w) << 15) | (csr_of(w)
            << 20) == w,
{
    assert((w & 0x7f) | (rd_of(w) << 7) | (((w >> 12) & 0x7) << 12) | (rs1_of(w) << 15) | (csr_of(
        w,
    ) << 20) == w) by (bit_vector);
}

/// Reassembling the B-format fields of any word gives the word back.
proof fn lemma_reassemble_b(w: u32)
    ensures
        (w & 0x7f) | (((w >> 12) & 0x7) << 12) | (rs1_of(w) << 15) | (rs2_of(w) << 20) | scatter_b(
            imm_b_of(w),
        ) == w,
{
    assert((w & 0x7f) | (((w >> 12) & 0x7) << 12) | (rs1_of(w) << 15) | (rs2_of(w) << 20)
        | scatter_b(imm_b_of(w)) == w) by (bit_vector);
}

/// Reassembling the S-format fields of any word gives the word back.
proof fn lemma_reassemble_s(w: u32)
    ensures
        (w & 0x7f) | (((w >> 12) & 0x7) << 12) | (rs1_of(w) << 15) | (rs2_of(w) << 20) | scatter_s(
            imm_s_of(w),
        ) == w,
{
    assert((w & 0x7f) | (((w >> 12) & 0x7) << 12) | (rs1_of(w) << 15) | (rs2_of(w) << 20)
        | scatter_s(imm_s_of(w)) == w) by (bit_vector);
}

/// The JALR encoding built from the fields of `w` decodes to the same
/// fields; its funct3 bits are zero where `w` may carry anything, so the
/// words themselves may differ.
proof fn lemma_jalr_fields(w: u32, e: u32)
    requires
        e == 0x67u32 | (rd_of(w) << 7) | (0u32 << 12) | (rs1_of(w) << 15) | ((imm_i_of(w) & 0xfff)
            << 20),
    ensures
        e & 0x7f == 0x67,
        rd_of(e) == rd_of(w),
        rs1_of(e) == rs1_of(w),
        imm_i_of(e) == imm_i_of(w),
{
    assert(e & 0x7f == 0x67 && rd_of(e) == rd_of(w) && rs1_of(e) == rs1_of(w) && imm_i_of(e)
        == imm_i_of(w)) by (bit_vector)
        requires
            e == 0x67u32 | (rd_of(w) << 7) | (0u32 << 12) | (rs1_of(w) << 15) | ((imm_i_of(w)
                & 0xfff) << 20),
    ;
}

/// Law: decoding is injective over the recognized words — re-encoding the
/// fields extracted from a decoded word and decoding again returns the same
/// operation with the same field values.
pub proof fn lemma_decode_encode_roundtrip(w: u32)
    requires
        spec_decode(w) is Some,
    ensures
        match spec_decode(w) {
            Some(op) => spec_decode(spec_encode(op, w)) == Some(op) && fields_preserved(
                op,
                w,
                spec_encode(op, w),
            ),
            None => true,
        },
{
    let op = spec_decode(w)->Some_0;
    let e = spec_encode(op, w);
    match op {
        OpCode::Lui | OpCode::Auipc => {
            lemma_reassemble_u(w);
            assert(e == w);
        },
        OpCode::Jal => {
            lemma_reassemble_j(w);
            assert(e == w);
        },
        OpCode::Jalr => {
            lemma_jalr_fields(w, e);
            assert(spec_decode(e) == Some(OpCode::Jalr));
        },
        OpCode::Beq | OpCode::Bne | OpCode::Blt | OpCode::Bltu | OpCode::Bge | OpCode::Bgeu => {
            lemma_reassemble_b(w);
            assert(e == w);
        },
        OpCode::Lb | OpCode::Lh | OpCode::Lw | OpCode::Lbu | OpCode::Lhu => {
            lemma_reassemble_i(w);
            assert(e == w);
        },
        OpCode::Sb | OpCode::Sh | OpCode::Sw => {
            lemma_reassemble_s(w);
            assert(e == w);
        },
        OpCode::Csrrw | OpCode::Csrrs | OpCode::Csrrc | OpCode::Csrrwi | OpCode::Csrrsi
            | OpCode::Csrrci => {
            lemma_reassemble_csr(w);
            assert(e == w);
        },
    }
}

} // verus!
