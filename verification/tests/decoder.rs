//! Decoder tests: opcode dispatch, field extraction, immediate assembly and
//! sign extension across the five formats.

use emulator::instructions::Decoder;
use emulator::instructions::Format;
use emulator::instructions::OpCode;

#[test]
fn decodes_lui_with_fields() {
    let d = Decoder::new();
    let ins = d.try_decode(0x0000_10b7).unwrap();
    assert_eq!(ins.op_code, OpCode::Lui);
    assert_eq!(ins.format(), Format::U);
    assert_eq!(ins.rd(), 1);
    assert_eq!(ins.imm(), 0x1000);
}

#[test]
fn decodes_auipc() {
    let d = Decoder::new();
    let ins = d.try_decode(0x0000_1097).unwrap();
    assert_eq!(ins.op_code, OpCode::Auipc);
    assert_eq!(ins.format(), Format::U);
}

#[test]
fn decodes_jal_with_negative_immediate() {
    let d = Decoder::new();
    let ins = d.try_decode(0x8000_006f).unwrap();
    assert_eq!(ins.op_code, OpCode::Jal);
    assert_eq!(ins.format(), Format::J);
    assert_eq!(ins.rd(), 0);
    assert_eq!(ins.imm_signed(), -1048576);
}

#[test]
fn decodes_jal_with_positive_immediate() {
    let d = Decoder::new();
    let ins = d.try_decode(0x0080_00ef).unwrap();
    assert_eq!(ins.op_code, OpCode::Jal);
    assert_eq!(ins.rd(), 1);
    assert_eq!(ins.imm_signed(), 8);
}

#[test]
fn decodes_jalr() {
    let d = Decoder::new();
    let ins = d.try_decode(0x0000_8067).unwrap();
    assert_eq!(ins.op_code, OpCode::Jalr);
    assert_eq!(ins.format(), Format::I);
    assert_eq!(ins.rd(), 0);
    assert_eq!(ins.rs1(), 1);
    assert_eq!(ins.imm_signed(), 0);
}

#[test]
fn decodes_branches_by_funct3() {
    let d = Decoder::new();
    assert_eq!(d.try_decode(0x0000_0663).unwrap().op_code, OpCode::Beq);
    assert_eq!(d.try_decode(0x0000_1663).unwrap().op_code, OpCode::Bne);
    assert_eq!(d.try_decode(0x0000_4663).unwrap().op_code, OpCode::Blt);
    assert_eq!(d.try_decode(0x0000_5663).unwrap().op_code, OpCode::Bge);
    assert_eq!(d.try_decode(0x0000_6663).unwrap().op_code, OpCode::Bltu);
    assert_eq!(d.try_decode(0x0000_7663).unwrap().op_code, OpCode::Bgeu);
}

#[test]
fn branch_immediate_assembles_and_sign_extends() {
    let d = Decoder::new();
    // BEQ x0, x0, +12
    let ins = d.try_decode(0x0000_0663).unwrap();
    assert_eq!(ins.format(), Format::B);
    assert_eq!(ins.imm_signed(), 12);
    // BEQ x0, x0, -4: imm bits [4:1] = 0b1110, [11] = 1, [10:5] = 0b111111,
    // [12] = 1
    let ins = d.try_decode(0xfe00_0ee3).unwrap();
    assert_eq!(ins.op_code, OpCode::Beq);
    assert_eq!(ins.imm_signed(), -4);
}

#[test]
fn decodes_loads_by_funct3() {
    let d = Decoder::new();
    assert_eq!(d.try_decode(0x0040_0103).unwrap().op_code, OpCode::Lb);
    assert_eq!(d.try_decode(0x0040_1103).unwrap().op_code, OpCode::Lh);
    assert_eq!(d.try_decode(0x0040_2103).unwrap().op_code, OpCode::Lw);
    assert_eq!(d.try_decode(0x0040_4103).unwrap().op_code, OpCode::Lbu);
    assert_eq!(d.try_decode(0x0040_5103).unwrap().op_code, OpCode::Lhu);
}

#[test]
fn load_immediate_sign_extends() {
    let d = Decoder::new();
    // LB x2, -1(x0)
    let ins = d.try_decode(0xfff0_0103).unwrap();
    assert_eq!(ins.op_code, OpCode::Lb);
    assert_eq!(ins.imm_signed(), -1);
}

#[test]
fn decodes_stores_with_s_immediate() {
    let d = Decoder::new();
    let ins = d.try_decode(0x0020_2223).unwrap();
    assert_eq!(ins.op_code, OpCode::Sw);
    assert_eq!(ins.format(), Format::S);
    assert_eq!(ins.rs1(), 0);
    assert_eq!(ins.rs2(), 2);
    assert_eq!(ins.imm_signed(), 4);
    assert_eq!(d.try_decode(0x0020_0223).unwrap().op_code, OpCode::Sb);
    assert_eq!(d.try_decode(0x0020_1223).unwrap().op_code, OpCode::Sh);
    // SW x2, -4(x0): imm[11:5] = 0b1111111, imm[4:0] = 0b11100
    let ins = d.try_decode(0xfe20_2e23).unwrap();
    assert_eq!(ins.op_code, OpCode::Sw);
    assert_eq!(ins.imm_signed(), -4);
}

#[test]
fn decodes_csr_instructions_with_address() {
    let d = Decoder::new();
    let ins = d.try_decode(0x3001_10f3).unwrap();
    assert_eq!(ins.op_code, OpCode::Csrrw);
    assert_eq!(ins.csr(), 0x300);
    assert_eq!(ins.rd(), 1);
    assert_eq!(ins.rs1(), 2);
    assert_eq!(d.try_decode(0x3000_20f3).unwrap().op_code, OpCode::Csrrs);
    assert_eq!(d.try_decode(0x3001_30f3).unwrap().op_code, OpCode::Csrrc);
    assert_eq!(d.try_decode(0x300a_d0f3).unwrap().op_code, OpCode::Csrrwi);
    assert_eq!(d.try_decode(0x3000_60f3).unwrap().op_code, OpCode::Csrrsi);
    assert_eq!(d.try_decode(0x3000_70f3).unwrap().op_code, OpCode::Csrrci);
}

#[test]
fn rejects_unknown_opcodes() {
    let d = Decoder::new();
    assert!(d.try_decode(0).is_err());
    assert!(d.try_decode(0xffff_ffff).is_err());
    // branch opcode with unassigned funct3 = 0b010
    assert!(d.try_decode(0x0000_2663).is_err());
    // load opcode with unassigned funct3 = 0b011
    assert!(d.try_decode(0x0040_3103).is_err());
    // store opcode with unassigned funct3 = 0b011
    assert!(d.try_decode(0x0020_3223).is_err());
    // system opcode with unassigned funct3 = 0b000
    assert!(d.try_decode(0x3000_00f3).is_err());
    // system opcode with unassigned funct3 = 0b100
    assert!(d.try_decode(0x3000_40f3).is_err());
}

#[test]
fn register_fields_are_five_bits() {
    let d = Decoder::new();
    // LUI x31, 0xFFFFF
    let ins = d.try_decode(0xffff_ffb7).unwrap();
    assert_eq!(ins.rd(), 31);
    assert_eq!(ins.imm(), 0xffff_f000);
}
