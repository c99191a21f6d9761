//! End-to-end scenarios: one prepared machine, one or two cycles, exact
//! expected state.

use emulator::bus::Bus;
use emulator::bus::BusRead;
use emulator::bus::BusReadException;
use emulator::bus::BusWriteException;
use emulator::cpu::Cpu;
use emulator::cpu::CpuError;

fn cpu_with_words(words: &[u32]) -> Cpu<Bus> {
    let mut ram: Vec<u8> = Vec::new();
    for w in words {
        ram.extend_from_slice(&w.to_le_bytes());
    }
    Cpu::new(Bus::new(ram))
}

#[test]
fn lui_writes_shifted_immediate() {
    // LUI x1, 1
    let mut c = cpu_with_words(&[0x0000_10b7]);
    c.cycle().unwrap();
    assert_eq!(c.pc(), 4);
    assert_eq!(c.read(1), 0x0000_1000);
    assert_eq!(c.state().cycle_counter, 1);
}

#[test]
fn auipc_adds_immediate_to_pc() {
    // AUIPC x1, 1 at pc = 0
    let mut c = cpu_with_words(&[0x0000_1097]);
    c.cycle().unwrap();
    assert_eq!(c.pc(), 4);
    assert_eq!(c.read(1), 0x0000_1000);
}

#[test]
fn jal_links_and_jumps() {
    // JAL x1, +8 at pc = 0
    let mut c = cpu_with_words(&[0x0080_00ef]);
    c.cycle().unwrap();
    assert_eq!(c.pc(), 8);
    assert_eq!(c.read(1), 4);
}

#[test]
fn jal_minimum_negative_immediate_wraps_pc() {
    // JAL x0, -1 MiB at pc = 0: 32-bit wrapping arithmetic
    let mut c = cpu_with_words(&[0x8000_006f]);
    c.cycle().unwrap();
    assert_eq!(c.pc(), 0xfff0_0000);
    assert_eq!(c.state().cycle_counter, 1);
}

#[test]
fn jalr_clears_lowest_target_bit_and_skips_x0_write() {
    // JALR x0, x1, 0 with x1 = 0x1001
    let mut c = cpu_with_words(&[0x0000_8067]);
    c.write(1, 0x1001);
    c.cycle().unwrap();
    assert_eq!(c.pc(), 0x1000);
    assert_eq!(c.read(0), 0);
}

#[test]
fn beq_taken_jumps_by_immediate() {
    // BEQ x0, x0, +12 at pc = 0
    let mut c = cpu_with_words(&[0x0000_0663]);
    c.cycle().unwrap();
    assert_eq!(c.pc(), 12);
}

#[test]
fn beq_same_register_always_taken() {
    // BEQ x5, x5, +12 with an arbitrary value in x5
    let mut c = cpu_with_words(&[0x0052_8663]);
    c.write(5, 77);
    c.cycle().unwrap();
    assert_eq!(c.pc(), 12);
}

#[test]
fn bne_same_register_never_taken() {
    // BNE x5, x5, +12
    let mut c = cpu_with_words(&[0x0052_9663]);
    c.write(5, 77);
    c.cycle().unwrap();
    assert_eq!(c.pc(), 4);
}

#[test]
fn blt_compares_signed() {
    // BLT x1, x2, +8 with x1 = -1, x2 = 1: taken
    let mut c = cpu_with_words(&[0x0020_c463]);
    c.write(1, 0xffff_ffff);
    c.write(2, 1);
    c.cycle().unwrap();
    assert_eq!(c.pc(), 8);
}

#[test]
fn bltu_compares_unsigned() {
    // BLTU x1, x2, +8 with x1 = 0xFFFFFFFF, x2 = 1: not taken
    let mut c = cpu_with_words(&[0x0020_e463]);
    c.write(1, 0xffff_ffff);
    c.write(2, 1);
    c.cycle().unwrap();
    assert_eq!(c.pc(), 4);
}

#[test]
fn lb_sign_extends_loaded_byte() {
    // LB x2, 4(x0) with byte 0xFF at address 4
    let mut c = Cpu::new(Bus::new(vec![0x03, 0x01, 0x40, 0x00, 0xff, 0, 0, 0]));
    c.cycle().unwrap();
    assert_eq!(c.read(2), 0xffff_ffff);
    assert_eq!(c.pc(), 4);
}

#[test]
fn lbu_zero_extends_loaded_byte() {
    // LBU x2, 4(x0) with byte 0xFF at address 4
    let mut c = Cpu::new(Bus::new(vec![0x03, 0x41, 0x40, 0x00, 0xff, 0, 0, 0]));
    c.cycle().unwrap();
    assert_eq!(c.read(2), 0x0000_00ff);
}

#[test]
fn sw_stores_little_endian() {
    // SW x2, 4(x0) with x2 = 0xDEADBEEF
    let mut c = cpu_with_words(&[0x0020_2223, 0]);
    c.write(2, 0xdead_beef);
    c.cycle().unwrap();
    assert_eq!(c.pc(), 4);
    assert_eq!(c.bus().read8(4).unwrap(), 0xef);
    assert_eq!(c.bus().read8(5).unwrap(), 0xbe);
    assert_eq!(c.bus().read8(6).unwrap(), 0xad);
    assert_eq!(c.bus().read8(7).unwrap(), 0xde);
}

#[test]
fn csrrw_swaps_register_and_csr() {
    // CSRRW x1, 0x300, x2 with x2 = 0xF and CSR[0x300] = 0xA
    let mut c = cpu_with_words(&[0x3001_10f3]);
    c.write(2, 0xf);
    c.write_csr(0x300, 0xa);
    c.cycle().unwrap();
    assert_eq!(c.read(1), 0xa);
    assert_eq!(c.read_csr(0x300), 0xf);
    assert_eq!(c.pc(), 4);
}

#[test]
fn csrrs_with_x0_reads_but_does_not_write() {
    // CSRRS x1, 0x300, x0 with CSR[0x300] = 0xA
    let mut c = cpu_with_words(&[0x3000_20f3]);
    c.write_csr(0x300, 0xa);
    c.cycle().unwrap();
    assert_eq!(c.read(1), 0xa);
    assert_eq!(c.read_csr(0x300), 0xa);
}

#[test]
fn csrrsi_with_zero_immediate_does_not_write() {
    // CSRRSI x1, 0x300, 0
    let mut c = cpu_with_words(&[0x3000_60f3]);
    c.write_csr(0x300, 0xa);
    c.cycle().unwrap();
    assert_eq!(c.read(1), 0xa);
    assert_eq!(c.read_csr(0x300), 0xa);
}

#[test]
fn csrrc_clears_operand_bits() {
    // CSRRC x1, 0x300, x2 with x2 = 0b1010, CSR = 0b1111
    let mut c = cpu_with_words(&[0x3001_30f3]);
    c.write(2, 0b1010);
    c.write_csr(0x300, 0b1111);
    c.cycle().unwrap();
    assert_eq!(c.read(1), 0b1111);
    assert_eq!(c.read_csr(0x300), 0b0101);
}

#[test]
fn csrrwi_writes_immediate() {
    // CSRRWI x1, 0x300, 21
    let mut c = cpu_with_words(&[0x300a_d0f3]);
    c.write_csr(0x300, 3);
    c.cycle().unwrap();
    assert_eq!(c.read(1), 3);
    assert_eq!(c.read_csr(0x300), 21);
}

#[test]
fn lui_to_x0_is_ignored() {
    // LUI x0, 1
    let mut c = cpu_with_words(&[0x0000_1037]);
    c.cycle().unwrap();
    assert_eq!(c.read(0), 0);
    assert_eq!(c.pc(), 4);
}

#[test]
fn direct_write_to_x0_is_ignored() {
    let mut c = cpu_with_words(&[0]);
    c.write(0, 5);
    assert_eq!(c.read(0), 0);
}

#[test]
fn lui_leaves_other_registers_unchanged() {
    // LUI x3, 1 with values parked in x1 and x31
    let mut c = cpu_with_words(&[0x0000_11b7]);
    c.write(1, 11);
    c.write(31, 22);
    c.cycle().unwrap();
    assert_eq!(c.read(3), 0x1000);
    assert_eq!(c.read(1), 11);
    assert_eq!(c.read(31), 22);
}

#[test]
fn misaligned_fetch_faults() {
    // JALR x0, x1, 0 with x1 = 6 jumps to pc = 6; the next fetch faults
    let mut c = cpu_with_words(&[0x0000_8067, 0]);
    c.write(1, 6);
    c.cycle().unwrap();
    assert_eq!(c.pc(), 6);
    assert_eq!(
        c.cycle(),
        Err(CpuError::Load(BusReadException::LoadAddressMisaligned))
    );
    assert_eq!(c.pc(), 6);
}

#[test]
fn fetch_beyond_extent_faults() {
    let mut c = Cpu::new(Bus::new(vec![]));
    assert_eq!(
        c.cycle(),
        Err(CpuError::Load(BusReadException::LoadAccessFault))
    );
}

#[test]
fn unrecognized_word_is_a_decode_error() {
    let mut c = cpu_with_words(&[0xffff_ffff]);
    assert!(matches!(c.cycle(), Err(CpuError::Decode(_))));
}

#[test]
fn load_from_odd_address_is_misaligned() {
    // LH x2, 1(x0)
    let mut c = cpu_with_words(&[0x0010_1103, 0]);
    assert_eq!(
        c.cycle(),
        Err(CpuError::Load(BusReadException::LoadAddressMisaligned))
    );
}

#[test]
fn load_beyond_extent_faults() {
    // LW x2, 64(x0) over an 8-byte memory
    let mut c = cpu_with_words(&[0x0400_2103, 0]);
    assert_eq!(
        c.cycle(),
        Err(CpuError::Load(BusReadException::LoadAccessFault))
    );
}

#[test]
fn store_to_odd_address_is_misaligned() {
    // SH x2, 1(x0)
    let mut c = cpu_with_words(&[0x0020_10a3, 0]);
    assert_eq!(
        c.cycle(),
        Err(CpuError::Store(BusWriteException::StoreAddressMisaligned))
    );
}

#[test]
fn store_beyond_extent_faults() {
    // SW x2, 64(x0) over an 8-byte memory
    let mut c = cpu_with_words(&[0x0420_2023, 0]);
    assert_eq!(
        c.cycle(),
        Err(CpuError::Store(BusWriteException::StoreAccessFault))
    );
}

#[test]
fn faulting_cycle_still_counts() {
    let mut c = Cpu::new(Bus::new(vec![]));
    assert!(c.cycle().is_err());
    assert_eq!(c.state().cycle_counter, 1);
    assert!(c.cycle().is_err());
    assert_eq!(c.state().cycle_counter, 2);
}

#[test]
fn faulting_cycle_leaves_state_unchanged() {
    // LW x2, 64(x0) faults: registers and pc keep their values
    let mut c = cpu_with_words(&[0x0400_2103, 0]);
    c.write(2, 9);
    assert!(c.cycle().is_err());
    assert_eq!(c.read(2), 9);
    assert_eq!(c.pc(), 0);
}

#[test]
fn lh_sign_extends_halfword() {
    // LH x2, 4(x0) with halfword 0x8000 at address 4
    let mut c = Cpu::new(Bus::new(vec![0x03, 0x11, 0x40, 0x00, 0x00, 0x80, 0, 0]));
    c.cycle().unwrap();
    assert_eq!(c.read(2), 0xffff_8000);
}

#[test]
fn lhu_zero_extends_halfword() {
    // LHU x2, 4(x0) with halfword 0x8000 at address 4
    let mut c = Cpu::new(Bus::new(vec![0x03, 0x51, 0x40, 0x00, 0x00, 0x80, 0, 0]));
    c.cycle().unwrap();
    assert_eq!(c.read(2), 0x0000_8000);
}

#[test]
fn lw_loads_word() {
    // LW x2, 4(x0)
    let mut c = Cpu::new(Bus::new(vec![0x03, 0x21, 0x40, 0x00, 0x78, 0x56, 0x34, 0x12]));
    c.cycle().unwrap();
    assert_eq!(c.read(2), 0x1234_5678);
}

#[test]
fn sb_stores_low_byte() {
    // SB x2, 4(x0) with x2 = 0x1234
    let mut c = cpu_with_words(&[0x0020_0223, 0]);
    c.write(2, 0x1234);
    c.cycle().unwrap();
    assert_eq!(c.bus().read8(4).unwrap(), 0x34);
    assert_eq!(c.bus().read8(5).unwrap(), 0);
}

#[test]
fn sh_stores_low_halfword() {
    // SH x2, 4(x0) with x2 = 0xCAFE1234
    let mut c = cpu_with_words(&[0x0020_1223, 0]);
    c.write(2, 0xcafe_1234);
    c.cycle().unwrap();
    assert_eq!(c.bus().read8(4).unwrap(), 0x34);
    assert_eq!(c.bus().read8(5).unwrap(), 0x12);
    assert_eq!(c.bus().read8(6).unwrap(), 0);
}

#[test]
fn auipc_at_nonzero_pc_adds_to_that_pc() {
    // JAL x0, +4 then AUIPC x1, 1 at pc = 4
    let mut c = cpu_with_words(&[0x0040_006f, 0x0000_1097]);
    c.cycle().unwrap();
    assert_eq!(c.pc(), 4);
    c.cycle().unwrap();
    assert_eq!(c.pc(), 8);
    assert_eq!(c.read(1), 0x0000_1004);
}
