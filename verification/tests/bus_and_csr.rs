//! Bus and CSR file tests: little-endian access, alignment and extent
//! faults, and the mstatus view.

use emulator::bus::Bus;
use emulator::bus::BusRead;
use emulator::bus::BusReadException;
use emulator::bus::BusWrite;
use emulator::bus::BusWriteException;
use emulator::csr::Csr;
use emulator::csr::Mstatus;

#[test]
fn bus_reads_are_little_endian() {
    let b = Bus::new(vec![0x78, 0x56, 0x34, 0x12]);
    assert_eq!(b.read8(0).unwrap(), 0x78);
    assert_eq!(b.read8(3).unwrap(), 0x12);
    assert_eq!(b.read16(0).unwrap(), 0x5678);
    assert_eq!(b.read16(2).unwrap(), 0x1234);
    assert_eq!(b.read32(0).unwrap(), 0x1234_5678);
}

#[test]
fn bus_writes_are_little_endian() {
    let mut b = Bus::new(vec![0; 8]);
    b.write32(0, 0xdead_beef).unwrap();
    assert_eq!(b.read8(0).unwrap(), 0xef);
    assert_eq!(b.read8(1).unwrap(), 0xbe);
    assert_eq!(b.read8(2).unwrap(), 0xad);
    assert_eq!(b.read8(3).unwrap(), 0xde);
    b.write16(4, 0xcafe).unwrap();
    assert_eq!(b.read8(4).unwrap(), 0xfe);
    assert_eq!(b.read8(5).unwrap(), 0xca);
    b.write8(6, 0x7f).unwrap();
    assert_eq!(b.read8(6).unwrap(), 0x7f);
    assert_eq!(b.read32(4).unwrap(), 0x007f_cafe);
}

#[test]
fn bus_misaligned_reads_fault() {
    let b = Bus::new(vec![0; 8]);
    assert!(matches!(
        b.read16(1),
        Err(BusReadException::LoadAddressMisaligned)
    ));
    assert!(matches!(
        b.read32(2),
        Err(BusReadException::LoadAddressMisaligned)
    ));
}

#[test]
fn bus_reads_past_extent_fault() {
    let b = Bus::new(vec![0; 4]);
    assert!(matches!(b.read8(4), Err(BusReadException::LoadAccessFault)));
    assert!(matches!(b.read16(4), Err(BusReadException::LoadAccessFault)));
    assert!(matches!(b.read32(4), Err(BusReadException::LoadAccessFault)));
    // the last halfword and word that straddle the end also fault
    assert!(matches!(b.read32(0).map(|_| ()), Ok(())));
    let b = Bus::new(vec![0; 3]);
    assert!(matches!(b.read32(0), Err(BusReadException::LoadAccessFault)));
    assert!(matches!(b.read16(2), Err(BusReadException::LoadAccessFault)));
}

#[test]
fn bus_misaligned_writes_fault() {
    let mut b = Bus::new(vec![0; 8]);
    assert!(matches!(
        b.write16(3, 1),
        Err(BusWriteException::StoreAddressMisaligned)
    ));
    assert!(matches!(
        b.write32(6, 1),
        Err(BusWriteException::StoreAddressMisaligned)
    ));
}

#[test]
fn bus_writes_past_extent_fault() {
    let mut b = Bus::new(vec![0; 4]);
    assert!(matches!(
        b.write8(4, 1),
        Err(BusWriteException::StoreAccessFault)
    ));
    assert!(matches!(
        b.write16(4, 1),
        Err(BusWriteException::StoreAccessFault)
    ));
    assert!(matches!(
        b.write32(4, 1),
        Err(BusWriteException::StoreAccessFault)
    ));
}

#[test]
fn csr_starts_zeroed_and_stores_values() {
    let mut c = Csr::new();
    assert_eq!(c.read(0), 0);
    assert_eq!(c.read(0x300), 0);
    assert_eq!(c.read(4095), 0);
    c.write(0x300, 0xa);
    c.write(4095, 7);
    assert_eq!(c.read(0x300), 0xa);
    assert_eq!(c.read(4095), 7);
}

#[test]
fn mstatus_mie_is_bit_three() {
    let mut c = Csr::new();
    assert!(!c.read_mstatus().mie());
    c.write(0x300, 0x08);
    assert!(c.read_mstatus().mie());
    c.write(0x300, 0xf7);
    assert!(!c.read_mstatus().mie());
    assert!(Mstatus(0x08).mie());
    assert!(!Mstatus(0x04).mie());
}
