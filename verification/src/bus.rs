//! The memory bus: little-endian, byte-addressable, with 8/16/32-bit
//! accesses. Misaligned accesses and accesses past the mapped extent fault.

use vstd::prelude::*;

verus! {

/// Fault raised by a read access.
#[derive(Debug, Clone, Copy, PartialEq, Eq, Structural)]
pub enum BusReadException {
    LoadAddressMisaligned,
    LoadAccessFault,
}

/// Fault raised by a write access.
#[derive(Debug, Clone, Copy, PartialEq, Eq, Structural)]
pub enum BusWriteException {
    StoreAddressMisaligned,
    StoreAccessFault,
}

/// The 16-bit value stored little-endian at `a`.
pub open spec fn le16_at(mem: Seq<u8>, a: int) -> u16 {
    (mem[a] + mem[a + 1] * 0x100) as u16
}

/// The 32-bit value stored little-endian at `a`.
pub open spec fn le32_at(mem: Seq<u8>, a: int) -> u32 {
    (mem[a] + mem[a + 1] * 0x100 + mem[a + 2] * 0x10000 + mem[a + 3] * 0x1000000) as u32
}

/// What an 8-bit read returns: the byte, or a fault for an unmapped address.
pub open spec fn spec_read8(mem: Seq<u8>, addr: u32) -> Result<u8, BusReadException> {
    if addr >= mem.len() {
        Err(BusReadException::LoadAccessFault)
    } else {
        Ok(mem[addr as int])
    }
}

/// What a 16-bit read returns; alignment is checked before the extent.
pub open spec fn spec_read16(mem: Seq<u8>, addr: u32) -> Result<u16, BusReadException> {
    if addr % 2 != 0 {
        Err(BusReadException::LoadAddressMisaligned)
    } else if addr + 1 >= mem.len() {
        Err(BusReadException::LoadAccessFault)
    } else {
        Ok(le16_at(mem, addr as int))
    }
}

/// What a 32-bit read returns; alignment is checked before the extent.
pub open spec fn spec_read32(mem: Seq<u8>, addr: u32) -> Result<u32, BusReadException> {
    if addr % 4 != 0 {
        Err(BusReadException::LoadAddressMisaligned)
    } else if addr + 3 >= mem.len() {
        Err(BusReadException::LoadAccessFault)
    } else {
        Ok(le32_at(mem, addr as int))
    }
}

/// The memory after an 8-bit write, or the fault that refuses it.
pub open spec fn spec_write8(mem: Seq<u8>, addr: u32, v: u8) -> Result<
    Seq<u8>,
    BusWriteException,
> {
    if addr >= mem.len() {
        Err(BusWriteException::StoreAccessFault)
    } else {
        Ok(mem.update(addr as int, v))
    }
}

/// The memory after a 16-bit little-endian write, or the fault.
pub open spec fn spec_write16(mem: Seq<u8>, addr: u32, v: u16) -> Result<
    Seq<u8>,
    BusWriteException,
> {
    if addr % 2 != 0 {
        Err(BusWriteException::StoreAddressMisaligned)
    } else if addr + 1 >= mem.len() {
        Err(BusWriteException::StoreAccessFault)
    } else {
        Ok(mem.update(addr as int, (v % 0x100) as u8).update(addr + 1, (v / 0x100) as u8))
    }
}

/// The memory after a 32-bit little-endian write, or the fault.
pub open spec fn spec_write32(mem: Seq<u8>, addr: u32, v: u32) -> Result<
    Seq<u8>,
    BusWriteException,
> {
    if addr % 4 != 0 {
        Err(BusWriteException::StoreAddressMisaligned)
    } else if addr + 3 >= mem.len() {
        Err(BusWriteException::StoreAccessFault)
    } else {
        Ok(
            mem.update(addr as int, (v % 0x100) as u8).update(
                addr + 1,
                ((v / 0x100) % 0x100) as u8,
            ).update(addr + 2, ((v / 0x10000) % 0x100) as u8).update(
                addr + 3,
                (v / 0x1000000) as u8,
            ),
        )
    }
}

/// The mathematical view of a bus: the mapped bytes, address 0 first.
/// Every address at or past `mem().len()` is unmapped.
pub trait BusMemory {
    spec fn mem(&self) -> Seq<u8>;
}

/// Read side of the bus contract.
pub trait BusRead: BusMemory {
    fn read8(&self, addr: u32) -> (r: Result<u8, BusReadException>)
        ensures
            r == spec_read8(self.mem(), addr),
    ;

    fn read16(&self, addr: u32) -> (r: Result<u16, BusReadException>)
        ensures
            r == spec_read16(self.mem(), addr),
    ;

    fn read32(&self, addr: u32) -> (r: Result<u32, BusReadException>)
        ensures
            r == spec_read32(self.mem(), addr),
    ;
}

/// Write side of the bus contract.
pub trait BusWrite: BusMemory {
    fn write8(&mut self, addr: u32, v: u8) -> (r: Result<(), BusWriteException>)
        ensures
            match spec_write8(old(self).mem(), addr, v) {
                Ok(m) => r is Ok && final (self).mem() == m,
                Err(e) => r == Err::<(), BusWriteException>(e) && final (self).mem() == old(
                    self,
                ).mem(),
            },
    ;

    fn write16(&mut self, addr: u32, v: u16) -> (r: Result<(), BusWriteException>)
        ensures
            match spec_write16(old(self).mem(), addr, v) {
                Ok(m) => r is Ok && final (self).mem() == m,
                Err(e) => r == Err::<(), BusWriteException>(e) && final (self).mem() == old(
                    self,
                ).mem(),
            },
    ;

    fn write32(&mut self, addr: u32, v: u32) -> (r: Result<(), BusWriteException>)
        ensures
            match spec_write32(old(self).mem(), addr, v) {
                Ok(m) => r is Ok && final (self).mem() == m,
                Err(e) => r == Err::<(), BusWriteException>(e) && final (self).mem() == old(
                    self,
                ).mem(),
            },
    ;
}

/// The default bus: a contiguous byte array backing the whole address space.
pub struct Bus {
    ram: Vec<u8>,
}

impl BusMemory for Bus {
    closed spec fn mem(&self) -> Seq<u8> {
        self.ram@
    }
}

impl Bus {
    /// Build a bus over the given memory image; address 0 maps its first byte.
    pub fn new(ram: Vec<u8>) -> (r: Bus)
        ensures
            r.mem() == ram@,
    {
        Bus { ram }
    }
}

impl BusRead for Bus {
    fn read8(&self, addr: u32) -> (r: Result<u8, BusReadException>) {
        if (addr as usize) < self.ram.len() {
            Ok(self.ram[addr as usize])
        } else {
            Err(BusReadException::LoadAccessFault)
        }
    }

    fn read16(&self, addr: u32) -> (r: Result<u16, BusReadException>) {
        if addr % 2 != 0 {
            Err(BusReadException::LoadAddressMisaligned)
        } else if self.ram.len() < 2 || (addr as usize) > self.ram.len() - 2 {
            Err(BusReadException::LoadAccessFault)
        } else {
            let a = addr as usize;
            Ok(self.ram[a] as u16 + self.ram[a + 1] as u16 * 0x100)
        }
    }

    fn read32(&self, addr: u32) -> (r: Result<u32, BusReadException>) {
        if addr % 4 != 0 {
            Err(BusReadException::LoadAddressMisaligned)
        } else if self.ram.len() < 4 || (addr as usize) > self.ram.len() - 4 {
            Err(BusReadException::LoadAccessFault)
        } else {
            let a = addr as usize;
            Ok(
                self.ram[a] as u32 + self.ram[a + 1] as u32 * 0x100 + self.ram[a + 2] as u32
                    * 0x10000 + self.ram[a + 3] as u32 * 0x1000000,
            )
        }
    }
}

impl BusWrite for Bus {
    fn write8(&mut self, addr: u32, v: u8) -> (r: Result<(), BusWriteException>) {
        if (addr as usize) < self.ram.len() {
            self.ram.set(addr as usize, v);
            Ok(())
        } else {
            Err(BusWriteException::StoreAccessFault)
        }
    }

    fn write16(&mut self, addr: u32, v: u16) -> (r: Result<(), BusWriteException>) {
        if addr % 2 != 0 {
            Err(BusWriteException::StoreAddressMisaligned)
        } else if self.ram.len() < 2 || (addr as usize) > self.ram.len() - 2 {
            Err(BusWriteException::StoreAccessFault)
        } else {
            let a = addr as usize;
            self.ram.set(a, (v % 0x100) as u8);
            self.ram.set(a + 1, (v / 0x100) as u8);
            Ok(())
        }
    }

    fn write32(&mut self, addr: u32, v: u32) -> (r: Result<(), BusWriteException>) {
        if addr % 4 != 0 {
            Err(BusWriteException::StoreAddressMisaligned)
        } else if self.ram.len() < 4 || (addr as usize) > self.ram.len() - 4 {
            Err(BusWriteException::StoreAccessFault)
        } else {
            let a = addr as usize;
            self.ram.set(a, (v % 0x100) as u8);
            self.ram.set(a + 1, ((v / 0x100) % 0x100) as u8);
            self.ram.set(a + 2, ((v / 0x10000) % 0x100) as u8);
            self.ram.set(a + 3, (v / 0x1000000) as u8);
            Ok(())
        }
    }
}

} // verus!
