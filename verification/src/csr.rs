//! The control-and-status register file: 4096 32-bit registers, all
//! addressable, reading as zero until written.

use vstd::prelude::*;

use crate::instructions::RegisterIdx;

verus! {

/// Number of addressable CSRs: the address field is 12 bits wide.
pub const CSR_ADDR_SPACE: usize = 4096;

/// Address of the mstatus register.
pub const MSTATUS_ADDR: usize = 0x300;

/// A vector of `n` zeroed 32-bit words.
pub(crate) fn zero_filled(n: usize) -> (v: Vec<u32>)
    ensures
        v@.len() == n,
        forall|i: int| 0 <= i < n ==> v@[i] == 0u32,
{
    let mut v: Vec<u32> = Vec::new();
    let mut k: usize = 0;
    while k < n
        invariant
            k <= n,
            v@.len() == k,
            forall|i: int| 0 <= i < k ==> v@[i] == 0u32,
        decreases n - k,
    {
        v.push(0);
        k = k + 1;
    }
    v
}

/// Control-and-status register file.
#[derive(Debug)]
pub struct Csr {
    r: Vec<u32>,
}

impl View for Csr {
    type V = Seq<u32>;

    closed spec fn view(&self) -> Seq<u32> {
        self.r@
    }
}

impl Csr {
    /// A well-formed CSR file covers the whole 12-bit address space.
    pub open spec fn wf(&self) -> bool {
        self@.len() == CSR_ADDR_SPACE
    }

    /// Build the CSR file with every register zeroed.
    pub fn new() -> (r: Csr)
        ensures
            r.wf(),
            forall|i: int| 0 <= i < CSR_ADDR_SPACE ==> r@[i] == 0u32,
    {
        Csr { r: zero_filled(CSR_ADDR_SPACE) }
    }

    /// Read the mstatus register as its typed view.
    pub fn read_mstatus(&self) -> (r: Mstatus)
        requires
            self.wf(),
        ensures
            r.0 == self@[MSTATUS_ADDR as int],
    {
        Mstatus(self.read(MSTATUS_ADDR))
    }

    /// Read the CSR at `addr`.
    pub fn read(&self, addr: RegisterIdx) -> (r: u32)
        requires
            self.wf(),
            addr < CSR_ADDR_SPACE,
        ensures
            r == self@[addr as int],
    {
        self.r[addr]
    }

    /// Write `value` to the CSR at `addr`.
    pub fn write(&mut self, addr: RegisterIdx, value: u32)
        requires
            old(self).wf(),
            addr < CSR_ADDR_SPACE,
        ensures
            final (self).wf(),
            final (self)@ == old(self)@.update(addr as int, value),
    {
        self.r.set(addr, value);
    }
}

/// The value of the mstatus CSR, with accessors for its named bits.
pub struct Mstatus(pub u32);

impl Mstatus {
    /// The machine-interrupt-enable flag: bit 3 of mstatus.
    pub fn mie(&self) -> (r: bool)
        ensures
            r == (self.0 & 0x08 != 0),
    {
        (self.0 & 0x08) != 0
    }
}

} // verus!
