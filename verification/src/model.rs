//! The architectural semantics, stated as pure functions on machine states.
//!
//! `MachineState` is the mathematical view of the machine: the 32 registers,
//! the program counter, the 4096 CSRs and the mapped memory bytes.
//! `spec_step` says exactly what one retired instruction does to it, or which
//! fault it raises; the executable engine in `cpu` is specified against it.

use vstd::prelude::*;

use crate::bus::BusReadException;
use crate::bus::BusWriteException;
use crate::bus::spec_read16;
use crate::bus::spec_read32;
use crate::bus::spec_read8;
use crate::bus::spec_write16;
use crate::bus::spec_write32;
use crate::bus::spec_write8;
use crate::cpu::CpuError;
use crate::instructions::DecodeError;
use crate::instructions::OpCode;
use crate::instructions::csr_of;
use crate::instructions::imm_b_of;
use crate::instructions::imm_i_of;
use crate::instructions::imm_j_of;
use crate::instructions::imm_s_of;
use crate::instructions::imm_u_of;
use crate::instructions::rd_of;
use crate::instructions::rs1_of;
use crate::instructions::rs2_of;
use crate::instructions::spec_decode;

verus! {

/// The architecturally visible state: registers x0..x31, the program
/// counter, the CSR file, and the bytes the bus maps.
#[verifier::ext_equal]
pub struct MachineState {
    pub x: Seq<u32>,
    pub pc: u32,
    pub csr: Seq<u32>,
    pub mem: Seq<u8>,
}

/// Well-formedness: 32 registers with x0 hardwired to zero, and a CSR file
/// covering the whole 12-bit address space.
pub open spec fn wf_state(s: MachineState) -> bool {
    &&& s.x.len() == 32
    &&& s.x[0] == 0
    &&& s.csr.len() == 4096
}

/// The two's-complement reading of a 32-bit pattern.
pub open spec fn to_signed(v: u32) -> int {
    if v >= 0x8000_0000 {
        v - 0x1_0000_0000
    } else {
        v as int
    }
}

/// A byte sign-extended to 32 bits.
pub open spec fn sext8(v: u8) -> u32 {
    if v >= 0x80 {
        (0xffff_ff00 + v) as u32
    } else {
        v as u32
    }
}

/// A halfword sign-extended to 32 bits.
pub open spec fn sext16(v: u16) -> u32 {
    if v >= 0x8000 {
        (0xffff_0000 + v) as u32
    } else {
        v as u32
    }
}

/// The register file after writing `v` to register `rd`: writes to x0 are
/// silently ignored.
pub open spec fn spec_write_x(x: Seq<u32>, rd: int, v: u32) -> Seq<u32> {
    if rd == 0 {
        x
    } else {
        x.update(rd, v)
    }
}

/// Whether a branch with operands `a` and `b` is taken.
pub open spec fn spec_branch_taken(op: OpCode, a: u32, b: u32) -> bool {
    match op {
        OpCode::Beq => a == b,
        OpCode::Bne => a != b,
        OpCode::Blt => to_signed(a) < to_signed(b),
        OpCode::Bge => to_signed(a) >= to_signed(b),
        OpCode::Bltu => a < b,
        OpCode::Bgeu => a >= b,
        _ => false,
    }
}

/// The value a load of the given width returns, extended to 32 bits, or the
/// fault the bus raises.
pub open spec fn spec_load_result(mem: Seq<u8>, addr: u32, width: u32, sign_extend: bool) -> Result<
    u32,
    BusReadException,
> {
    if width == 1 {
        match spec_read8(mem, addr) {
            Ok(v) => Ok(
                if sign_extend {
                    sext8(v)
                } else {
                    v as u32
                },
            ),
            Err(e) => Err(e),
        }
    } else if width == 2 {
        match spec_read16(mem, addr) {
            Ok(v) => Ok(
                if sign_extend {
                    sext16(v)
                } else {
                    v as u32
                },
            ),
            Err(e) => Err(e),
        }
    } else {
        spec_read32(mem, addr)
    }
}

/// The memory after a store of the low `width` bytes of `v`, or the fault.
pub open spec fn spec_store_result(mem: Seq<u8>, addr: u32, v: u32, width: u32) -> Result<
    Seq<u8>,
    BusWriteException,
> {
    if width == 1 {
        spec_write8(mem, addr, (v % 0x100) as u8)
    } else if width == 2 {
        spec_write16(mem, addr, (v % 0x10000) as u16)
    } else {
        spec_write32(mem, addr, v)
    }
}

/// The operand of a CSR instruction: the 5-bit rs1 field itself for the
/// immediate forms, the value of register rs1 otherwise.
pub open spec fn spec_csr_operand(s: MachineState, op: OpCode, w: u32) -> u32 {
    match op {
        OpCode::Csrrwi | OpCode::Csrrsi | OpCode::Csrrci => rs1_of(w),
        _ => s.x[rs1_of(w) as int],
    }
}

/// The new CSR value a CSR instruction computes from the old value `t`.
pub open spec fn spec_csr_new(op: OpCode, t: u32, operand: u32) -> u32 {
    match op {
        OpCode::Csrrw | OpCode::Csrrwi => operand,
        OpCode::Csrrs | OpCode::Csrrsi => t | operand,
        OpCode::Csrrc | OpCode::Csrrci => t & !operand,
        _ => 0,
    }
}

/// Whether a CSR instruction writes the CSR at all: the write forms always
/// do; the set and clear forms do not when the rs1 field is x0 (or the
/// immediate is zero), following the ISA rule.
pub open spec fn spec_csr_writes(op: OpCode, w: u32) -> bool {
    match op {
        OpCode::Csrrw | OpCode::Csrrwi => true,
        _ => rs1_of(w) != 0,
    }
}

/// State after a load instruction, or the fault it raises.
pub open spec fn spec_load(s: MachineState, w: u32, width: u32, sign_extend: bool) -> Result<
    MachineState,
    CpuError,
> {
    let ea = s.x[rs1_of(w) as int].wrapping_add(imm_i_of(w));
    match spec_load_result(s.mem, ea, width, sign_extend) {
        Ok(v) => Ok(
            MachineState {
                x: spec_write_x(s.x, rd_of(w) as int, v),
                pc: s.pc.wrapping_add(4),
                csr: s.csr,
                mem: s.mem,
            },
        ),
        Err(e) => Err(CpuError::Load(e)),
    }
}

/// State after a store instruction, or the fault it raises.
pub open spec fn spec_store(s: MachineState, w: u32, width: u32) -> Result<
    MachineState,
    CpuError,
> {
    let ea = s.x[rs1_of(w) as int].wrapping_add(imm_s_of(w));
    match spec_store_result(s.mem, ea, s.x[rs2_of(w) as int], width) {
        Ok(m) => Ok(
            MachineState { x: s.x, pc: s.pc.wrapping_add(4), csr: s.csr, mem: m },
        ),
        Err(e) => Err(CpuError::Store(e)),
    }
}

/// State after a CSR instruction: the old CSR value is captured into rd
/// before the CSR is (possibly) written.
pub open spec fn spec_csr_step(s: MachineState, op: OpCode, w: u32) -> MachineState {
    let a = csr_of(w) as int;
    let t = s.csr[a];
    let newv = spec_csr_new(op, t, spec_csr_operand(s, op, w));
    MachineState {
        x: spec_write_x(s.x, rd_of(w) as int, t),
        pc: s.pc.wrapping_add(4),
        csr: if spec_csr_writes(op, w) {
            s.csr.update(a, newv)
        } else {
            s.csr
        },
        mem: s.mem,
    }
}

/// The state after executing the decoded instruction `op` with raw word `w`,
/// or the fault its data access raises. The program counter advances by 4
/// unless the instruction sets it itself.
pub open spec fn spec_execute(s: MachineState, op: OpCode, w: u32) -> Result<
    MachineState,
    CpuError,
> {
    match op {
        OpCode::Lui => Ok(
            MachineState {
                x: spec_write_x(s.x, rd_of(w) as int, imm_u_of(w)),
                pc: s.pc.wrapping_add(4),
                csr: s.csr,
                mem: s.mem,
            },
        ),
        OpCode::Auipc => Ok(
            MachineState {
                x: spec_write_x(s.x, rd_of(w) as int, s.pc.wrapping_add(imm_u_of(w))),
                pc: s.pc.wrapping_add(4),
                csr: s.csr,
                mem: s.mem,
            },
        ),
        OpCode::Jal => Ok(
            MachineState {
                x: spec_write_x(s.x, rd_of(w) as int, s.pc.wrapping_add(4)),
                pc: s.pc.wrapping_add(imm_j_of(w)),
                csr: s.csr,
                mem: s.mem,
            },
        ),
        OpCode::Jalr => Ok(
            MachineState {
                x: spec_write_x(s.x, rd_of(w) as int, s.pc.wrapping_add(4)),
                pc: s.x[rs1_of(w) as int].wrapping_add(imm_i_of(w)) & !1u32,
                csr: s.csr,
                mem: s.mem,
            },
        ),
        OpCode::Beq | OpCode::Bne | OpCode::Blt | OpCode::Bge | OpCode::Bltu | OpCode::Bgeu => Ok(
            MachineState {
                x: s.x,
                pc: if spec_branch_taken(op, s.x[rs1_of(w) as int], s.x[rs2_of(w) as int]) {
                    s.pc.wrapping_add(imm_b_of(w))
                } else {
                    s.pc.wrapping_add(4)
                },
                csr: s.csr,
                mem: s.mem,
            },
        ),
        OpCode::Lb => spec_load(s, w, 1, true),
        OpCode::Lh => spec_load(s, w, 2, true),
        OpCode::Lw => spec_load(s, w, 4, false),
        OpCode::Lbu => spec_load(s, w, 1, false),
        OpCode::Lhu => spec_load(s, w, 2, false),
        OpCode::Sb => spec_store(s, w, 1),
        OpCode::Sh => spec_store(s, w, 2),
        OpCode::Sw => spec_store(s, w, 4),
        OpCode::Csrrw | OpCode::Csrrs | OpCode::Csrrc | OpCode::Csrrwi | OpCode::Csrrsi
            | OpCode::Csrrci => Ok(spec_csr_step(s, op, w)),
    }
}

/// One architectural step: fetch the word at pc, decode it, execute it.
/// A fetch fault surfaces as a load error, an unrecognized word as a decode
/// error; either leaves the state unchanged.
pub open spec fn spec_step(s: MachineState) -> Result<MachineState, CpuError> {
    match spec_read32(s.mem, s.pc) {
        Ok(w) => match spec_decode(w) {
            Some(op) => spec_execute(s, op, w),
            None => Err(CpuError::Decode(DecodeError::InvalidOpCode)),
        },
        Err(e) => Err(CpuError::Load(e)),
    }
}

/// The reset state over a memory image: registers, pc and CSRs all zero.
pub open spec fn spec_reset(mem: Seq<u8>) -> MachineState {
    MachineState {
        x: Seq::new(32, |i: int| 0u32),
        pc: 0u32,
        csr: Seq::new(4096, |i: int| 0u32),
        mem,
    }
}

/// The machine after `n` architectural steps from `s0`, or the first fault
/// reached within those steps.
pub open spec fn spec_run(s0: MachineState, n: nat) -> Result<MachineState, CpuError>
    decreases n,
{
    if n == 0 {
        Ok(s0)
    } else {
        match spec_run(s0, (n - 1) as nat) {
            Ok(s) => spec_step(s),
            Err(e) => Err(e),
        }
    }
}

} // verus!
