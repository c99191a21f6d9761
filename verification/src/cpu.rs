//! The execution engine: one `cycle` call fetches, decodes, processes and
//! applies a single instruction, specified against `model::spec_step`.
//!
//! Processing is split in two stages. `process` reads the current state and
//! produces an `Effect`, the full description of the instruction's visible
//! change; `apply` commits it. All inputs are read before any write, so a
//! faulting cycle leaves the architectural state untouched.

use vstd::prelude::*;

use crate::bus::BusMemory;
use crate::bus::BusRead;
use crate::bus::BusReadException;
use crate::bus::BusWrite;
use crate::bus::BusWriteException;
use crate::bus::spec_read32;
use crate::csr::CSR_ADDR_SPACE;
use crate::csr::Csr;
use crate::csr::zero_filled;
use crate::instructions::DecodeError;
use crate::instructions::Decoder;
use crate::instructions::Format;
use crate::instructions::Instruction;
use crate::instructions::OpCode;
use crate::instructions::RegisterIdx;
use crate::instructions::csr_of;
use crate::instructions::imm_b_of;
use crate::instructions::imm_i_of;
use crate::instructions::imm_s_of;
use crate::instructions::is_csr_op;
use crate::instructions::rd_of;
use crate::instructions::rs1_of;
use crate::instructions::rs2_of;
use crate::instructions::spec_decode;
use crate::instructions::spec_format;
use crate::model::MachineState;
use crate::model::spec_branch_taken;
use crate::model::spec_csr_new;
use crate::model::spec_csr_operand;
use crate::model::spec_csr_writes;
use crate::model::spec_execute;
use crate::model::spec_load_result;
use crate::model::spec_reset;
use crate::model::spec_step;
use crate::model::spec_store_result;
use crate::model::spec_write_x;
use crate::model::to_signed;

verus! {

/// The CPU: registers, CSR file, cycle statistics, decoder and the bus it
/// fetches from and loads and stores through.
pub struct Cpu<B> {
    _mode: Mode,
    bus: B,
    stats: Stats,
    r: Registers,
    csr: Csr,
    decoder: Decoder,
}

/// Privilege mode. Present as state only; no transitions happen here.
#[derive(Debug, Clone, Copy, PartialEq, Eq, Structural)]
enum Mode {
    /// Machine mode.
    M,
    /// User mode.
    #[allow(unused)]
    U,
}

/// Running counters the host may inspect.
#[derive(Debug)]
pub struct Stats {
    pub cycle_counter: u64,
}

/// The register file and program counter.
#[derive(Debug)]
struct Registers {
    /// Program counter.
    pc: u32,
    x: Vec<u32>,
}

/// The error a cycle surfaces: a fetch or load fault, a store fault, or an
/// unrecognizable instruction word.
#[derive(Debug, Clone, Copy, PartialEq, Eq, Structural)]
pub enum CpuError {
    Load(BusReadException),
    Store(BusWriteException),
    Decode(DecodeError),
}

/// The fault message a `CpuError` carries to the host.
pub open spec fn spec_message(e: CpuError) -> Seq<char> {
    match e {
        CpuError::Load(BusReadException::LoadAddressMisaligned)
            => "load error: load address misaligned"@,
        CpuError::Load(BusReadException::LoadAccessFault) => "load error: load access fault"@,
        CpuError::Store(BusWriteException::StoreAddressMisaligned)
            => "store error: store address misaligned"@,
        CpuError::Store(BusWriteException::StoreAccessFault) => "store error: store access fault"@,
        CpuError::Decode(DecodeError::InvalidOpCode) => "decode error: invalid opcode"@,
    }
}

impl CpuError {
    /// The fault spelled out for the host, one fixed line per fault kind.
    pub fn describe(&self) -> (r: String)
        ensures
            r@ == spec_message(*self),
    {
        match *self {
            CpuError::Load(BusReadException::LoadAddressMisaligned)
                => "load error: load address misaligned".to_owned(),
            CpuError::Load(BusReadException::LoadAccessFault)
                => "load error: load access fault".to_owned(),
            CpuError::Store(BusWriteException::StoreAddressMisaligned)
                => "store error: store address misaligned".to_owned(),
            CpuError::Store(BusWriteException::StoreAccessFault)
                => "store error: store access fault".to_owned(),
            CpuError::Decode(DecodeError::InvalidOpCode)
                => "decode error: invalid opcode".to_owned(),
        }
    }
}

/// Every architecturally observable change one instruction may cause,
/// produced by `process` and committed by `apply` within the same cycle.
/// Immediate fields hold the sign-extended 32-bit pattern.
enum Effect {
    UpdateRegister { rd: RegisterIdx, imm: u32 },
    Jal { rd: RegisterIdx, pc: u32, imm: u32 },
    Jalr { rd: RegisterIdx, pc: u32, offset: u32, base: u32 },
    Branch { do_branch: bool, pc: u32, imm: u32 },
    Load { effective_addr: u32, rd: RegisterIdx, width: u32, sign_extend: bool },
    Store { effective_addr: u32, rs2: u32, width: u32 },
    Csr { rd: RegisterIdx, rd_value: u32, csr: RegisterIdx, csr_value: u32, write_csr: bool },
}

/// Field bounds `apply` relies on: register indexes below 32, CSR addresses
/// below 4096, access widths among 1, 2 and 4.
spec fn effect_wf(e: Effect) -> bool {
    match e {
        Effect::UpdateRegister { rd, .. } => rd < 32,
        Effect::Jal { rd, .. } => rd < 32,
        Effect::Jalr { rd, .. } => rd < 32,
        Effect::Branch { .. } => true,
        Effect::Load { rd, width, .. } => rd < 32 && (width == 1 || width == 2 || width == 4),
        Effect::Store { width, .. } => width == 1 || width == 2 || width == 4,
        Effect::Csr { rd, csr, .. } => rd < 32 && csr < CSR_ADDR_SPACE,
    }
}

/// What committing an effect does to a machine state: the new state, or the
/// bus fault that stops the commit before any register or memory write.
spec fn spec_apply(s: MachineState, e: Effect) -> Result<MachineState, CpuError> {
    match e {
        Effect::UpdateRegister { rd, imm } => Ok(
            MachineState {
                x: spec_write_x(s.x, rd as int, imm),
                pc: s.pc.wrapping_add(4),
                csr: s.csr,
                mem: s.mem,
            },
        ),
        Effect::Jal { rd, pc, imm } => Ok(
            MachineState {
                x: spec_write_x(s.x, rd as int, pc.wrapping_add(4)),
                pc: pc.wrapping_add(imm),
                csr: s.csr,
                mem: s.mem,
            },
        ),
        Effect::Jalr { rd, pc, offset, base } => Ok(
            MachineState {
                x: spec_write_x(s.x, rd as int, pc.wrapping_add(4)),
                pc: base.wrapping_add(offset) & !1u32,
                csr: s.csr,
                mem: s.mem,
            },
        ),
        Effect::Branch { do_branch, pc, imm } => Ok(
            MachineState {
                x: s.x,
                pc: if do_branch {
                    pc.wrapping_add(imm)
                } else {
                    s.pc.wrapping_add(4)
                },
                csr: s.csr,
                mem: s.mem,
            },
        ),
        Effect::Load { effective_addr, rd, width, sign_extend } => {
            match spec_load_result(s.mem, effective_addr, width, sign_extend) {
                Ok(v) => Ok(
                    MachineState {
                        x: spec_write_x(s.x, rd as int, v),
                        pc: s.pc.wrapping_add(4),
                        csr: s.csr,
                        mem: s.mem,
                    },
                ),
                Err(err) => Err(CpuError::Load(err)),
            }
        },
        Effect::Store { effective_addr, rs2, width } => {
            match spec_store_result(s.mem, effective_addr, rs2, width) {
                Ok(m) => Ok(
                    MachineState { x: s.x, pc: s.pc.wrapping_add(4), csr: s.csr, mem: m },
                ),
                Err(err) => Err(CpuError::Store(err)),
            }
        },
        Effect::Csr { rd, rd_value, csr, csr_value, write_csr } => Ok(
            MachineState {
                x: spec_write_x(s.x, rd as int, rd_value),
                pc: s.pc.wrapping_add(4),
                csr: if write_csr {
                    s.csr.update(csr as int, csr_value)
                } else {
                    s.csr
                },
                mem: s.mem,
            },
        ),
    }
}

impl<B: BusMemory> View for Cpu<B> {
    type V = MachineState;

    closed spec fn view(&self) -> MachineState {
        MachineState { x: self.r.x@, pc: self.r.pc, csr: self.csr@, mem: self.bus.mem() }
    }
}

impl<B> Cpu<B> {
    /// Structural well-formedness: 32 registers with x0 zero, and a full
    /// CSR file.
    pub closed spec fn wf(&self) -> bool {
        &&& self.r.x@.len() == 32
        &&& self.r.x@[0] == 0
        &&& self.csr.wf()
    }

    /// The number of `cycle` calls made so far, wrapping at 64 bits.
    pub closed spec fn counter(&self) -> u64 {
        self.stats.cycle_counter
    }

    /// The running statistics.
    pub fn state(&self) -> (r: &Stats)
        ensures
            r.cycle_counter == self.counter(),
    {
        &self.stats
    }
}

impl<B: BusMemory> Cpu<B> {
    /// Build a CPU over `bus` in the reset state: all registers, CSRs and
    /// the program counter zero, the cycle counter at zero.
    pub fn new(bus: B) -> (r: Cpu<B>)
        ensures
            r.wf(),
            r@ == spec_reset(bus.mem()),
            r.counter() == 0,
    {
        let c = Cpu {
            _mode: Mode::M,
            bus,
            stats: Stats { cycle_counter: 0 },
            r: Registers { pc: 0, x: zero_filled(32) },
            csr: Csr::new(),
            decoder: Decoder::new(),
        };
        proof {
            assert(c@.x =~= spec_reset(c@.mem).x);
            assert(c@.csr =~= spec_reset(c@.mem).csr);
            assert(c@ =~= spec_reset(c@.mem));
        }
        c
    }

    /// The current program counter.
    pub fn pc(&self) -> (r: u32)
        ensures
            r == self@.pc,
    {
        self.r.pc
    }

    /// Read the CSR at `addr`.
    pub fn read_csr(&self, addr: RegisterIdx) -> (r: u32)
        requires
            self.wf(),
            addr < CSR_ADDR_SPACE,
        ensures
            r == self@.csr[addr as int],
    {
        self.csr.read(addr)
    }

    /// Write `value` to the CSR at `addr`, as a host would to prepare or
    /// patch machine state between cycles.
    pub fn write_csr(&mut self, addr: RegisterIdx, value: u32)
        requires
            old(self).wf(),
            addr < CSR_ADDR_SPACE,
        ensures
            final (self).wf(),
            final (self)@.csr == old(self)@.csr.update(addr as int, value),
            final (self)@.x == old(self)@.x,
            final (self)@.pc == old(self)@.pc,
            final (self)@.mem == old(self)@.mem,
            final (self).counter() == old(self).counter(),
    {
        self.csr.write(addr, value);
    }

    /// The bus the CPU owns, for the host to inspect memory.
    pub fn bus(&self) -> (r: &B)
        ensures
            r.mem() == self@.mem,
    {
        &self.bus
    }
}

impl<B: BusRead + BusWrite> Cpu<B> {
    /// Emulate one CPU clock cycle: count it, fetch and decode the word at
    /// pc, process it into an effect and apply the effect. The resulting
    /// state is exactly what `spec_step` says; a cycle that errs changes
    /// nothing but the cycle counter.
    pub fn cycle(&mut self) -> (res: Result<(), CpuError>)
        requires
            old(self).wf(),
        ensures
            final (self).wf(),
            final (self).counter() == old(self).counter().wrapping_add(1),
            match res {
                Ok(()) => spec_step(old(self)@) == Ok::<MachineState, CpuError>(final (self)@),
                Err(e) => spec_step(old(self)@) == Err::<MachineState, CpuError>(e)
                    && final (self)@ == old(self)@,
            },
    {
        self.stats.cycle_counter = self.stats.cycle_counter.wrapping_add(1);

        let ir = match self.next_instruction() {
            Ok(ir) => ir,
            Err(e) => {
                return Err(e);
            },
        };
        let effect = match self.process(ir) {
            Ok(effect) => effect,
            Err(e) => {
                return Err(e);
            },
        };
        self.apply(effect)
    }

    /// Read and decode the instruction word at pc.
    fn next_instruction(&self) -> (r: Result<Instruction, CpuError>)
        requires
            self.wf(),
        ensures
            match r {
                Ok(ir) => ir.wf() && spec_read32(self@.mem, self@.pc) == Ok::<
                    u32,
                    BusReadException,
                >(ir.ir),
                Err(e) => match e {
                    CpuError::Load(b) => spec_read32(self@.mem, self@.pc) == Err::<
                        u32,
                        BusReadException,
                    >(b),
                    CpuError::Decode(d) => d == DecodeError::InvalidOpCode && (spec_read32(
                        self@.mem,
                        self@.pc,
                    ) matches Ok(w) && spec_decode(w) is None),
                    CpuError::Store(_) => false,
                },
            },
    {
        let w = match self.bus.read32(self.r.pc) {
            Ok(w) => w,
            Err(e) => {
                return Err(CpuError::Load(e));
            },
        };
        match self.decoder.try_decode(w) {
            Ok(ir) => Ok(ir),
            Err(e) => Err(CpuError::Decode(e)),
        }
    }

    /// Process an instruction into the effect it has on the current state.
    /// The returned effect, applied to this state, is exactly what
    /// `spec_execute` says of the instruction.
    fn process(&self, ir: Instruction) -> (r: Result<Effect, CpuError>)
        requires
            self.wf(),
            ir.wf(),
        ensures
            match r {
                Ok(e) => effect_wf(e) && spec_apply(self@, e) == spec_execute(
                    self@,
                    ir.op_code,
                    ir.ir,
                ),
                Err(_) => false,
            },
    {
        let effect = match ir.op_code {
            OpCode::Lui => Effect::UpdateRegister { rd: ir.rd(), imm: ir.imm() },
            OpCode::Auipc => Effect::UpdateRegister {
                rd: ir.rd(),
                imm: ir.imm().wrapping_add(self.r.pc),
            },
            OpCode::Jal => Effect::Jal {
                rd: ir.rd(),
                imm: #[verifier::truncate] (ir.imm_signed() as u32),
                pc: self.r.pc,
            },
            OpCode::Jalr => Effect::Jalr {
                rd: ir.rd(),
                pc: self.r.pc,
                offset: #[verifier::truncate] (ir.imm_signed() as u32),
                base: self.read(ir.rs1()),
            },
            OpCode::Beq | OpCode::Bne | OpCode::Bltu | OpCode::Bgeu => self.branch_with_unsigned(
                ir,
            ),
            OpCode::Blt | OpCode::Bge => self.branch_with_signed(ir),
            OpCode::Lb => self.load_with(1, true, ir),
            OpCode::Lh => self.load_with(2, true, ir),
            OpCode::Lw => self.load_with(4, false, ir),
            OpCode::Lbu => self.load_with(1, false, ir),
            OpCode::Lhu => self.load_with(2, false, ir),
            OpCode::Sb => self.store_with(1, ir),
            OpCode::Sh => self.store_with(2, ir),
            OpCode::Sw => self.store_with(4, ir),
            OpCode::Csrrw | OpCode::Csrrs | OpCode::Csrrc => self.csr_with(ir, false),
            OpCode::Csrrwi | OpCode::Csrrsi | OpCode::Csrrci => self.csr_with(ir, true),
        };
        Ok(effect)
    }

    /// Commit an effect: perform its data access if any, update the register
    /// and CSR files, and advance pc unless the effect set it itself.
    /// A bus fault stops the commit with no register or memory change.
    fn apply(&mut self, effect: Effect) -> (r: Result<(), CpuError>)
        requires
            old(self).wf(),
            effect_wf(effect),
        ensures
            final (self).wf(),
            final (self).counter() == old(self).counter(),
            match spec_apply(old(self)@, effect) {
                Ok(s2) => r is Ok && final (self)@ == s2,
                Err(e) => r == Err::<(), CpuError>(e) && final (self)@ == old(self)@,
            },
    {
        let do_inc = match effect {
            Effect::UpdateRegister { rd, imm } => {
                self.write(rd, imm);
                true
            },
            Effect::Jal { rd, pc, imm } => {
                self.write(rd, pc.wrapping_add(4));
                self.r.pc = pc.wrapping_add(imm);
                false
            },
            Effect::Jalr { rd, pc, offset, base } => {
                self.write(rd, pc.wrapping_add(4));
                let target = base.wrapping_add(offset);
                self.r.pc = target & !1u32;
                false
            },
            Effect::Branch { do_branch, pc, imm } => {
                if do_branch {
                    self.r.pc = pc.wrapping_add(imm);
                    false
                } else {
                    true
                }
            },
            Effect::Load { effective_addr, rd, width, sign_extend } => {
                let v = if width == 1 {
                    match self.bus.read8(effective_addr) {
                        Ok(b) => {
                            if sign_extend && b >= 0x80 {
                                0xffff_ff00u32 + b as u32
                            } else {
                                b as u32
                            }
                        },
                        Err(e) => {
                            return Err(CpuError::Load(e));
                        },
                    }
                } else if width == 2 {
                    match self.bus.read16(effective_addr) {
                        Ok(h) => {
                            if sign_extend && h >= 0x8000 {
                                0xffff_0000u32 + h as u32
                            } else {
                                h as u32
                            }
                        },
                        Err(e) => {
                            return Err(CpuError::Load(e));
                        },
                    }
                } else {
                    match self.bus.read32(effective_addr) {
                        Ok(v) => v,
                        Err(e) => {
                            return Err(CpuError::Load(e));
                        },
                    }
                };
                self.write(rd, v);
                true
            },
            Effect::Store { effective_addr, rs2, width } => {
                let res = if width == 1 {
                    self.bus.write8(effective_addr, (rs2 % 0x100) as u8)
                } else if width == 2 {
                    self.bus.write16(effective_addr, (rs2 % 0x10000) as u16)
                } else {
                    self.bus.write32(effective_addr, rs2)
                };
                match res {
                    Ok(_) => true,
                    Err(e) => {
                        return Err(CpuError::Store(e));
                    },
                }
            },
            Effect::Csr { rd, rd_value, csr, csr_value, write_csr } => {
                self.write(rd, rd_value);
                if write_csr {
                    self.csr.write(csr, csr_value);
                }
                true
            },
        };

        if do_inc {
            self.r.pc = self.r.pc.wrapping_add(4);
        }
        Ok(())
    }

    /// Build the branch effect for BEQ, BNE, BLTU and BGEU, comparing the
    /// source registers as unsigned values.
    fn branch_with_unsigned(&self, ir: Instruction) -> (e: Effect)
        requires
            self.wf(),
            ir.wf(),
            ir.op_code == OpCode::Beq || ir.op_code == OpCode::Bne || ir.op_code == OpCode::Bltu
                || ir.op_code == OpCode::Bgeu,
        ensures
            e == (Effect::Branch {
                do_branch: spec_branch_taken(
                    ir.op_code,
                    self@.x[rs1_of(ir.ir) as int],
                    self@.x[rs2_of(ir.ir) as int],
                ),
                pc: self@.pc,
                imm: imm_b_of(ir.ir),
            }),
    {
        let r1 = self.read(ir.rs1());
        let r2 = self.read(ir.rs2());
        let do_branch = match ir.op_code {
            OpCode::Beq => r1 == r2,
            OpCode::Bne => r1 != r2,
            OpCode::Bltu => r1 < r2,
            OpCode::Bgeu => r1 >= r2,
            _ => false,
        };
        Effect::Branch {
            do_branch,
            pc: self.r.pc,
            imm: #[verifier::truncate] (ir.imm_signed() as u32),
        }
    }

    /// Build the branch effect for BLT and BGE, comparing the source
    /// registers as two's-complement values.
    fn branch_with_signed(&self, ir: Instruction) -> (e: Effect)
        requires
            self.wf(),
            ir.wf(),
            ir.op_code == OpCode::Blt || ir.op_code == OpCode::Bge,
        ensures
            e == (Effect::Branch {
                do_branch: spec_branch_taken(
                    ir.op_code,
                    self@.x[rs1_of(ir.ir) as int],
                    self@.x[rs2_of(ir.ir) as int],
                ),
                pc: self@.pc,
                imm: imm_b_of(ir.ir),
            }),
    {
        let r1 = self.read(ir.rs1());
        let r2 = self.read(ir.rs2());
        let lt = signed_lt(r1, r2);
        let do_branch = match ir.op_code {
            OpCode::Blt => lt,
            OpCode::Bge => !lt,
            _ => false,
        };
        Effect::Branch {
            do_branch,
            pc: self.r.pc,
            imm: #[verifier::truncate] (ir.imm_signed() as u32),
        }
    }

    /// Build the load effect: the effective address is rs1 plus the
    /// sign-extended I-immediate, modulo 2^32.
    fn load_with(&self, width: u32, sign_extend: bool, ir: Instruction) -> (e: Effect)
        requires
            self.wf(),
            ir.wf(),
            spec_format(ir.op_code) == Format::I,
            width == 1 || width == 2 || width == 4,
        ensures
            effect_wf(e),
            e == (Effect::Load {
                effective_addr: self@.x[rs1_of(ir.ir) as int].wrapping_add(imm_i_of(ir.ir)),
                rd: rd_of(ir.ir) as usize,
                width,
                sign_extend,
            }),
    {
        let base = self.read(ir.rs1());
        let effective_addr = base.wrapping_add(#[verifier::truncate] (ir.imm_signed() as u32));
        Effect::Load { effective_addr, rd: ir.rd(), width, sign_extend }
    }

    /// Build the store effect: the effective address is rs1 plus the
    /// sign-extended S-immediate, modulo 2^32.
    fn store_with(&self, width: u32, ir: Instruction) -> (e: Effect)
        requires
            self.wf(),
            ir.wf(),
            spec_format(ir.op_code) == Format::S,
        ensures
            e == (Effect::Store {
                effective_addr: self@.x[rs1_of(ir.ir) as int].wrapping_add(imm_s_of(ir.ir)),
                rs2: self@.x[rs2_of(ir.ir) as int],
                width,
            }),
    {
        let base = self.read(ir.rs1());
        let effective_addr = base.wrapping_add(#[verifier::truncate] (ir.imm_signed() as u32));
        Effect::Store { effective_addr, rs2: self.read(ir.rs2()), width }
    }

    /// Build the CSR effect: capture the old CSR value for rd, compute the
    /// new CSR value from the register or immediate operand, and record
    /// whether the CSR is written at all (the set and clear forms leave it
    /// untouched when the rs1 field is zero).
    fn csr_with(&self, ir: Instruction, imm: bool) -> (e: Effect)
        requires
            self.wf(),
            ir.wf(),
            is_csr_op(ir.op_code),
            imm == (ir.op_code == OpCode::Csrrwi || ir.op_code == OpCode::Csrrsi || ir.op_code
                == OpCode::Csrrci),
        ensures
            effect_wf(e),
            e == (Effect::Csr {
                rd: rd_of(ir.ir) as usize,
                rd_value: self@.csr[csr_of(ir.ir) as int],
                csr: csr_of(ir.ir) as usize,
                csr_value: spec_csr_new(
                    ir.op_code,
                    self@.csr[csr_of(ir.ir) as int],
                    spec_csr_operand(self@, ir.op_code, ir.ir),
                ),
                write_csr: spec_csr_writes(ir.op_code, ir.ir),
            }),
    {
        let csr_addr = ir.csr();
        let csr_val = self.csr.read(csr_addr);
        let rs1 = if imm {
            ir.rs1() as u32
        } else {
            self.read(ir.rs1())
        };
        let new_csr_val = match ir.op_code {
            OpCode::Csrrw | OpCode::Csrrwi => rs1,
            OpCode::Csrrs | OpCode::Csrrsi => csr_val | rs1,
            OpCode::Csrrc | OpCode::Csrrci => csr_val & !rs1,
            _ => 0,
        };
        let write_csr = match ir.op_code {
            OpCode::Csrrw | OpCode::Csrrwi => true,
            _ => ir.rs1() != 0,
        };
        Effect::Csr { rd: ir.rd(), rd_value: csr_val, csr: csr_addr, csr_value: new_csr_val,
            write_csr }
    }

    /// Write `v` to register `rd`; writes to x0 are silently ignored.
    pub fn write(&mut self, rd: RegisterIdx, v: u32)
        requires
            old(self).wf(),
            rd < 32,
        ensures
            final (self).wf(),
            final (self)@.x == spec_write_x(old(self)@.x, rd as int, v),
            final (self)@.pc == old(self)@.pc,
            final (self)@.csr == old(self)@.csr,
            final (self)@.mem == old(self)@.mem,
            final (self).counter() == old(self).counter(),
    {
        if rd != 0 {
            self.r.x.set(rd, v);
        }
    }

    /// Read register `rs`; x0 reads as zero by the well-formedness
    /// invariant.
    pub fn read(&self, rs: RegisterIdx) -> (r: u32)
        requires
            self.wf(),
            rs < 32,
        ensures
            r == self@.x[rs as int],
    {
        self.r.x[rs]
    }
}

/// Compare two 32-bit patterns as two's-complement values.
fn signed_lt(a: u32, b: u32) -> (r: bool)
    ensures
        r == (to_signed(a) < to_signed(b)),
{
    if (a >= 0x8000_0000) == (b >= 0x8000_0000) {
        a < b
    } else {
        a >= 0x8000_0000
    }
}

} // verus!
