//! A single-hart RV32I + Zicsr interpreter over a flat byte-addressable bus.
//!
//! The crate is organised as the hardware is: `bus` gives byte-level memory
//! access with alignment and range faults, `instructions` decodes 32-bit
//! words into typed instructions, `csr` holds the control-and-status
//! register file, and `cpu` ties them together with a `cycle` operation that
//! retires one instruction per call. The module `model` states the
//! architectural semantics as a pure function on machine states; every
//! public operation is specified against it, and `laws` proves the
//! architectural invariants and round-trip properties once and for all.

pub mod bus;
pub mod cpu;
pub mod csr;
pub mod instructions;
pub mod laws;
pub mod model;
pub mod runtime;
