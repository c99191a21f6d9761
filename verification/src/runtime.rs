//! The emulator runtime: builds a CPU over a bus and cycles it until the
//! first fault, which it reports as a runtime error.

use vstd::prelude::*;

use crate::bus::BusRead;
use crate::bus::BusWrite;
use crate::cpu::Cpu;
use crate::cpu::CpuError;
use crate::cpu::spec_message;
use crate::model::MachineState;
use crate::model::spec_reset;
use crate::model::spec_run;

verus! {

/// The error `run` stops with.
#[derive(Debug, PartialEq)]
pub enum RuntimeError {
    Internal { message: String },
}

/// Runtime represents the emulator runtime environment.
pub struct Runtime {}

impl Runtime {
    /// Construct a `Runtime`.
    pub fn new() -> (r: Self) {
        Runtime {  }
    }

    /// Entrypoint to run the emulator: start a CPU over `bus` in the reset
    /// state and cycle it until the first fault, whose description is the
    /// reported message. The runtime stops a fault-free machine only at its
    /// cycle limit of 2^64 - 1 retired instructions and then reports
    /// success: the architectural semantics reached no fault up to there.
    pub fn run<B: BusRead + BusWrite>(self, bus: B) -> (r: Result<(), RuntimeError>)
        ensures
            match r {
                Ok(_) => spec_run(spec_reset(bus.mem()), u64::MAX as nat) is Ok,
                Err(e) => match e {
                    RuntimeError::Internal { message } => exists|n: nat|
                        {
                            &&& #[trigger] spec_run(spec_reset(bus.mem()), n) matches Err(err)
                            &&& message@ == spec_message(err)
                        },
                },
            },
    {
        let ghost s0 = spec_reset(bus.mem());
        let mut cpu = Cpu::new(bus);
        let mut remaining: u64 = u64::MAX;

        #[verifier::loop_isolation(false)]
        while remaining > 0
            invariant
                cpu.wf(),
                spec_run(s0, (u64::MAX - remaining) as nat) == Ok::<MachineState, CpuError>(
                    cpu@,
                ),
            decreases remaining,
        {
            let ghost steps = (u64::MAX - remaining) as nat;
            if let Err(err) = cpu.cycle() {
                let message = err.describe();
                proof {
                    let w: nat = steps + 1;
                    assert(spec_run(s0, w) == Err::<MachineState, CpuError>(err));
                    assert(exists|n: nat|
                        {
                            &&& #[trigger] spec_run(s0, n) matches Err(e)
                            &&& message@ == spec_message(e)
                        });
                }
                return Err(RuntimeError::Internal { message });
            }
            proof {
                assert(spec_run(s0, steps + 1) == Ok::<MachineState, CpuError>(cpu@));
            }
            let _ = cpu.state();
            remaining = remaining - 1;
        }
        Ok(())
    }
}

} // verus!
