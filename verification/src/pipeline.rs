//! The kernel-readiness state machine.
//!
//! Kernel compilation is asynchronous: the loader is polled once per
//! orchestrator tick with the compile status of each kernel and decides what
//! this tick may do. No simulation dispatch happens before the kernels are
//! ready; a compile failure is fatal; once the update pass is reachable the
//! loader alternates the buffer parity forever.

use crate::error::EngineError;
use vstd::prelude::*;

verus! {

/// Compile status of one kernel, as reported by the host's compiler.
#[derive(Clone, Copy, Debug, PartialEq, Eq, Structural)]
pub enum KernelStatus {
    /// Still compiling.
    Pending,
    /// Compiled and ready to dispatch.
    Ready,
    /// Compilation failed; the host holds the diagnostic.
    Failed,
}

/// The loader's state.
#[derive(Clone, Copy, Debug, PartialEq, Eq, Structural)]
pub enum PipelineState {
    /// Waiting for the init kernel to compile; nothing may be dispatched.
    Loading,
    /// The grid has been seeded; waiting for the update and counter-reset
    /// kernels to compile.
    Init,
    /// Every tick advances one full generation; `parity` selects which
    /// physical buffer pair is current this tick.
    Update {
        /// Buffer parity of the tick this state was entered for.
        parity: bool,
    },
}

/// What the orchestrator may do this tick.
#[derive(Clone, Copy, Debug, PartialEq, Eq, Structural)]
pub enum TickAction {
    /// Nothing: a kernel is still compiling.
    Idle,
    /// Dispatch the one-time seeding pass; happens exactly on the
    /// transition into [`PipelineState::Init`].
    SeedInit,
    /// Dispatch one full generation on the pair selected by `parity`.
    Generation {
        /// Buffer parity of this generation: when set, pair A is current.
        parity: bool,
    },
}

/// One poll of the loader: the next state and this tick's action, or the
/// fatal compile error.
///
/// While `Loading`, only the init kernel's status matters; its readiness
/// emits the one seeding dispatch. While `Init`, the update and reset
/// kernels must both be ready before the first generation runs, which runs
/// with parity set. From then on the parity alternates unconditionally.
pub open spec fn spec_poll(
    state: PipelineState,
    init_status: KernelStatus,
    update_status: KernelStatus,
    count_status: KernelStatus,
) -> Result<(PipelineState, TickAction), EngineError> {
    match state {
        PipelineState::Loading => {
            if init_status is Failed {
                Err(EngineError::KernelCompileFailed)
            } else if init_status is Ready {
                Ok((PipelineState::Init, TickAction::SeedInit))
            } else {
                Ok((PipelineState::Loading, TickAction::Idle))
            }
        },
        PipelineState::Init => {
            if update_status is Failed || count_status is Failed {
                Err(EngineError::KernelCompileFailed)
            } else if update_status is Ready && count_status is Ready {
                Ok(
                    (
                        PipelineState::Update { parity: true },
                        TickAction::Generation { parity: true },
                    ),
                )
            } else {
                Ok((PipelineState::Init, TickAction::Idle))
            }
        },
        PipelineState::Update { parity } => {
            Ok(
                (
                    PipelineState::Update { parity: !parity },
                    TickAction::Generation { parity: !parity },
                ),
            )
        },
    }
}

/// Gates dispatch until the kernels are ready, then drives the alternating
/// buffer selection forever after.
pub struct PipelineLoader {
    /// The loader's current state.
    pub state: PipelineState,
}

impl PipelineLoader {
    /// A fresh loader, before any kernel has compiled.
    pub fn new() -> (l: PipelineLoader)
        ensures
            l.state == PipelineState::Loading,
    {
        PipelineLoader { state: PipelineState::Loading }
    }

    /// Polls the loader once with the kernels' compile statuses: steps the
    /// state machine and returns this tick's action, or the fatal compile
    /// error, leaving the state unchanged on failure.
    pub fn poll(
        &mut self,
        init_status: KernelStatus,
        update_status: KernelStatus,
        count_status: KernelStatus,
    ) -> (r: Result<TickAction, EngineError>)
        ensures
            (match spec_poll(old(self).state, init_status, update_status, count_status) {
                Ok((next_state, action)) => final(self).state == next_state && r == Ok::<
                    TickAction,
                    EngineError,
                >(action),
                Err(e) => final(self).state == old(self).state && r == Err::<
                    TickAction,
                    EngineError,
                >(e),
            }),
    {
        match self.state {
            PipelineState::Loading => {
                match init_status {
                    KernelStatus::Failed => Err(EngineError::KernelCompileFailed),
                    KernelStatus::Ready => {
                        self.state = PipelineState::Init;
                        Ok(TickAction::SeedInit)
                    },
                    KernelStatus::Pending => Ok(TickAction::Idle),
                }
            },
            PipelineState::Init => {
                if matches!(update_status, KernelStatus::Failed) || matches!(
                    count_status,
                    KernelStatus::Failed,
                ) {
                    Err(EngineError::KernelCompileFailed)
                } else if matches!(update_status, KernelStatus::Ready) && matches!(
                    count_status,
                    KernelStatus::Ready,
                ) {
                    self.state = PipelineState::Update { parity: true };
                    Ok(TickAction::Generation { parity: true })
                } else {
                    Ok(TickAction::Idle)
                }
            },
            PipelineState::Update { parity } => {
                self.state = PipelineState::Update { parity: !parity };
                Ok(TickAction::Generation { parity: !parity })
            },
        }
    }
}

} // verus!
