//! The orchestrator: one full generation per tick.
//!
//! Each tick polls the pipeline loader with the kernels' compile statuses
//! and performs the state-appropriate dispatch: nothing while loading, the
//! one-time seeding pass on entering `Init`, and from `Update` onward the
//! ordered sequence counter-reset, update, swap. A consumer may read the
//! current grid and settled count at any tick boundary without disturbing
//! the engine.

use crate::buffers::GridBufferSet;
use crate::config::Config;
use crate::error::EngineError;
use crate::grid::Grid;
use crate::kernels::{init_kernel, spec_init_grid};
use crate::pipeline::{KernelStatus, PipelineLoader, PipelineState, TickAction, spec_poll};
use vstd::prelude::*;

verus! {

/// The generation-advance engine.
pub struct Engine {
    /// The validated construction-time configuration.
    pub config: Config,
    /// The kernel-readiness state machine.
    pub loader: PipelineLoader,
    /// The double-buffered grids and counters.
    pub buffers: GridBufferSet,
}

impl Engine {
    /// The engine invariant: a valid configuration, well-formed buffers,
    /// and a buffer parity in lockstep with the loader. While no generation
    /// has run, pair A is current; once in `Update`, the parity recorded in
    /// the loader state is the parity the buffers had when that tick ran,
    /// so the buffers have flipped past it.
    pub open spec fn wf(self) -> bool {
        &&& self.config.valid()
        &&& self.buffers.wf(self.config)
        &&& (self.loader.state is Loading || self.loader.state is Init
            ==> self.buffers.current_is_a)
        &&& (match self.loader.state {
            PipelineState::Update { parity } => self.buffers.current_is_a == !parity,
            _ => true,
        })
    }

    /// Builds an engine for `config`, rejecting invalid grid or tile
    /// dimensions before any buffer is allocated. Both grids start dead;
    /// the settled-count sentinel disables the very first homeostasis
    /// check.
    pub fn new(config: Config) -> (r: Result<Engine, EngineError>)
        ensures
            config.valid() ==> (match r {
                Ok(e) => e.wf() && e.config == config && e.loader.state
                    == PipelineState::Loading && e.buffers.current_is_a && e.buffers.count_a
                    == crate::buffers::BOOTSTRAP_COUNT && e.buffers.count_b == 0 && (forall|i: int|
                    0 <= i < e.buffers.grid_a@.len() ==> e.buffers.grid_a@[i] == 0) && (forall|
                    i: int,
                |
                    0 <= i < e.buffers.grid_b@.len() ==> e.buffers.grid_b@[i] == 0),
                Err(_) => false,
            }),
            !config.valid() ==> r == Err::<Engine, EngineError>(EngineError::InvalidConfig),
    {
        if !config.check() {
            return Err(EngineError::InvalidConfig);
        }
        Ok(
            Engine {
                config,
                loader: PipelineLoader::new(),
                buffers: GridBufferSet::new(&config),
            },
        )
    }

    /// Runs one orchestrator tick, given the compile status the host
    /// reports for each kernel.
    ///
    /// The loader steps exactly as its state machine prescribes. An `Idle`
    /// tick leaves the buffers untouched; a `SeedInit` tick seeds the
    /// current grid from the per-coordinate hash; a `Generation` tick
    /// advances exactly one generation. A compile failure is returned as
    /// the fatal error, with the engine left as it was.
    pub fn tick(
        &mut self,
        init_status: KernelStatus,
        update_status: KernelStatus,
        count_status: KernelStatus,
    ) -> (r: Result<(), EngineError>)
        requires
            old(self).wf(),
        ensures
            final(self).wf(),
            final(self).config == old(self).config,
            (match spec_poll(old(self).loader.state, init_status, update_status, count_status) {
                Ok((next_state, action)) => {
                    &&& r == Ok::<(), EngineError>(())
                    &&& final(self).loader.state == next_state
                    &&& (match action {
                        TickAction::Idle => final(self).buffers == old(self).buffers,
                        TickAction::SeedInit => final(self).buffers == (GridBufferSet {
                            grid_a: final(self).buffers.grid_a,
                            ..old(self).buffers
                        }) && final(self).buffers.grid_a@ == spec_init_grid(old(self).config)
                            && final(self).buffers.grid_a.width == old(self).config.width
                            && final(self).buffers.grid_a.height == old(self).config.height,
                        TickAction::Generation { parity } => final(self).buffers.advanced_from(
                            old(self).buffers,
                            old(self).config,
                        ) && parity == old(self).buffers.current_is_a,
                    })
                },
                Err(e) => r == Err::<(), EngineError>(e) && *final(self) == *old(self),
            }),
    {
        let action = match self.loader.poll(init_status, update_status, count_status) {
            Ok(a) => a,
            Err(e) => {
                return Err(e);
            },
        };
        match action {
            TickAction::Idle => Ok(()),
            TickAction::SeedInit => {
                let cfg = self.config;
                init_kernel(&mut self.buffers.grid_a, &cfg);
                Ok(())
            },
            TickAction::Generation { parity: _ } => {
                let cfg = self.config;
                self.buffers.advance_generation(&cfg);
                Ok(())
            },
        }
    }

    /// The current grid as a flat row-major sequence of `0`/`1` cells, for
    /// a consumer to display.
    pub fn current_cells(&self) -> (r: &Vec<u32>)
        ensures
            r@ == self.buffers.spec_current_grid()@,
    {
        self.buffers.current_grid().cells()
    }

    /// The settled population count available at this tick boundary. Until
    /// the first generation has finished this is the bootstrap sentinel.
    pub fn population(&self) -> (r: u32)
        ensures
            r == self.buffers.spec_current_count(),
    {
        self.buffers.current_counter()
    }

    /// The loader's current state.
    pub fn state(&self) -> (r: PipelineState)
        ensures
            r == self.loader.state,
    {
        self.loader.state
    }
}

} // verus!
