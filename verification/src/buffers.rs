//! The double-buffered grid/counter pair set.
//!
//! Two full grids and two population counters live side by side; a parity
//! bit says which pair is logical-current (the read source and the settled
//! count) and which is logical-next (the write target and the accumulating
//! count) this generation. Swapping flips the bit in constant time and moves
//! no data, so within one generation no cell that is read is ever written.

use crate::config::Config;
use crate::count::alive_count;
use crate::grid::Grid;
use crate::kernels::{count_reset_kernel, spec_next_grid, update_kernel};
use vstd::prelude::*;

verus! {

/// The settled-count sentinel installed at construction: the first
/// generation has no prior settled population, and a maximal value keeps
/// its homeostasis check off (no floor can exceed it).
pub const BOOTSTRAP_COUNT: u32 = u32::MAX;

/// Two grids and two population counters, double-buffered.
pub struct GridBufferSet {
    /// Physical buffer A.
    pub grid_a: Grid,
    /// Physical buffer B.
    pub grid_b: Grid,
    /// Population counter paired with buffer A.
    pub count_a: u32,
    /// Population counter paired with buffer B.
    pub count_b: u32,
    /// Parity bit: when set, pair A is logical-current and pair B is
    /// logical-next.
    pub current_is_a: bool,
}

impl GridBufferSet {
    /// Well-formedness against the engine's configuration: both grids are
    /// well-formed and have the configured dimensions.
    pub open spec fn wf(self, cfg: Config) -> bool {
        &&& self.grid_a.wf()
        &&& self.grid_a.width == cfg.width
        &&& self.grid_a.height == cfg.height
        &&& self.grid_b.wf()
        &&& self.grid_b.width == cfg.width
        &&& self.grid_b.height == cfg.height
    }

    /// The logical-current grid: the read source, settled for the duration
    /// of a generation.
    pub open spec fn spec_current_grid(self) -> Grid {
        if self.current_is_a {
            self.grid_a
        } else {
            self.grid_b
        }
    }

    /// The logical-next grid: the write target of the generation in
    /// progress.
    pub open spec fn spec_next_grid(self) -> Grid {
        if self.current_is_a {
            self.grid_b
        } else {
            self.grid_a
        }
    }

    /// The settled population count of the previous generation.
    pub open spec fn spec_current_count(self) -> u32 {
        if self.current_is_a {
            self.count_a
        } else {
            self.count_b
        }
    }

    /// The population count being accumulated this generation.
    pub open spec fn spec_next_count(self) -> u32 {
        if self.current_is_a {
            self.count_b
        } else {
            self.count_a
        }
    }

    /// The generation-advance relation: `post` is `pre` after exactly one
    /// generation. The new current grid is the next generation of the old
    /// current grid computed with the old settled count; the new settled
    /// count is exactly the new grid's population, independent of whatever
    /// value the retired counter held; and the old current pair survives
    /// untouched as the new write target.
    pub open spec fn advanced_from(self, pre: GridBufferSet, cfg: Config) -> bool {
        &&& self.current_is_a == !pre.current_is_a
        &&& self.spec_current_grid()@ == spec_next_grid(
            pre.spec_current_grid()@,
            cfg,
            pre.spec_current_count(),
        )
        &&& self.spec_current_count() == alive_count(
            self.spec_current_grid()@,
            cfg.width as int,
            cfg.height as int,
        )
        &&& self.spec_next_grid() == pre.spec_current_grid()
        &&& self.spec_next_count() == pre.spec_current_count()
    }

    /// Allocates both pairs: two all-dead grids, the settled-count sentinel
    /// in counter A, zero in counter B, pair A logical-current.
    pub fn new(cfg: &Config) -> (s: GridBufferSet)
        requires
            cfg.valid(),
        ensures
            s.wf(*cfg),
            s.current_is_a,
            s.count_a == BOOTSTRAP_COUNT,
            s.count_b == 0,
            forall|i: int| 0 <= i < s.grid_a@.len() ==> s.grid_a@[i] == 0,
            forall|i: int| 0 <= i < s.grid_b@.len() ==> s.grid_b@[i] == 0,
    {
        GridBufferSet {
            grid_a: Grid::new_dead(cfg.width, cfg.height),
            grid_b: Grid::new_dead(cfg.width, cfg.height),
            count_a: BOOTSTRAP_COUNT,
            count_b: 0,
            current_is_a: true,
        }
    }

    /// The logical-current grid, for the update pass and for a consumer to
    /// display.
    pub fn current_grid(&self) -> (g: &Grid)
        ensures
            *g == self.spec_current_grid(),
    {
        if self.current_is_a {
            &self.grid_a
        } else {
            &self.grid_b
        }
    }

    /// The logical-next grid: the write target of the generation in
    /// progress, untouched by readers.
    pub fn next_grid(&self) -> (g: &Grid)
        ensures
            *g == self.spec_next_grid(),
    {
        if self.current_is_a {
            &self.grid_b
        } else {
            &self.grid_a
        }
    }

    /// The settled population count of the previous generation, read by the
    /// homeostasis decision and by a consumer.
    pub fn current_counter(&self) -> (c: u32)
        ensures
            c == self.spec_current_count(),
    {
        if self.current_is_a {
            self.count_a
        } else {
            self.count_b
        }
    }

    /// The population count being accumulated this generation.
    pub fn next_counter(&self) -> (c: u32)
        ensures
            c == self.spec_next_count(),
    {
        if self.current_is_a {
            self.count_b
        } else {
            self.count_a
        }
    }

    /// Flips the parity bit: the pairs trade logical roles, no data moves.
    pub fn swap(&mut self)
        ensures
            final(self).current_is_a == !old(self).current_is_a,
            final(self).grid_a == old(self).grid_a,
            final(self).grid_b == old(self).grid_b,
            final(self).count_a == old(self).count_a,
            final(self).count_b == old(self).count_b,
    {
        self.current_is_a = !self.current_is_a;
    }

    /// Runs one full generation: resets the logical-next counter to zero,
    /// then dispatches the update pass from the current pair into the next
    /// pair, then swaps. The reset is ordered strictly before the first
    /// counter contribution by this very sequence.
    pub fn advance_generation(&mut self, cfg: &Config)
        requires
            cfg.valid(),
            old(self).wf(*cfg),
        ensures
            final(self).wf(*cfg),
            final(self).advanced_from(*old(self), *cfg),
    {
        let settled = self.current_counter();
        if self.current_is_a {
            count_reset_kernel(&mut self.count_b);
            update_kernel(&self.grid_a, &mut self.grid_b, &mut self.count_b, cfg, settled);
        } else {
            count_reset_kernel(&mut self.count_a);
            update_kernel(&self.grid_b, &mut self.grid_a, &mut self.count_a, cfg, settled);
        }
        self.swap();
    }
}

/// The settled count of a finished generation owes nothing to the counter
/// value the retired pair happened to hold: two advances from states that
/// agree on the current pair, however their next counters differ, produce
/// the same grid and the same settled count.
pub proof fn lemma_settled_count_ignores_stale_counter(
    pre1: GridBufferSet,
    post1: GridBufferSet,
    pre2: GridBufferSet,
    post2: GridBufferSet,
    cfg: Config,
)
    requires
        post1.advanced_from(pre1, cfg),
        post2.advanced_from(pre2, cfg),
        pre1.spec_current_grid() == pre2.spec_current_grid(),
        pre1.spec_current_count() == pre2.spec_current_count(),
    ensures
        post1.spec_current_grid()@ == post2.spec_current_grid()@,
        post1.spec_current_count() == post2.spec_current_count(),
{
}

} // verus!
