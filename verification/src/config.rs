//! Engine configuration and its validation.
//!
//! All stochastic behaviour is configured through integer thresholds on the
//! 32-bit hash space, so the whole engine stays in exact integer arithmetic:
//! a probability `p` over draws uniform on `0..=u32::MAX` corresponds to a
//! threshold of `p * (2^32 - 1)` rounded to the nearest integer comparison.

use vstd::prelude::*;

verus! {

/// Seed-alive threshold encoding the default 10% initial density: a cell is
/// seeded alive iff its hash draw exceeds this, i.e. iff the draw normalised
/// to `[0, 1]` exceeds `0.9`.
pub const DEFAULT_INIT_THRESHOLD: u32 = 3865470565;

/// Default population floor of one tenth of the grid, in thousandths.
pub const DEFAULT_FLOOR_PERMILLE: u32 = 100;

/// Reseed threshold encoding the default per-cell reseed probability of
/// 0.001: an eligible dead cell is reseeded iff its hash draw is below this,
/// i.e. iff the draw normalised to `[0, 1]` is below `0.001`.
pub const DEFAULT_RESEED_THRESHOLD: u32 = 4294968;

/// Construction-time configuration of the engine.
#[derive(Clone, Copy, Debug, PartialEq, Eq, Structural)]
pub struct Config {
    /// Grid width in cells.
    pub width: usize,
    /// Grid height in cells.
    pub height: usize,
    /// Width of one cooperative tile of the update pass.
    pub tile_width: usize,
    /// Height of one cooperative tile of the update pass.
    pub tile_height: usize,
    /// A cell is seeded alive by the init pass iff its hash draw is
    /// strictly above this threshold.
    pub init_threshold: u32,
    /// Population floor as a fraction of the whole grid, in thousandths;
    /// `0` disables homeostasis entirely.
    pub floor_permille: u32,
    /// An eligible dead cell is reseeded iff its hash draw is strictly
    /// below this threshold; `0` disables reseeding entirely.
    pub reseed_threshold: u32,
}

impl Config {
    /// A configuration the engine accepts: positive grid and tile
    /// dimensions, a grid whose cell count fits the 32-bit population
    /// counters, and a floor fraction of at most the whole.
    pub open spec fn valid(self) -> bool {
        &&& 1 <= self.width
        &&& 1 <= self.height
        &&& 1 <= self.tile_width
        &&& 1 <= self.tile_height
        &&& self.width * self.height <= u32::MAX
        &&& self.floor_permille <= 1000
    }

    /// Total number of cells in the grid.
    pub open spec fn spec_total_cells(self) -> int {
        self.width * self.height
    }

    /// The homeostasis population floor: the settled population must reach
    /// this for reseeding to stay off.
    pub open spec fn spec_population_floor(self) -> int {
        self.spec_total_cells() * self.floor_permille / 1000
    }

    /// Builds the default configuration for a `width` by `height` grid:
    /// 16-by-16 tiles, 10% initial density, a population floor of one tenth
    /// of the grid, and a reseed probability of 0.001.
    pub fn with_defaults(width: usize, height: usize) -> (c: Config)
        ensures
            c == (Config {
                width,
                height,
                tile_width: 16usize,
                tile_height: 16usize,
                init_threshold: DEFAULT_INIT_THRESHOLD,
                floor_permille: DEFAULT_FLOOR_PERMILLE,
                reseed_threshold: DEFAULT_RESEED_THRESHOLD,
            }),
    {
        Config {
            width,
            height,
            tile_width: 16,
            tile_height: 16,
            init_threshold: DEFAULT_INIT_THRESHOLD,
            floor_permille: DEFAULT_FLOOR_PERMILLE,
            reseed_threshold: DEFAULT_RESEED_THRESHOLD,
        }
    }

    /// Decides validity; exactly the configurations accepted by the engine
    /// constructor.
    pub fn check(&self) -> (ok: bool)
        ensures
            ok == self.valid(),
    {
        if self.width < 1 || self.height < 1 || self.tile_width < 1 || self.tile_height < 1 {
            return false;
        }
        if self.floor_permille > 1000 {
            return false;
        }
        // width * height must fit u32; test without overflowing usize.
        if self.width > u32::MAX as usize || self.height > u32::MAX as usize {
            proof {
                assert(self.width * self.height > u32::MAX) by (nonlinear_arith)
                    requires
                        (self.width > u32::MAX || self.height > u32::MAX) && self.width >= 1
                            && self.height >= 1,
                ;
            }
            return false;
        }
        let w64 = self.width as u64;
        let h64 = self.height as u64;
        proof {
            assert(w64 * h64 <= u32::MAX as u64 * u32::MAX as u64) by (nonlinear_arith)
                requires
                    w64 <= u32::MAX && h64 <= u32::MAX,
            ;
        }
        w64 * h64 <= u32::MAX as u64
    }

    /// Computes the homeostasis population floor.
    pub fn population_floor(&self) -> (f: u32)
        requires
            self.valid(),
        ensures
            f == self.spec_population_floor(),
    {
        let total = (self.width as u64) * (self.height as u64);
        proof {
            assert(total * self.floor_permille <= u32::MAX as u64 * 1000) by (nonlinear_arith)
                requires
                    total <= u32::MAX && self.floor_permille <= 1000,
            ;
            assert(total * self.floor_permille / 1000 <= total) by (nonlinear_arith)
                requires
                    self.floor_permille <= 1000,
            ;
        }
        (total * (self.floor_permille as u64) / 1000) as u32
    }
}

} // verus!
