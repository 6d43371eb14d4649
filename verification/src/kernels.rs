//! The init, counter-reset and update passes.
//!
//! Each pass is written as a plain loop over cells, grouped into fixed-size
//! tiles for the update pass, mirroring a per-cell parallel dispatch: the
//! per-cell work is a pure function of the previous generation's grid and
//! settled population, so the order in which cells are visited cannot change
//! the outcome.

use crate::config::Config;
use crate::count::{
    alive_count, cell_weight, lemma_rect_bounds, lemma_rect_split_cols, lemma_rect_split_rows,
    lemma_row_bounds, rect_count, row_count,
};
use crate::grid::Grid;
use crate::rng::{hash, seed_for, spec_hash, spec_seed};
use vstd::arithmetic::div_mod::{
    lemma_fundamental_div_mod, lemma_fundamental_div_mod_converse, lemma_mod_bound,
};
use vstd::arithmetic::mul::lemma_mul_inequality;
use vstd::prelude::*;

verus! {

/// The smaller of two integers.
pub open spec fn imin(a: int, b: int) -> int {
    if a <= b {
        a
    } else {
        b
    }
}

/// The toroidal predecessor of `v` on a ring of size `n`.
pub open spec fn spec_wrap_dec(v: int, n: int) -> int {
    if v == 0 {
        n - 1
    } else {
        v - 1
    }
}

/// The toroidal successor of `v` on a ring of size `n`.
pub open spec fn spec_wrap_inc(v: int, n: int) -> int {
    if v == n - 1 {
        0
    } else {
        v + 1
    }
}

/// Sum of the eight toroidal neighbours of the cell at column `x`, row `y`
/// of the row-major sequence `s` of a `w` by `h` grid.
pub open spec fn spec_neighbor_sum(s: Seq<u32>, w: int, h: int, x: int, y: int) -> int {
    let xl = spec_wrap_dec(x, w);
    let xr = spec_wrap_inc(x, w);
    let ya = spec_wrap_dec(y, h);
    let yb = spec_wrap_inc(y, h);
    s[ya * w + xl] + s[ya * w + x] + s[ya * w + xr] + s[y * w + xl] + s[y * w + xr] + s[yb * w + xl]
        + s[yb * w + x] + s[yb * w + xr]
}

/// The birth/survival rule: a live cell survives with two or three live
/// neighbours; a dead cell is born with exactly three.
pub open spec fn spec_rule(current: u32, neighbors: int) -> u32 {
    if current == 1 {
        if neighbors == 2 || neighbors == 3 {
            1u32
        } else {
            0u32
        }
    } else {
        if neighbors == 3 {
            1u32
        } else {
            0u32
        }
    }
}

/// The full per-cell update: the rule applied to the previous grid, then the
/// homeostatic reseed of a dead result when the settled population of the
/// previous generation is below the floor and the cell's hash draw falls
/// below the reseed threshold.
pub open spec fn spec_cell_next(s: Seq<u32>, cfg: Config, x: int, y: int, settled: u32) -> u32 {
    let base = spec_rule(
        s[y * cfg.width + x],
        spec_neighbor_sum(s, cfg.width as int, cfg.height as int, x, y),
    );
    if settled < cfg.spec_population_floor() && base != 1 && spec_hash(
        spec_seed(x as u32, y as u32),
    ) < cfg.reseed_threshold {
        1u32
    } else {
        base
    }
}

/// The whole next generation as a row-major sequence.
pub open spec fn spec_next_grid(s: Seq<u32>, cfg: Config, settled: u32) -> Seq<u32> {
    Seq::new(
        (cfg.width * cfg.height) as nat,
        |i: int|
            spec_cell_next(s, cfg, i % (cfg.width as int), i / (cfg.width as int), settled),
    )
}

/// The initial state of the cell at column `x`, row `y`: alive iff its hash
/// draw is strictly above the seed-alive threshold.
pub open spec fn spec_init_cell(cfg: Config, x: int, y: int) -> u32 {
    if spec_hash(spec_seed(x as u32, y as u32)) > cfg.init_threshold {
        1u32
    } else {
        0u32
    }
}

/// The whole seeded first grid as a row-major sequence.
pub open spec fn spec_init_grid(cfg: Config) -> Seq<u32> {
    Seq::new(
        (cfg.width * cfg.height) as nat,
        |i: int| spec_init_cell(cfg, i % (cfg.width as int), i / (cfg.width as int)),
    )
}

/// Flat row-major indexing is a bijection: the cell at column `x`, row `y`
/// of a `w`-wide grid sits at `y * w + x`, inside the grid's index range,
/// and decomposes back into `x` and `y`.
pub proof fn lemma_flat_index(x: int, y: int, w: int, h: int)
    requires
        0 <= x < w,
        0 <= y < h,
    ensures
        0 <= y * w + x < w * h,
        (y * w + x) / w == y,
        (y * w + x) % w == x,
{
    lemma_fundamental_div_mod_converse(y * w + x, w, y, x);
    assert(0 <= y * w + x && y * w + x < w * h) by (nonlinear_arith)
        requires
            0 <= x < w && 0 <= y < h,
    ;
}

/// Resets the next-generation population counter to zero. Ordered strictly
/// before the update pass of the same generation by the orchestrator.
pub fn count_reset_kernel(counter: &mut u32)
    ensures
        *final(counter) == 0,
{
    *counter = 0;
}

/// Seeds `grid` from the per-coordinate hash: roughly one cell in ten is
/// alive under the default threshold.
pub fn init_kernel(grid: &mut Grid, cfg: &Config)
    requires
        cfg.valid(),
        old(grid).wf(),
        old(grid).width == cfg.width,
        old(grid).height == cfg.height,
    ensures
        final(grid).wf(),
        final(grid).width == cfg.width,
        final(grid).height == cfg.height,
        final(grid)@ == spec_init_grid(*cfg),
{
    let w = grid.width;
    let h = grid.height;
    let mut y: usize = 0;
    while y < h
        invariant
            cfg.valid(),
            grid.wf(),
            grid.width == w == cfg.width,
            grid.height == h == cfg.height,
            y <= h,
            forall|i: int| 0 <= i < y * w ==> grid@[i] == spec_init_grid(*cfg)[i],
        decreases h - y,
    {
        let mut x: usize = 0;
        while x < w
            invariant
                cfg.valid(),
                grid.wf(),
                grid.width == w == cfg.width,
                grid.height == h == cfg.height,
                y < h,
                x <= w,
                forall|i: int| 0 <= i < y * w + x ==> grid@[i] == spec_init_grid(*cfg)[i],
            decreases w - x,
        {
            proof {
                lemma_flat_index(x as int, y as int, w as int, h as int);
            }
            let seed = seed_for(x as u32, y as u32);
            let v = if hash(seed) > cfg.init_threshold {
                1u32
            } else {
                0u32
            };
            grid.set(x, y, v);
            x = x + 1;
        }
        proof {
            assert(y * w + w == (y + 1) * w) by (nonlinear_arith);
        }
        y = y + 1;
    }
    proof {
        assert(forall|i: int| 0 <= i < w * h ==> grid@[i] == spec_init_grid(*cfg)[i]) by {
            assert(h * w == w * h) by (nonlinear_arith);
        }
        assert(grid@ =~= spec_init_grid(*cfg));
    }
}

/// Computes the next state of the cell at column `x`, row `y` from the
/// previous generation's grid and settled population. A pure function of
/// its arguments: dispatch order cannot affect it.
#[verifier::rlimit(50)]
pub fn update_cell(input: &Grid, cfg: &Config, x: usize, y: usize, settled: u32) -> (next: u32)
    requires
        cfg.valid(),
        input.wf(),
        input.width == cfg.width,
        input.height == cfg.height,
        x < cfg.width,
        y < cfg.height,
    ensures
        next == spec_cell_next(input@, *cfg, x as int, y as int, settled),
{
    let w = cfg.width;
    let h = cfg.height;
    let xl = if x == 0 {
        w - 1
    } else {
        x - 1
    };
    let xr = if x == w - 1 {
        0
    } else {
        x + 1
    };
    let ya = if y == 0 {
        h - 1
    } else {
        y - 1
    };
    let yb = if y == h - 1 {
        0
    } else {
        y + 1
    };
    proof {
        lemma_flat_index(xl as int, ya as int, w as int, h as int);
        lemma_flat_index(x as int, ya as int, w as int, h as int);
        lemma_flat_index(xr as int, ya as int, w as int, h as int);
        lemma_flat_index(xl as int, y as int, w as int, h as int);
        lemma_flat_index(x as int, y as int, w as int, h as int);
        lemma_flat_index(xr as int, y as int, w as int, h as int);
        lemma_flat_index(xl as int, yb as int, w as int, h as int);
        lemma_flat_index(x as int, yb as int, w as int, h as int);
        lemma_flat_index(xr as int, yb as int, w as int, h as int);
    }
    let neighbors = input.get(xl, ya) + input.get(x, ya) + input.get(xr, ya) + input.get(xl, y)
        + input.get(xr, y) + input.get(xl, yb) + input.get(x, yb) + input.get(xr, yb);
    let current = input.get(x, y);
    let base: u32 = if current == 1 {
        if neighbors == 2 || neighbors == 3 {
            1
        } else {
            0
        }
    } else {
        if neighbors == 3 {
            1
        } else {
            0
        }
    };
    let mut next = base;
    let floor = cfg.population_floor();
    if settled < floor && next != 1 {
        let seed = seed_for(x as u32, y as u32);
        if hash(seed) < cfg.reseed_threshold {
            next = 1;
        }
    }
    next
}

/// The reseed path is live: when the settled population is below the floor,
/// a cell the birth/survival rule leaves dead is forced alive exactly when
/// its hash draw falls below the reseed threshold.
pub proof fn lemma_reseed_fires(s: Seq<u32>, cfg: Config, x: int, y: int, settled: u32)
    requires
        settled < cfg.spec_population_floor(),
        spec_rule(
            s[y * cfg.width + x],
            spec_neighbor_sum(s, cfg.width as int, cfg.height as int, x, y),
        ) != 1,
        spec_hash(spec_seed(x as u32, y as u32)) < cfg.reseed_threshold,
    ensures
        spec_cell_next(s, cfg, x, y, settled) == 1,
{
}

/// No spurious reseed: with the settled population at or above the floor,
/// every cell's update is exactly the birth/survival rule, so a stable
/// pattern in a sufficiently populous grid stays stable.
pub proof fn lemma_no_reseed_above_floor(s: Seq<u32>, cfg: Config, x: int, y: int, settled: u32)
    requires
        settled >= cfg.spec_population_floor(),
    ensures
        spec_cell_next(s, cfg, x, y, settled) == spec_rule(
            s[y * cfg.width + x],
            spec_neighbor_sum(s, cfg.width as int, cfg.height as int, x, y),
        ),
{
}

/// Bit-reproducibility of seeding: the seeded grid is a function of the
/// configuration alone, so two seeding passes over equally configured grids
/// produce identical cells, run for run.
pub proof fn lemma_init_reproducible(cfg1: Config, cfg2: Config)
    requires
        cfg1 == cfg2,
    ensures
        spec_init_grid(cfg1) == spec_init_grid(cfg2),
{
}

/// Bit-reproducibility of a generation: the next grid, homeostasis draws
/// included, is a function of the previous grid, the settled count and the
/// configuration alone, so two update passes over equal inputs produce
/// identical cells, run for run.
pub proof fn lemma_generation_reproducible(
    s1: Seq<u32>,
    s2: Seq<u32>,
    cfg1: Config,
    cfg2: Config,
    settled1: u32,
    settled2: u32,
)
    requires
        s1 == s2,
        cfg1 == cfg2,
        settled1 == settled2,
    ensures
        spec_next_grid(s1, cfg1, settled1) == spec_next_grid(s2, cfg2, settled2),
{
}

/// A tile origin lies inside the grid: tile index `t` of size-`ts` tiles
/// over `n` cells starts at `t * ts <= n - 1`.
proof fn lemma_tile_origin(t: int, ts: int, n: int)
    requires
        1 <= ts,
        1 <= n,
        0 <= t,
        t <= (n - 1) / ts,
    ensures
        t * ts <= n - 1,
{
    lemma_fundamental_div_mod(n - 1, ts);
    lemma_mod_bound(n - 1, ts);
    lemma_mul_inequality(t, (n - 1) / ts, ts);
    assert(((n - 1) / ts) * ts == ts * ((n - 1) / ts)) by (nonlinear_arith);
}

/// The tile grid covers every cell: `(n - 1) / ts + 1` tiles of size `ts`
/// reach at least `n`.
proof fn lemma_tiles_cover(n: int, ts: int)
    requires
        1 <= ts,
        1 <= n,
    ensures
        n <= ((n - 1) / ts + 1) * ts,
{
    lemma_fundamental_div_mod(n - 1, ts);
    lemma_mod_bound(n - 1, ts);
    assert(((n - 1) / ts + 1) * ts == ts * ((n - 1) / ts) + ts) by (nonlinear_arith);
}

/// A flat index below `w * h` decomposes into a row below `h`.
proof fn lemma_flat_row_bound(i: int, w: int, h: int)
    requires
        1 <= w,
        0 <= i < w * h,
    ensures
        0 <= i / w < h,
        0 <= i % w < w,
{
    lemma_fundamental_div_mod(i, w);
    lemma_mod_bound(i, w);
    if i / w >= h {
        lemma_mul_inequality(h, i / w, w);
        assert(h * w == w * h) by (nonlinear_arith);
        assert((i / w) * w == w * (i / w)) by (nonlinear_arith);
    }
    if i / w < 0 {
        lemma_mul_inequality(i / w, -1, w);
        assert((i / w) * w == w * (i / w) && (-1) * w == -w) by (nonlinear_arith);
    }
}

/// Advances the whole grid one generation: writes the next state of every
/// cell of `input` into `output` and adds the next generation's population
/// to `counter`, visiting cells tile by tile and flushing one per-tile
/// subtotal into the counter per tile, exactly as the two-level reduction
/// of a parallel dispatch would.
///
/// Every cell of `output` is written exactly once, also when the grid
/// dimensions are not multiples of the tile dimensions.
pub fn update_kernel(input: &Grid, output: &mut Grid, counter: &mut u32, cfg: &Config, settled: u32)
    requires
        cfg.valid(),
        input.wf(),
        input.width == cfg.width,
        input.height == cfg.height,
        old(output).wf(),
        old(output).width == cfg.width,
        old(output).height == cfg.height,
        *old(counter) + cfg.width * cfg.height <= u32::MAX,
    ensures
        final(output).wf(),
        final(output).width == cfg.width,
        final(output).height == cfg.height,
        final(output)@ == spec_next_grid(input@, *cfg, settled),
        *final(counter) == *old(counter) + alive_count(
            final(output)@,
            cfg.width as int,
            cfg.height as int,
        ),
{
    let w = cfg.width;
    let h = cfg.height;
    let tw = cfg.tile_width;
    let th = cfg.tile_height;
    let tiles_x = (w - 1) / tw + 1;
    let tiles_y = (h - 1) / th + 1;
    let ghost nseq = spec_next_grid(input@, *cfg, settled);
    let ghost c0 = *counter;
    let mut ty: usize = 0;
    while ty < tiles_y
        invariant
            cfg.valid(),
            input.wf(),
            input.width == w == cfg.width,
            input.height == h == cfg.height,
            tw == cfg.tile_width,
            th == cfg.tile_height,
            tiles_x == (w - 1) / (tw as int) + 1,
            tiles_y == (h - 1) / (th as int) + 1,
            output.wf(),
            output.width == w,
            output.height == h,
            ty <= tiles_y,
            nseq == spec_next_grid(input@, *cfg, settled),
            c0 + w * h <= u32::MAX,
            forall|i: int|
                0 <= i < w * h && i / (w as int) < imin(ty * th, h as int) ==> output@[i]
                    == nseq[i],
            *counter == c0 + rect_count(nseq, w as int, 0, w as int, 0, imin(ty * th, h as int)),
        decreases tiles_y - ty,
    {
        proof {
            lemma_tile_origin(ty as int, th as int, h as int);
        }
        let y_lo = ty * th;
        let y_hi = if h - y_lo > th {
            y_lo + th
        } else {
            h
        };
        let ghost band_lo = y_lo as int;
        let ghost band_hi = y_hi as int;
        proof {
            lemma_rect_bounds(nseq, w as int, 0, 0, band_lo, band_hi);
        }
        let mut tx: usize = 0;
        while tx < tiles_x
            invariant
                cfg.valid(),
                input.wf(),
                input.width == w == cfg.width,
                input.height == h == cfg.height,
                tw == cfg.tile_width,
                th == cfg.tile_height,
                tiles_x == (w - 1) / (tw as int) + 1,
                output.wf(),
                output.width == w,
                output.height == h,
                tx <= tiles_x,
                nseq == spec_next_grid(input@, *cfg, settled),
                c0 + w * h <= u32::MAX,
                band_lo == y_lo == ty * th,
                band_lo <= h - 1,
                band_hi == y_hi == imin(band_lo + th, h as int),
                forall|i: int|
                    0 <= i < w * h && i / (w as int) < band_lo ==> output@[i] == nseq[i],
                forall|i: int|
                    0 <= i < w * h && band_lo <= i / (w as int) < band_hi && i % (w as int) < imin(
                        tx * tw,
                        w as int,
                    ) ==> output@[i] == nseq[i],
                *counter == c0 + rect_count(nseq, w as int, 0, w as int, 0, band_lo) + rect_count(
                    nseq,
                    w as int,
                    0,
                    imin(tx * tw, w as int),
                    band_lo,
                    band_hi,
                ),
            decreases tiles_x - tx,
        {
            proof {
                lemma_tile_origin(tx as int, tw as int, w as int);
            }
            let x_lo = tx * tw;
            let x_hi = if w - x_lo > tw {
                x_lo + tw
            } else {
                w
            };
            let mut tile_sum: u32 = 0;
            let mut yy = y_lo;
            while yy < y_hi
                invariant
                    cfg.valid(),
                    input.wf(),
                    input.width == w == cfg.width,
                    input.height == h == cfg.height,
                    output.wf(),
                    output.width == w,
                    output.height == h,
                    nseq == spec_next_grid(input@, *cfg, settled),
                    band_lo <= yy <= band_hi,
                    band_lo == y_lo,
                    0 <= band_lo <= h - 1,
                    band_hi == y_hi,
                    band_hi <= h,
                    x_lo == tx * tw,
                    x_lo <= w - 1,
                    x_hi == imin(x_lo + tw, w as int),
                    forall|i: int|
                        0 <= i < w * h && i / (w as int) < band_lo ==> output@[i] == nseq[i],
                    forall|i: int|
                        0 <= i < w * h && band_lo <= i / (w as int) < band_hi && i % (w as int)
                            < x_lo ==> output@[i] == nseq[i],
                    forall|i: int|
                        0 <= i < w * h && band_lo <= i / (w as int) < yy && x_lo <= i % (w as int)
                            < x_hi ==> output@[i] == nseq[i],
                    tile_sum == rect_count(nseq, w as int, x_lo as int, x_hi as int, band_lo, yy as int),
                    *counter == c0 + rect_count(nseq, w as int, 0, w as int, 0, band_lo)
                        + rect_count(nseq, w as int, 0, x_lo as int, band_lo, band_hi),
                decreases y_hi - yy,
            {
                let mut xx = x_lo;
                while xx < x_hi
                    invariant
                        cfg.valid(),
                        input.wf(),
                        input.width == w == cfg.width,
                        input.height == h == cfg.height,
                        output.wf(),
                        output.width == w,
                        output.height == h,
                        nseq == spec_next_grid(input@, *cfg, settled),
                        band_lo <= yy < band_hi,
                        0 <= band_lo <= h - 1,
                        band_hi <= h,
                        x_lo <= xx <= x_hi,
                        x_lo <= w - 1,
                        x_hi == imin(x_lo + tw, w as int),
                        forall|i: int|
                            0 <= i < w * h && i / (w as int) < band_lo ==> output@[i] == nseq[i],
                        forall|i: int|
                            0 <= i < w * h && band_lo <= i / (w as int) < band_hi && i % (w as int)
                                < x_lo ==> output@[i] == nseq[i],
                        forall|i: int|
                            0 <= i < w * h && band_lo <= i / (w as int) < yy && x_lo <= i % (
                            w as int) < x_hi ==> output@[i] == nseq[i],
                        forall|i: int|
                            0 <= i < w * h && i / (w as int) == yy && x_lo <= i % (w as int) < xx
                                ==> output@[i] == nseq[i],
                        tile_sum == rect_count(nseq, w as int, x_lo as int, x_hi as int, band_lo, yy as int)
                            + row_count(nseq, w as int, x_lo as int, xx as int, yy as int),
                        *counter == c0 + rect_count(nseq, w as int, 0, w as int, 0, band_lo)
                            + rect_count(nseq, w as int, 0, x_lo as int, band_lo, band_hi),
                    decreases x_hi - xx,
                {
                    let next = update_cell(input, cfg, xx, yy, settled);
                    proof {
                        lemma_flat_index(xx as int, yy as int, w as int, h as int);
                        assert(nseq[yy as int * w + xx] == next);
                        assert(next == 0 || next == 1);
                        lemma_rect_bounds(nseq, w as int, x_lo as int, x_hi as int, band_lo, yy as int);
                        lemma_row_bounds(nseq, w as int, x_lo as int, xx as int, yy as int);
                        assert((x_hi - x_lo) * (yy - band_lo) + (xx - x_lo) + 1 <= w * h)
                            by (nonlinear_arith)
                            requires
                                0 <= x_lo <= xx < x_hi <= w,
                                0 <= band_lo <= yy < band_hi <= h,
                        ;
                    }
                    output.set(xx, yy, next);
                    if next == 1 {
                        tile_sum = tile_sum + 1;
                    }
                    proof {
                        assert(row_count(nseq, w as int, x_lo as int, xx + 1, yy as int)
                            == row_count(nseq, w as int, x_lo as int, xx as int, yy as int)
                            + cell_weight(nseq, w as int, xx as int, yy as int));
                        assert forall|i: int|
                            0 <= i < w * h && i / (w as int) == yy && x_lo <= i % (w as int) < xx
                                + 1 implies output@[i] == nseq[i] by {
                            let wi = w as int;
                            lemma_fundamental_div_mod(i, wi);
                            assert(i == wi * (i / wi) + i % wi);
                            if i % wi == xx {
                                assert(i == yy as int * wi + xx);
                                assert(output@[i] == next);
                            } else {
                                assert(i != yy as int * wi + xx);
                            }
                        }
                    }
                    xx = xx + 1;
                }
                proof {
                    assert(tile_sum == rect_count(
                        nseq,
                        w as int,
                        x_lo as int,
                        x_hi as int,
                        band_lo,
                        yy + 1,
                    ));
                }
                yy = yy + 1;
            }
            proof {
                // Fold the finished tile into the running counter invariant.
                assert(tile_sum == rect_count(
                    nseq,
                    w as int,
                    x_lo as int,
                    x_hi as int,
                    band_lo,
                    band_hi,
                ));
                lemma_rect_split_cols(nseq, w as int, 0, x_lo as int, x_hi as int, band_lo, band_hi);
                // Bound the new counter value by the whole grid's population.
                lemma_rect_split_cols(nseq, w as int, 0, x_hi as int, w as int, band_lo, band_hi);
                lemma_rect_bounds(nseq, w as int, x_hi as int, w as int, band_lo, band_hi);
                lemma_rect_split_rows(nseq, w as int, 0, w as int, 0, band_lo, band_hi);
                lemma_rect_split_rows(nseq, w as int, 0, w as int, 0, band_hi, h as int);
                lemma_rect_bounds(nseq, w as int, 0, w as int, band_hi, h as int);
                lemma_rect_bounds(nseq, w as int, 0, w as int, 0, h as int);
                assert((w as int) * (h as int) == w * h) by (nonlinear_arith);
                assert((tx + 1) * tw == tx * tw + tw) by (nonlinear_arith);
            }
            *counter = *counter + tile_sum;
            tx = tx + 1;
        }
        proof {
            lemma_tiles_cover(w as int, tw as int);
            assert(imin(tiles_x * tw, w as int) == w as int);
            lemma_rect_split_rows(nseq, w as int, 0, w as int, 0, band_lo, band_hi);
            assert((ty + 1) * th == ty * th + th) by (nonlinear_arith);
            assert(band_hi == imin((ty + 1) * th, h as int));
            assert forall|i: int|
                0 <= i < w * h && i / (w as int) < imin((ty + 1) * th, h as int) implies output@[i]
                == nseq[i] by {
                lemma_flat_row_bound(i, w as int, h as int);
            }
        }
        ty = ty + 1;
    }
    proof {
        lemma_tiles_cover(h as int, th as int);
        assert(imin(tiles_y * th, h as int) == h as int);
        assert forall|i: int| 0 <= i < w * h implies output@[i] == nseq[i] by {
            lemma_flat_row_bound(i, w as int, h as int);
        }
        assert(output@ =~= nseq);
    }
}

} // verus!
