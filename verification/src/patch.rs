//! Patch placement and shaping: the generation passes that write kinds
//! into the grid.
//!
//! A pass places `(countAxis - 1)^2` patch centers on a jittered, evenly
//! spaced lattice, in w-major, h-minor order; for each center it draws a
//! radius, a noise frequency, a noise amplitude and a noise seed from the
//! random source, and applies one patch: every cell offset within the
//! padded radius is tested against a noise-perturbed disk shape, and each
//! eligible in-bounds cell receives exactly one write attempt under the
//! layer-composition rules. Out-of-bounds cells are silently skipped,
//! never an error. The orders — centers, then offsets row by row — are
//! load-bearing: later writes overwrite earlier ones.

use vstd::arithmetic::div_mod::{
    lemma_div_is_ordered, lemma_div_nonincreasing, lemma_div_pos_is_pos, lemma_multiply_divide_lt,
};
use vstd::arithmetic::mul::{lemma_mul_nonnegative, lemma_mul_upper_bound};
use vstd::prelude::*;

use crate::grid::{spec_write_tile, Tile, TileGrid, GRID_MAX};
use crate::kind::Kind;
use crate::noise::{spec_sample_biased, NoiseField, POS_MAX};
use crate::rng::{
    next_state, output_of, state_after, uniform_of, SeededRandomSource,
};
use crate::FP;

verus! {

/// The largest accepted patch radius, fixed-point.
pub const RADIUS_MAX: i64 = 1_000_000;

/// The largest accepted noise frequency scale, fixed-point.
pub const FREQ_MAX: i64 = 1_000_000;

/// The largest accepted noise amplitude scale, fixed-point.
pub const AMP_MAX: i64 = 1_000_000;

/// The largest accepted center jitter, in cells.
pub const JITTER_MAX: i64 = 1_000_000;

/// The largest magnitude a patch center coordinate may have.
pub const CENTER_LIMIT: i64 = 10_000_000;

/// The largest cell offset the shape test accepts.
pub const OFFSET_LIMIT: i64 = 2048;

/// One ephemeral patch: the kind it writes, its center, and its shape
/// parameters. Radius, frequency and amplitude are fixed-point.
#[derive(Clone, Copy, PartialEq, Eq, Structural, Debug)]
pub struct PatchSpec {
    /// The kind every eligible cell receives.
    pub kind: Kind,
    /// The center cell's x coordinate.
    pub cx: i64,
    /// The center cell's y coordinate.
    pub cy: i64,
    /// The disk radius, fixed-point.
    pub radius_fp: i64,
    /// The noise frequency scale, fixed-point.
    pub freq_fp: i64,
    /// The noise amplitude scale, fixed-point.
    pub amp_fp: i64,
    /// The seed of the noise field that perturbs the disk edge.
    pub noise_seed: u64,
}

impl PatchSpec {
    /// The parameter ranges the shape test accepts.
    pub open spec fn wf(self) -> bool {
        &&& 0 <= self.radius_fp <= RADIUS_MAX
        &&& 0 <= self.freq_fp <= FREQ_MAX
        &&& 0 <= self.amp_fp <= AMP_MAX
        &&& -CENTER_LIMIT <= self.cx <= CENTER_LIMIT
        &&& -CENTER_LIMIT <= self.cy <= CENTER_LIMIT
    }
}

/// One generation pass: the kind it writes and how its patches are
/// placed and shaped. Ranges are inclusive; radius, frequency and
/// amplitude are fixed-point.
#[derive(Clone, Copy, PartialEq, Eq, Structural, Debug)]
pub struct PassConfig {
    /// The kind every patch of this pass writes.
    pub kind: Kind,
    /// One more than the number of patch rows and columns: the pass
    /// places `(count_axis - 1)^2` patches.
    pub count_axis: i64,
    /// The largest center jitter along each axis, in cells.
    pub max_jitter: i64,
    /// The smallest radius a patch may draw, fixed-point.
    pub radius_min: i64,
    /// The largest radius a patch may draw, fixed-point.
    pub radius_max: i64,
    /// The smallest frequency a patch may draw, fixed-point.
    pub freq_min: i64,
    /// The largest frequency a patch may draw, fixed-point.
    pub freq_max: i64,
    /// The smallest amplitude a patch may draw, fixed-point.
    pub amp_min: i64,
    /// The largest amplitude a patch may draw, fixed-point.
    pub amp_max: i64,
}

impl PassConfig {
    /// The ranges a pass must satisfy: each range nonempty and within
    /// its cap, the patch count axis between 2 and 64.
    pub open spec fn wf(self) -> bool {
        &&& 2 <= self.count_axis <= 64
        &&& 0 <= self.max_jitter <= JITTER_MAX
        &&& 0 <= self.radius_min <= self.radius_max <= RADIUS_MAX
        &&& 0 <= self.freq_min <= self.freq_max <= FREQ_MAX
        &&& 0 <= self.amp_min <= self.amp_max <= AMP_MAX
    }

    /// The number of patches one pass places.
    pub open spec fn spec_patch_count(self) -> int {
        (self.count_axis - 1) * (self.count_axis - 1)
    }
}

/// The whole-cell radius that padding and iteration use: the fixed-point
/// radius rounded up to whole cells.
pub open spec fn spec_ceil_radius(radius_fp: i64) -> int {
    (radius_fp + FP - 1) / (FP as int)
}

/// Whether the cell at offset `(dx, dy)` from the patch center falls
/// inside the patch: the noise-perturbed disk test. The threshold height
/// `radius + noise * amplitude - distance` must exceed zero; with the
/// distance under a square root, that is: the perturbed radius is
/// positive and its square exceeds the squared distance.
pub open spec fn spec_eligible(
    seed: u64,
    radius_fp: i64,
    freq_fp: i64,
    amp_fp: i64,
    dx: int,
    dy: int,
) -> bool {
    let biased = spec_sample_biased(seed, (dx * freq_fp) as i64, (dy * freq_fp) as i64);
    let t = radius_fp + (biased * amp_fp) / (FP as int) - amp_fp;
    let f2 = (FP as int) * (FP as int);
    t > 0 && t * t > (dx * dx + dy * dy) * f2
}

/// Runs the noise-perturbed disk test for one cell offset.
pub fn eligible(noise: &NoiseField, radius_fp: i64, freq_fp: i64, amp_fp: i64, dx: i64, dy: i64) -> (r:
    bool)
    requires
        0 <= radius_fp <= RADIUS_MAX,
        0 <= freq_fp <= FREQ_MAX,
        0 <= amp_fp <= AMP_MAX,
        -OFFSET_LIMIT <= dx <= OFFSET_LIMIT,
        -OFFSET_LIMIT <= dy <= OFFSET_LIMIT,
    ensures
        r == spec_eligible(noise.seed, radius_fp, freq_fp, amp_fp, dx as int, dy as int),
{
    proof {
        assert(-POS_MAX <= dx * freq_fp <= POS_MAX && -POS_MAX <= dy * freq_fp <= POS_MAX)
            by (nonlinear_arith)
            requires
                -OFFSET_LIMIT <= dx <= OFFSET_LIMIT,
                -OFFSET_LIMIT <= dy <= OFFSET_LIMIT,
                0 <= freq_fp <= FREQ_MAX,
        ;
    }
    let px = dx * freq_fp;
    let py = dy * freq_fp;
    let biased = noise.sample_biased(px, py);
    proof {
        lemma_mul_upper_bound(biased as int, 2 * FP, amp_fp as int, AMP_MAX as int);
        lemma_mul_nonnegative(biased as int, amp_fp as int);
        lemma_div_pos_is_pos(biased as int * amp_fp as int, FP as int);
        lemma_div_is_ordered(biased as int * amp_fp as int, 2 * FP * (AMP_MAX as int), FP as int);
    }
    let noff = (biased * (amp_fp as u64)) / (FP as u64);
    let t = radius_fp + (noff as i64) - amp_fp;
    if t > 0 {
        proof {
            assert(t * t <= 9_000_000_000_000) by (nonlinear_arith)
                requires
                    0 < t <= 3_000_000,
            ;
            assert(0 <= dx * dx <= OFFSET_LIMIT * OFFSET_LIMIT) by (nonlinear_arith)
                requires
                    -OFFSET_LIMIT <= dx <= OFFSET_LIMIT,
            ;
            assert(0 <= dy * dy <= OFFSET_LIMIT * OFFSET_LIMIT) by (nonlinear_arith)
                requires
                    -OFFSET_LIMIT <= dy <= OFFSET_LIMIT,
            ;
        }
        let s = dx * dx + dy * dy;
        let f2 = FP * FP;
        proof {
            lemma_mul_upper_bound(s as int, 2 * OFFSET_LIMIT * OFFSET_LIMIT, f2 as int, f2 as int);
            lemma_mul_nonnegative(s as int, f2 as int);
        }
        t * t > s * f2
    } else {
        false
    }
}

/// The grid contents after the first `n` cell offsets of one patch have
/// been tested and, where eligible and in bounds, written. Offsets run
/// over the square `[-(rc + 1), rc + 1]^2`, row by row, where `rc` is the
/// radius in whole cells; offset number `j` is `(lo + j / side, lo + j %
/// side)` with `lo = -(rc + 1)` and `side` the square's width.
pub open spec fn spec_patch_step(tiles: Seq<Tile>, w: int, h: int, p: PatchSpec, j: int) -> Seq<
    Tile,
> {
    let rc1 = spec_ceil_radius(p.radius_fp) + 1;
    let side = 2 * rc1 + 1;
    let dx = -rc1 + j / side;
    let dy = -rc1 + j % side;
    let x = p.cx + dx;
    let y = p.cy + dy;
    if spec_eligible(p.noise_seed, p.radius_fp, p.freq_fp, p.amp_fp, dx, dy) && 0 <= x < w && 0 <= y
        < h {
        tiles.update(y * w + x, spec_write_tile(tiles[y * w + x], p.kind))
    } else {
        tiles
    }
}

/// The grid contents after the first `n` cell offsets of one patch.
pub open spec fn spec_apply_patch_prefix(
    tiles: Seq<Tile>,
    w: int,
    h: int,
    p: PatchSpec,
    n: int,
) -> Seq<Tile>
    decreases n,
{
    if n <= 0 {
        tiles
    } else {
        spec_patch_step(spec_apply_patch_prefix(tiles, w, h, p, n - 1), w, h, p, n - 1)
    }
}

/// The grid contents after one whole patch: every cell offset of the
/// padded square tested once, in fixed row-by-row order.
#[verifier::opaque]
pub open spec fn spec_apply_patch(tiles: Seq<Tile>, w: int, h: int, p: PatchSpec) -> Seq<Tile> {
    let side = 2 * (spec_ceil_radius(p.radius_fp) + 1) + 1;
    spec_apply_patch_prefix(tiles, w, h, p, side * side)
}

/// A patch never writes outside the grid: an offset whose target cell is
/// out of bounds is skipped, and the store of in-bounds cells keeps its
/// size.
pub proof fn lemma_patch_stays_in_bounds(tiles: Seq<Tile>, w: int, h: int, p: PatchSpec, j: int)
    requires
        0 < w,
        0 < h,
        tiles.len() == w * h,
    ensures
        ({
            let rc1 = spec_ceil_radius(p.radius_fp) + 1;
            let side = 2 * rc1 + 1;
            let x = p.cx + (-rc1 + j / side);
            let y = p.cy + (-rc1 + j % side);
            !(0 <= x < w && 0 <= y < h) ==> spec_patch_step(tiles, w, h, p, j) == tiles
        }),
        spec_patch_step(tiles, w, h, p, j).len() == tiles.len(),
{
    let rc1 = spec_ceil_radius(p.radius_fp) + 1;
    let side = 2 * rc1 + 1;
    let x = p.cx + (-rc1 + j / side);
    let y = p.cy + (-rc1 + j % side);
    if 0 <= x < w && 0 <= y < h {
        assert(0 <= y * w + x < w * h) by (nonlinear_arith)
            requires
                0 <= x < w,
                0 <= y < h,
        ;
    }
}

/// Applies one patch to the grid: tests every cell offset of the padded
/// square around the center, in fixed row-by-row order, and gives each
/// eligible in-bounds cell exactly one write attempt. Cells outside the
/// grid are silently skipped.
pub fn apply_patch(grid: &mut TileGrid, p: PatchSpec)
    requires
        old(grid).wf(),
        p.wf(),
    ensures
        final(grid).wf(),
        final(grid).width == old(grid).width,
        final(grid).height == old(grid).height,
        final(grid).cell_size == old(grid).cell_size,
        final(grid).tiles@ == spec_apply_patch(
            old(grid).tiles@,
            old(grid).width as int,
            old(grid).height as int,
            p,
        ),
{
    let ghost tiles0 = old(grid).tiles@;
    let ghost w = old(grid).width as int;
    let ghost h = old(grid).height as int;
    let rc = (((p.radius_fp + (FP - 1)) as u64) / (FP as u64)) as i64;
    assert(rc == spec_ceil_radius(p.radius_fp));
    assert(0 <= rc <= 977);
    let rc1 = rc + 1;
    let side = 2 * rc1 + 1;
    proof {
        lemma_mul_upper_bound(side as int, 1959, side as int, 1959);
        lemma_mul_nonnegative(side as int, side as int);
    }
    let total = (side * side) as usize;
    let noise = NoiseField::new(p.noise_seed);
    let side_us = side as usize;
    let mut j: usize = 0;
    while j < total
        invariant
            grid.wf(),
            grid.width == old(grid).width,
            grid.height == old(grid).height,
            grid.cell_size == old(grid).cell_size,
            w == old(grid).width as int,
            h == old(grid).height as int,
            tiles0 == old(grid).tiles@,
            p.wf(),
            noise.seed == p.noise_seed,
            0 <= rc <= 977,
            rc == spec_ceil_radius(p.radius_fp),
            rc1 == rc + 1,
            side == 2 * rc1 + 1,
            side_us == side,
            total == side * side,
            j <= total,
            grid.tiles@ == spec_apply_patch_prefix(tiles0, w, h, p, j as int),
        decreases total - j,
    {
        proof {
            lemma_multiply_divide_lt(j as int, side as int, side as int);
        }
        let dx = -rc1 + ((j / side_us) as i64);
        let dy = -rc1 + ((j % side_us) as i64);
        let x = p.cx + dx;
        let y = p.cy + dy;
        let ok = eligible(&noise, p.radius_fp, p.freq_fp, p.amp_fp, dx, dy);
        if ok && grid.in_bounds(x, y) {
            grid.write_kind(x, y, p.kind);
        }
        proof {
            assert(grid.tiles@ == spec_patch_step(
                spec_apply_patch_prefix(tiles0, w, h, p, j as int),
                w,
                h,
                p,
                j as int,
            ));
            assert(grid.tiles@ == spec_apply_patch_prefix(tiles0, w, h, p, j as int + 1));
        }
        j = j + 1;
    }
    proof {
        reveal(spec_apply_patch);
        assert(grid.tiles@ == spec_apply_patch(tiles0, w, h, p));
    }
}

/// The patch center numbered `i` of one pass, together with the two
/// jitter draws it consumes: centers run w-major, h-minor over the
/// lattice `(w * width / countAxis, h * height / countAxis)` for `w` and
/// `h` in `1 .. countAxis`, each coordinate jittered uniformly from
/// `[-maxJitter, maxJitter]`.
pub open spec fn spec_center(width: int, height: int, ca: int, jitter: i64, s0: u64, i: int) -> (
    i64,
    i64,
) {
    let wi = 1 + i / (ca - 1);
    let hi = 1 + i % (ca - 1);
    let bx = wi * width / ca;
    let by = hi * height / ca;
    let lo = (-(jitter as int)) as i64;
    let up = ((jitter as int) + 1) as i64;
    (
        (bx + uniform_of(state_after(s0, (2 * i) as nat), lo, up)) as i64,
        (by + uniform_of(state_after(s0, (2 * i + 1) as nat), lo, up)) as i64,
    )
}

/// Every patch center coordinate stays within [`CENTER_LIMIT`].
pub proof fn lemma_center_bounds(width: int, height: int, ca: int, jitter: i64, s0: u64, i: int)
    requires
        1 <= width <= GRID_MAX,
        1 <= height <= GRID_MAX,
        2 <= ca <= 64,
        0 <= jitter <= JITTER_MAX,
        0 <= i < (ca - 1) * (ca - 1),
    ensures
        -CENTER_LIMIT <= spec_center(width, height, ca, jitter, s0, i).0 <= CENTER_LIMIT,
        -CENTER_LIMIT <= spec_center(width, height, ca, jitter, s0, i).1 <= CENTER_LIMIT,
{
    let d = ca - 1;
    lemma_multiply_divide_lt(i, d, d);
    lemma_div_pos_is_pos(i, d);
    let wi = 1 + i / d;
    let hi = 1 + i % d;
    assert(1 <= wi <= ca);
    assert(1 <= hi <= ca);
    lemma_mul_upper_bound(wi, 64, width, GRID_MAX as int);
    lemma_mul_upper_bound(hi, 64, height, GRID_MAX as int);
    lemma_mul_nonnegative(wi, width);
    lemma_mul_nonnegative(hi, height);
    lemma_div_pos_is_pos(wi * width, ca);
    lemma_div_pos_is_pos(hi * height, ca);
    lemma_div_nonincreasing(wi * width, ca);
    lemma_div_nonincreasing(hi * height, ca);
    let lo = (-(jitter as int)) as i64;
    let up = ((jitter as int) + 1) as i64;
    crate::rng::lemma_uniform_of_range(state_after(s0, (2 * i) as nat), lo, up);
    crate::rng::lemma_uniform_of_range(state_after(s0, (2 * i + 1) as nat), lo, up);
}

/// Places the patch centers of one pass: `(countAxis - 1)^2` jittered
/// lattice points, in w-major, h-minor order. The order is load-bearing:
/// later patches may overwrite earlier ones.
pub fn place_centers(
    width: i64,
    height: i64,
    count_axis: i64,
    max_jitter: i64,
    rng: &mut SeededRandomSource,
) -> (r: Vec<(i64, i64)>)
    requires
        1 <= width <= GRID_MAX,
        1 <= height <= GRID_MAX,
        2 <= count_axis <= 64,
        0 <= max_jitter <= JITTER_MAX,
    ensures
        r@.len() == (count_axis - 1) * (count_axis - 1),
        forall|i: int|
            0 <= i < r@.len() ==> r@[i] == spec_center(
                width as int,
                height as int,
                count_axis as int,
                max_jitter,
                old(rng).state,
                i,
            ),
        final(rng).state == state_after(
            old(rng).state,
            (2 * (count_axis - 1) * (count_axis - 1)) as nat,
        ),
{
    let ghost s0 = rng.state;
    let d = (count_axis - 1) as usize;
    proof {
        lemma_mul_upper_bound(d as int, 63, d as int, 63);
        lemma_mul_nonnegative(d as int, d as int);
    }
    let n = d * d;
    let mut r: Vec<(i64, i64)> = Vec::new();
    let mut i: usize = 0;
    while i < n
        invariant
            1 <= width <= GRID_MAX,
            1 <= height <= GRID_MAX,
            2 <= count_axis <= 64,
            0 <= max_jitter <= JITTER_MAX,
            d == count_axis - 1,
            n == d * d,
            i <= n,
            r@.len() == i,
            rng.state == state_after(s0, (2 * i) as nat),
            forall|k: int|
                0 <= k < i ==> r@[k] == spec_center(
                    width as int,
                    height as int,
                    count_axis as int,
                    max_jitter,
                    s0,
                    k,
                ),
        decreases n - i,
    {
        proof {
            lemma_multiply_divide_lt(i as int, d as int, d as int);
            lemma_div_pos_is_pos(i as int, d as int);
        }
        let wi = 1 + i / d;
        let hi = 1 + i % d;
        proof {
            lemma_mul_upper_bound(wi as int, 64, width as int, GRID_MAX as int);
            lemma_mul_upper_bound(hi as int, 64, height as int, GRID_MAX as int);
            lemma_mul_nonnegative(wi as int, width as int);
            lemma_mul_nonnegative(hi as int, height as int);
            lemma_div_pos_is_pos(wi as int * width as int, count_axis as int);
            lemma_div_pos_is_pos(hi as int * height as int, count_axis as int);
            lemma_div_nonincreasing(wi as int * width as int, count_axis as int);
            lemma_div_nonincreasing(hi as int * height as int, count_axis as int);
        }
        let bx = (((wi as u64) * (width as u64)) / (count_axis as u64)) as i64;
        let by = (((hi as u64) * (height as u64)) / (count_axis as u64)) as i64;
        let jx = rng.uniform_int(-max_jitter, max_jitter + 1);
        let jy = rng.uniform_int(-max_jitter, max_jitter + 1);
        proof {
            assert(state_after(s0, (2 * i + 1) as nat) == next_state(state_after(s0, (2 * i) as nat)));
            assert(state_after(s0, (2 * i + 2) as nat) == next_state(state_after(s0, (2 * i + 1) as nat)));
        }
        r.push((bx + jx, by + jy));
        i = i + 1;
    }
    proof {
        assert(2 * (count_axis - 1) * (count_axis - 1) == 2 * ((count_axis - 1) * (count_axis - 1)))
            by (nonlinear_arith);
    }
    r
}

/// The grid contents after one patch round: the radius, frequency,
/// amplitude and noise seed drawn from state `s` in that order, then the
/// patch applied at the given center.
pub open spec fn spec_patch_round(
    tiles: Seq<Tile>,
    w: int,
    h: int,
    cfg: PassConfig,
    center: (i64, i64),
    s: u64,
) -> Seq<Tile> {
    let radius = uniform_of(s, cfg.radius_min, ((cfg.radius_max as int) + 1) as i64);
    let s1 = next_state(s);
    let freq = uniform_of(s1, cfg.freq_min, ((cfg.freq_max as int) + 1) as i64);
    let s2 = next_state(s1);
    let amp = uniform_of(s2, cfg.amp_min, ((cfg.amp_max as int) + 1) as i64);
    let s3 = next_state(s2);
    let nseed = output_of(s3);
    spec_apply_patch(
        tiles,
        w,
        h,
        PatchSpec {
            kind: cfg.kind,
            cx: center.0,
            cy: center.1,
            radius_fp: radius,
            freq_fp: freq,
            amp_fp: amp,
            noise_seed: nseed,
        },
    )
}

/// The grid contents after the first `n` patch rounds of one pass, the
/// round of center `k` drawing from state `state_after(s_c, 4 * k)`.
pub open spec fn spec_gen_prefix(
    tiles: Seq<Tile>,
    w: int,
    h: int,
    cfg: PassConfig,
    centers: Seq<(i64, i64)>,
    s_c: u64,
    n: int,
) -> Seq<Tile>
    decreases n,
{
    if n <= 0 {
        tiles
    } else {
        spec_patch_round(
            spec_gen_prefix(tiles, w, h, cfg, centers, s_c, n - 1),
            w,
            h,
            cfg,
            centers[n - 1],
            state_after(s_c, (4 * (n - 1)) as nat),
        )
    }
}

/// The grid contents after one whole pass from random state `s0`: the
/// centers are placed first (two draws each), then every patch round runs
/// in center order (four draws each).
pub open spec fn spec_generate_patches(
    tiles: Seq<Tile>,
    w: int,
    h: int,
    cfg: PassConfig,
    s0: u64,
) -> Seq<Tile> {
    let n = cfg.spec_patch_count();
    let centers = Seq::new(
        n as nat,
        |i: int| spec_center(w, h, cfg.count_axis as int, cfg.max_jitter, s0, i),
    );
    spec_gen_prefix(tiles, w, h, cfg, centers, state_after(s0, (2 * n) as nat), n)
}

/// Runs one generation pass: places the pass's centers, then, for each
/// center in order, draws that patch's radius, frequency, amplitude and
/// noise seed and applies the patch under the layer-composition rules.
#[verifier::rlimit(60)]
pub fn generate_patches(grid: &mut TileGrid, rng: &mut SeededRandomSource, cfg: PassConfig)
    requires
        old(grid).wf(),
        cfg.wf(),
    ensures
        final(grid).wf(),
        final(grid).width == old(grid).width,
        final(grid).height == old(grid).height,
        final(grid).cell_size == old(grid).cell_size,
        final(grid).tiles@ == spec_generate_patches(
            old(grid).tiles@,
            old(grid).width as int,
            old(grid).height as int,
            cfg,
            old(rng).state,
        ),
        final(rng).state == state_after(old(rng).state, (6 * cfg.spec_patch_count()) as nat),
{
    let ghost s0 = rng.state;
    let ghost tiles0 = old(grid).tiles@;
    let ghost w = old(grid).width as int;
    let ghost h = old(grid).height as int;
    let ghost count_axis_ghost = cfg.count_axis as int;
    let width = grid.width as i64;
    let height = grid.height as i64;
    let centers = place_centers(width, height, cfg.count_axis, cfg.max_jitter, rng);
    let ghost s_c = rng.state;
    let ghost n = cfg.spec_patch_count();
    let ghost centers_spec = Seq::new(
        n as nat,
        |i: int| spec_center(w, h, cfg.count_axis as int, cfg.max_jitter, s0, i),
    );
    proof {
        assert(n >= 1) by (nonlinear_arith)
            requires
                n == (count_axis_ghost - 1) * (count_axis_ghost - 1),
                2 <= count_axis_ghost,
        ;
        assert(centers@ =~= centers_spec);
    }
    let count = centers.len();
    let mut k: usize = 0;
    while k < count
        invariant
            grid.wf(),
            grid.width == old(grid).width,
            grid.height == old(grid).height,
            grid.cell_size == old(grid).cell_size,
            w == old(grid).width as int,
            h == old(grid).height as int,
            tiles0 == old(grid).tiles@,
            cfg.wf(),
            n == cfg.spec_patch_count(),
            count == centers@.len(),
            forall|i: int|
                0 <= i < count ==> centers@[i] == spec_center(
                    w,
                    h,
                    count_axis_ghost,
                    cfg.max_jitter,
                    s0,
                    i,
                ),
            count_axis_ghost == cfg.count_axis as int,
            count == n,
            k <= count,
            rng.state == state_after(s_c, (4 * k) as nat),
            grid.tiles@ == spec_gen_prefix(tiles0, w, h, cfg, centers@, s_c, k as int),
        decreases count - k,
    {
        let c = centers[k];
        let ghost s_round = rng.state;
        let radius = rng.uniform_int(cfg.radius_min, cfg.radius_max + 1);
        let freq = rng.uniform_int(cfg.freq_min, cfg.freq_max + 1);
        let amp = rng.uniform_int(cfg.amp_min, cfg.amp_max + 1);
        let nseed = rng.next_u64();
        let p = PatchSpec {
            kind: cfg.kind,
            cx: c.0,
            cy: c.1,
            radius_fp: radius,
            freq_fp: freq,
            amp_fp: amp,
            noise_seed: nseed,
        };
        proof {
            assert(centers@[k as int] == spec_center(
                w,
                h,
                count_axis_ghost,
                cfg.max_jitter,
                s0,
                k as int,
            ));
            lemma_center_bounds(w, h, count_axis_ghost, cfg.max_jitter, s0, k as int);
            assert(p.wf());
        }
        apply_patch(grid, p);
        proof {
            assert(state_after(s_c, (4 * k + 1) as nat) == next_state(state_after(s_c, (4 * k) as nat)));
            assert(state_after(s_c, (4 * k + 2) as nat) == next_state(state_after(s_c, (4 * k + 1) as nat)));
            assert(state_after(s_c, (4 * k + 3) as nat) == next_state(state_after(s_c, (4 * k + 2) as nat)));
            assert(state_after(s_c, (4 * k + 4) as nat) == next_state(state_after(s_c, (4 * k + 3) as nat)));
            assert(grid.tiles@ == spec_patch_round(
                spec_gen_prefix(tiles0, w, h, cfg, centers@, s_c, k as int),
                w,
                h,
                cfg,
                centers@[k as int],
                s_round,
            ));
            assert(grid.tiles@ == spec_gen_prefix(tiles0, w, h, cfg, centers@, s_c, k as int + 1));
        }
        k = k + 1;
    }
    proof {
        assert(2 * (count_axis_ghost - 1) * (count_axis_ghost - 1) == 2 * n) by (nonlinear_arith)
            requires
                n == (count_axis_ghost - 1) * (count_axis_ghost - 1),
        ;
        assert(s_c == state_after(s0, (2 * n) as nat));
        assert(grid.tiles@ == spec_generate_patches(tiles0, w, h, cfg, s0));
        crate::rng::lemma_state_after_add(s0, (2 * n) as nat, (4 * n) as nat);
        assert(rng.state == state_after(s0, (6 * n) as nat));
    }
}

} // verus!
