//! The map builder: a strictly ordered pass pipeline from one seed to one
//! finished grid.
//!
//! Building runs: grid initialization (the uniform base fill), then each
//! configured pass in order, every pass placing and applying its patches in
//! the fixed orders of the placer and the shaper. The whole run is a pure
//! function of the seed and the configuration: two builds from the same
//! seed and configuration give identical grids. Invalid configuration
//! ranges fail at construction with a [`ConfigError`]; generation itself
//! cannot fail.

use vstd::prelude::*;

use crate::grid::{spec_base_tiles, TileGrid, CELL_SIZE_MAX, GRID_MAX};
use crate::kind::TerrainKind;
use crate::patch::{
    generate_patches, spec_generate_patches, PassConfig, AMP_MAX, FREQ_MAX, JITTER_MAX, RADIUS_MAX,
};
use crate::rng::{state_after, SeededRandomSource};
use crate::grid::Tile;

verus! {

/// An invalid configuration, named by the first offending field: ranges
/// must be nonempty and within their caps, dimensions and cell size
/// within theirs.
#[derive(Clone, Copy, PartialEq, Eq, Structural, Debug)]
pub enum ConfigError {
    /// The width or the height lies outside `[1, GRID_MAX]`.
    Dimensions,
    /// The cell size lies outside `[0, CELL_SIZE_MAX]`.
    CellSize,
    /// A pass's count axis lies outside `[2, 64]`.
    PatchCount,
    /// A pass's jitter lies outside `[0, JITTER_MAX]`.
    Jitter,
    /// A pass's radius range is empty or outside `[0, RADIUS_MAX]`.
    RadiusRange,
    /// A pass's frequency range is empty or outside `[0, FREQ_MAX]`.
    FrequencyRange,
    /// A pass's amplitude range is empty or outside `[0, AMP_MAX]`.
    AmplitudeRange,
}

/// The first error of one pass, checked in the fixed order: count axis,
/// jitter, radius range, frequency range, amplitude range.
pub open spec fn spec_pass_error(p: PassConfig) -> Option<ConfigError> {
    if !(2 <= p.count_axis <= 64) {
        Some(ConfigError::PatchCount)
    } else if !(0 <= p.max_jitter <= JITTER_MAX) {
        Some(ConfigError::Jitter)
    } else if !(0 <= p.radius_min <= p.radius_max <= RADIUS_MAX) {
        Some(ConfigError::RadiusRange)
    } else if !(0 <= p.freq_min <= p.freq_max <= FREQ_MAX) {
        Some(ConfigError::FrequencyRange)
    } else if !(0 <= p.amp_min <= p.amp_max <= AMP_MAX) {
        Some(ConfigError::AmplitudeRange)
    } else {
        None
    }
}

/// A pass without an error is exactly a well-formed pass.
pub proof fn lemma_pass_error_none(p: PassConfig)
    ensures
        spec_pass_error(p) is None <==> p.wf(),
{
}

/// The first error among a sequence of passes, scanned front to back.
pub open spec fn spec_passes_error(passes: Seq<PassConfig>) -> Option<ConfigError>
    decreases passes.len(),
{
    if passes.len() == 0 {
        None
    } else {
        match spec_pass_error(passes[0]) {
            Some(e) => Some(e),
            None => spec_passes_error(passes.drop_first()),
        }
    }
}

/// The first error of a whole configuration: dimensions, then cell size,
/// then the passes in order.
pub open spec fn spec_config_error(
    width: int,
    height: int,
    cell_size: i64,
    passes: Seq<PassConfig>,
) -> Option<ConfigError> {
    if !(1 <= width <= GRID_MAX && 1 <= height <= GRID_MAX) {
        Some(ConfigError::Dimensions)
    } else if !(0 <= cell_size <= CELL_SIZE_MAX) {
        Some(ConfigError::CellSize)
    } else {
        spec_passes_error(passes)
    }
}

/// The first error of one pass.
pub fn pass_error(p: &PassConfig) -> (r: Option<ConfigError>)
    ensures
        r == spec_pass_error(*p),
{
    if !(2 <= p.count_axis && p.count_axis <= 64) {
        Some(ConfigError::PatchCount)
    } else if !(0 <= p.max_jitter && p.max_jitter <= JITTER_MAX) {
        Some(ConfigError::Jitter)
    } else if !(0 <= p.radius_min && p.radius_min <= p.radius_max && p.radius_max <= RADIUS_MAX) {
        Some(ConfigError::RadiusRange)
    } else if !(0 <= p.freq_min && p.freq_min <= p.freq_max && p.freq_max <= FREQ_MAX) {
        Some(ConfigError::FrequencyRange)
    } else if !(0 <= p.amp_min && p.amp_min <= p.amp_max && p.amp_max <= AMP_MAX) {
        Some(ConfigError::AmplitudeRange)
    } else {
        None
    }
}

/// The configuration of a whole build: the grid's dimensions and cell
/// size, the base terrain of the uniform initial fill, and the ordered
/// generation passes.
pub struct BuildConfig {
    /// The number of cells along the x axis.
    pub width: usize,
    /// The number of cells along the y axis.
    pub height: usize,
    /// The render size of one cell.
    pub cell_size: i64,
    /// The terrain every cell starts with.
    pub base: TerrainKind,
    /// The generation passes, run in order.
    pub passes: Vec<PassConfig>,
}

impl BuildConfig {
    /// A configuration is well formed when its dimensions, cell size and
    /// every pass lie within their ranges.
    pub open spec fn wf(self) -> bool {
        &&& 1 <= self.width <= GRID_MAX
        &&& 1 <= self.height <= GRID_MAX
        &&& 0 <= self.cell_size <= CELL_SIZE_MAX
        &&& forall|i: int| 0 <= i < self.passes@.len() ==> (#[trigger] self.passes@[i]).wf()
    }

    /// Validates and constructs a configuration. Fails with the first
    /// offending field's error, in the fixed check order; a configuration
    /// this accepts is well formed.
    pub fn new(
        width: usize,
        height: usize,
        cell_size: i64,
        base: TerrainKind,
        passes: Vec<PassConfig>,
    ) -> (r: Result<BuildConfig, ConfigError>)
        ensures
            match r {
                Ok(c) => {
                    &&& spec_config_error(width as int, height as int, cell_size, passes@) is None
                    &&& c.wf()
                    &&& c.width == width
                    &&& c.height == height
                    &&& c.cell_size == cell_size
                    &&& c.base == base
                    &&& c.passes@ == passes@
                },
                Err(e) => spec_config_error(width as int, height as int, cell_size, passes@)
                    == Some(e),
            },
    {
        if !(1 <= width && width <= GRID_MAX && 1 <= height && height <= GRID_MAX) {
            return Err(ConfigError::Dimensions);
        }
        if !(0 <= cell_size && cell_size <= CELL_SIZE_MAX) {
            return Err(ConfigError::CellSize);
        }
        let count = passes.len();
        let mut i: usize = 0;
        proof {
            assert(passes@.skip(0) =~= passes@);
        }
        while i < count
            invariant
                1 <= width <= GRID_MAX,
                1 <= height <= GRID_MAX,
                0 <= cell_size <= CELL_SIZE_MAX,
                count == passes@.len(),
                i <= count,
                spec_passes_error(passes@.skip(i as int)) == spec_passes_error(passes@),
                forall|j: int| 0 <= j < i ==> (#[trigger] passes@[j]).wf(),
            decreases count - i,
        {
            let e = pass_error(&passes[i]);
            proof {
                assert(passes@.skip(i as int)[0] == passes@[i as int]);
            }
            match e {
                Some(err) => {
                    return Err(err);
                },
                None => {
                    proof {
                        lemma_pass_error_none(passes@[i as int]);
                        assert(passes@.skip(i as int).drop_first() =~= passes@.skip(i as int + 1));
                    }
                },
            }
            i = i + 1;
        }
        proof {
            assert(passes@.skip(count as int) =~= Seq::<PassConfig>::empty());
        }
        Ok(BuildConfig { width, height, cell_size, base, passes })
    }
}

/// The grid contents and the random state after the first `n` passes.
pub open spec fn spec_run_passes(
    tiles: Seq<Tile>,
    w: int,
    h: int,
    passes: Seq<PassConfig>,
    seed: u64,
    n: int,
) -> (Seq<Tile>, u64)
    decreases n,
{
    if n <= 0 {
        (tiles, seed)
    } else {
        let prev = spec_run_passes(tiles, w, h, passes, seed, n - 1);
        let cfg = passes[n - 1];
        (
            spec_generate_patches(prev.0, w, h, cfg, prev.1),
            state_after(prev.1, (6 * cfg.spec_patch_count()) as nat),
        )
    }
}

/// The finished grid contents of one build: the uniform base fill, then
/// every pass in order, all driven by the one seed.
pub open spec fn spec_build(
    width: int,
    height: int,
    cell_size: i64,
    base: TerrainKind,
    passes: Seq<PassConfig>,
    seed: u64,
) -> Seq<Tile> {
    spec_run_passes(
        spec_base_tiles(width, height, cell_size, base),
        width,
        height,
        passes,
        seed,
        passes.len() as int,
    ).0
}

/// Determinism: the finished grid is a function of the seed and the
/// configuration alone — two builds of the same configuration from the
/// same seed produce identical grids.
pub proof fn lemma_build_deterministic(
    width: int,
    height: int,
    cell_size: i64,
    base: TerrainKind,
    passes: Seq<PassConfig>,
    seed: u64,
    g1: Seq<Tile>,
    g2: Seq<Tile>,
)
    requires
        g1 == spec_build(width, height, cell_size, base, passes, seed),
        g2 == spec_build(width, height, cell_size, base, passes, seed),
    ensures
        g1 == g2,
{
}

/// The orchestrator: one seed, one configuration, one finished grid.
pub struct MapBuilder {
    /// The seed that drives every random draw of the build.
    pub seed: u64,
    /// The validated configuration.
    pub config: BuildConfig,
}

impl MapBuilder {
    /// A builder is well formed when its configuration is.
    pub open spec fn wf(self) -> bool {
        self.config.wf()
    }

    /// Pairs a seed with a validated configuration.
    pub fn new(seed: u64, config: BuildConfig) -> (r: MapBuilder)
        requires
            config.wf(),
        ensures
            r.seed == seed,
            r.config == config,
            r.wf(),
    {
        MapBuilder { seed, config }
    }

    /// Runs the whole ordered pipeline: the uniform base fill, then every
    /// pass in order. The result is a pure function of the seed and the
    /// configuration; it is well formed — terrain on every cell, forest
    /// only on plain, exactly the in-bounds coordinates stored — and is
    /// handed out by value, an immutable snapshot.
    pub fn build(&self) -> (g: TileGrid)
        requires
            self.wf(),
        ensures
            g.wf(),
            g.width == self.config.width,
            g.height == self.config.height,
            g.cell_size == self.config.cell_size,
            g.tiles@ == spec_build(
                self.config.width as int,
                self.config.height as int,
                self.config.cell_size,
                self.config.base,
                self.config.passes@,
                self.seed,
            ),
    {
        let ghost w = self.config.width as int;
        let ghost h = self.config.height as int;
        let ghost base_tiles = spec_base_tiles(w, h, self.config.cell_size, self.config.base);
        let mut grid = TileGrid::new(
            self.config.width,
            self.config.height,
            self.config.cell_size,
            self.config.base,
        );
        let mut rng = SeededRandomSource::new(self.seed);
        let count = self.config.passes.len();
        let mut i: usize = 0;
        while i < count
            invariant
                self.wf(),
                count == self.config.passes@.len(),
                i <= count,
                w == self.config.width as int,
                h == self.config.height as int,
                base_tiles == spec_base_tiles(w, h, self.config.cell_size, self.config.base),
                grid.wf(),
                grid.width == self.config.width,
                grid.height == self.config.height,
                grid.cell_size == self.config.cell_size,
                (grid.tiles@, rng.state) == spec_run_passes(
                    base_tiles,
                    w,
                    h,
                    self.config.passes@,
                    self.seed,
                    i as int,
                ),
            decreases count - i,
        {
            let cfg = self.config.passes[i];
            generate_patches(&mut grid, &mut rng, cfg);
            i = i + 1;
        }
        grid
    }
}

} // verus!
