//! Tests of patch placement, patch application, and the build pipeline.

use mapgen::builder::{BuildConfig, ConfigError, MapBuilder};
use mapgen::grid::TileGrid;
use mapgen::kind::{FeatureKind, Kind, SpecialKind, TerrainKind};
use mapgen::patch::{apply_patch, place_centers, PassConfig, PatchSpec};
use mapgen::rng::SeededRandomSource;
use mapgen::FP;

fn pass(kind: Kind) -> PassConfig {
    PassConfig {
        kind,
        count_axis: 3,
        max_jitter: 2,
        radius_min: FP,
        radius_max: 3 * FP,
        freq_min: 512,
        freq_max: 2048,
        amp_min: 0,
        amp_max: FP,
    }
}

fn demo_config() -> BuildConfig {
    BuildConfig::new(
        24,
        24,
        16,
        TerrainKind::Desert,
        vec![
            pass(Kind::Terrain(TerrainKind::Plain)),
            pass(Kind::Feature(FeatureKind::Forest)),
            pass(Kind::Feature(FeatureKind::Mountain)),
            pass(Kind::Terrain(TerrainKind::Desert)),
            pass(Kind::Special(SpecialKind::Corn)),
        ],
    )
    .unwrap()
}

#[test]
fn placer_produces_the_jittered_lattice() {
    let mut rng = SeededRandomSource::new(5);
    let centers = place_centers(100, 80, 5, 2, &mut rng);
    assert_eq!(centers.len(), 16);
    // w-major, h-minor order over the lattice (w*100/5, h*80/5).
    for (i, &(x, y)) in centers.iter().enumerate() {
        let wi = 1 + (i as i64) / 4;
        let hi = 1 + (i as i64) % 4;
        assert!((x - wi * 20).abs() <= 2, "center {} x {}", i, x);
        assert!((y - hi * 16).abs() <= 2, "center {} y {}", i, y);
    }
}

#[test]
fn placer_is_deterministic() {
    let mut a = SeededRandomSource::new(9);
    let mut b = SeededRandomSource::new(9);
    assert_eq!(place_centers(50, 50, 4, 3, &mut a), place_centers(50, 50, 4, 3, &mut b));
}

#[test]
fn zero_amplitude_patch_is_an_exact_disk() {
    // One plain patch at (5, 5) with radius 3 and amplitude 0 on a 10-by-10
    // grid: exactly the cells with squared distance under 9 become plain,
    // the rest keep the default terrain.
    let mut rng = SeededRandomSource::new(42);
    let noise_seed = rng.next_u64();
    let mut g = TileGrid::new(10, 10, 1, TerrainKind::Desert);
    apply_patch(
        &mut g,
        PatchSpec {
            kind: Kind::Terrain(TerrainKind::Plain),
            cx: 5,
            cy: 5,
            radius_fp: 3 * FP,
            freq_fp: FP,
            amp_fp: 0,
            noise_seed,
        },
    );
    for y in 0..10_i64 {
        for x in 0..10_i64 {
            let d2 = (x - 5) * (x - 5) + (y - 5) * (y - 5);
            let want = if d2 < 9 { TerrainKind::Plain } else { TerrainKind::Desert };
            assert_eq!(g.get(x, y).unwrap().terrain, Some(want), "cell ({}, {})", x, y);
        }
    }
}

#[test]
fn patch_overlapping_the_edge_is_clamped() {
    // A patch centered outside the grid writes only its in-bounds cells.
    let mut g = TileGrid::new(6, 6, 1, TerrainKind::Desert);
    apply_patch(
        &mut g,
        PatchSpec {
            kind: Kind::Terrain(TerrainKind::Plain),
            cx: 0,
            cy: 0,
            radius_fp: 2 * FP,
            freq_fp: FP,
            amp_fp: 0,
            noise_seed: 7,
        },
    );
    assert_eq!(g.get(0, 0).unwrap().terrain, Some(TerrainKind::Plain));
    assert_eq!(g.get(1, 1).unwrap().terrain, Some(TerrainKind::Plain));
    assert_eq!(g.get(5, 5).unwrap().terrain, Some(TerrainKind::Desert));
    assert!(g.get(-1, -1).is_none());
}

#[test]
fn build_is_deterministic_per_seed() {
    let a = MapBuilder::new(42, demo_config()).build();
    let b = MapBuilder::new(42, demo_config()).build();
    assert!(a.same_as(&b));
}

#[test]
fn build_covers_exactly_the_grid_domain() {
    let g = MapBuilder::new(3, demo_config()).build();
    for y in 0..24_i64 {
        for x in 0..24_i64 {
            assert!(g.get(x, y).is_some());
        }
    }
    assert!(g.get(24, 0).is_none());
    assert!(g.get(0, 24).is_none());
    assert!(g.get(-1, 5).is_none());
}

#[test]
fn build_fills_terrain_everywhere() {
    let g = MapBuilder::new(8, demo_config()).build();
    for y in 0..24_i64 {
        for x in 0..24_i64 {
            assert!(g.get(x, y).unwrap().terrain.is_some(), "cell ({}, {})", x, y);
        }
    }
}

#[test]
fn build_keeps_forest_on_plain() {
    for seed in [0_u64, 1, 2, 3, 99] {
        let g = MapBuilder::new(seed, demo_config()).build();
        for y in 0..24_i64 {
            for x in 0..24_i64 {
                let t = g.get(x, y).unwrap();
                if t.feature == Some(FeatureKind::Forest) {
                    assert_eq!(t.terrain, Some(TerrainKind::Plain), "cell ({}, {})", x, y);
                }
            }
        }
    }
}

#[test]
fn build_caches_render_positions() {
    let g = MapBuilder::new(21, demo_config()).build();
    for y in 0..24_i64 {
        for x in 0..24_i64 {
            let t = g.get(x, y).unwrap();
            assert_eq!((t.render_x, t.render_y), (x * 16, y * 16));
        }
    }
}

#[test]
fn config_rejects_bad_dimensions() {
    let r = BuildConfig::new(0, 10, 1, TerrainKind::Plain, vec![]);
    assert_eq!(r.err(), Some(ConfigError::Dimensions));
    let r = BuildConfig::new(10, 5000, 1, TerrainKind::Plain, vec![]);
    assert_eq!(r.err(), Some(ConfigError::Dimensions));
}

#[test]
fn config_rejects_bad_cell_size() {
    let r = BuildConfig::new(10, 10, -1, TerrainKind::Plain, vec![]);
    assert_eq!(r.err(), Some(ConfigError::CellSize));
}

#[test]
fn config_rejects_bad_passes_by_first_offence() {
    let mut p = pass(Kind::Terrain(TerrainKind::Plain));
    p.count_axis = 1;
    let r = BuildConfig::new(10, 10, 1, TerrainKind::Plain, vec![p]);
    assert_eq!(r.err(), Some(ConfigError::PatchCount));

    let mut p = pass(Kind::Terrain(TerrainKind::Plain));
    p.max_jitter = -1;
    let r = BuildConfig::new(10, 10, 1, TerrainKind::Plain, vec![p]);
    assert_eq!(r.err(), Some(ConfigError::Jitter));

    let mut p = pass(Kind::Terrain(TerrainKind::Plain));
    p.radius_min = 2 * FP;
    p.radius_max = FP;
    let r = BuildConfig::new(10, 10, 1, TerrainKind::Plain, vec![p]);
    assert_eq!(r.err(), Some(ConfigError::RadiusRange));

    let mut p = pass(Kind::Terrain(TerrainKind::Plain));
    p.freq_min = -3;
    let r = BuildConfig::new(10, 10, 1, TerrainKind::Plain, vec![p]);
    assert_eq!(r.err(), Some(ConfigError::FrequencyRange));

    let mut p = pass(Kind::Terrain(TerrainKind::Plain));
    p.amp_max = 2_000_000;
    let r = BuildConfig::new(10, 10, 1, TerrainKind::Plain, vec![p]);
    assert_eq!(r.err(), Some(ConfigError::AmplitudeRange));

    // A later good pass does not mask an earlier bad one.
    let good = pass(Kind::Terrain(TerrainKind::Plain));
    let mut bad = good;
    bad.count_axis = 100;
    let r = BuildConfig::new(10, 10, 1, TerrainKind::Plain, vec![good, bad]);
    assert_eq!(r.err(), Some(ConfigError::PatchCount));
}

#[test]
fn config_accepts_valid_input() {
    let c = demo_config();
    assert_eq!(c.width, 24);
    assert_eq!(c.height, 24);
    assert_eq!(c.cell_size, 16);
    assert_eq!(c.passes.len(), 5);
}

#[test]
fn empty_pass_list_builds_the_bare_base_fill() {
    let cfg = BuildConfig::new(4, 4, 2, TerrainKind::Plain, vec![]).unwrap();
    let g = MapBuilder::new(77, cfg).build();
    for y in 0..4_i64 {
        for x in 0..4_i64 {
            let t = g.get(x, y).unwrap();
            assert_eq!(t.terrain, Some(TerrainKind::Plain));
            assert_eq!(t.feature, None);
            assert_eq!(t.special, None);
        }
    }
}
