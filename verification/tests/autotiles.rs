//! Tests of the ordered autotile table and the resolver.

use mapgen::autotile::{autotile_table, lookup, resolve, FALLBACK_VARIANT, RULE_COUNT};
use mapgen::grid::TileGrid;
use mapgen::kind::{Kind, Layer, SpecialKind, TerrainKind};

// Pattern bits, in the fixed neighbor order.
const NW: u8 = 1;
const N: u8 = 2;
const NE: u8 = 4;
const W: u8 = 8;
const E: u8 = 16;
const SW: u8 = 32;
const S: u8 = 64;
const SE: u8 = 128;

#[test]
fn every_pattern_resolves_to_a_defined_variant() {
    for p in 0..=255_u8 {
        let (variant, _) = lookup(p);
        assert!(variant <= 48, "pattern {} gave variant {}", p, variant);
    }
}

#[test]
fn table_has_the_documented_shape() {
    let t = autotile_table();
    assert_eq!(t.len(), RULE_COUNT);
    for r in &t {
        // Required bits lie within the compared positions.
        assert_eq!(r.require & !r.care, 0);
        assert!(r.variant <= 48);
        if let Some(b) = r.background {
            assert!(b < 8);
        }
    }
}

#[test]
fn full_surround_is_the_full_tile() {
    assert_eq!(lookup(0xFF), (8, None));
}

#[test]
fn no_neighbor_match_falls_back() {
    assert_eq!(lookup(0), (FALLBACK_VARIANT, None));
}

#[test]
fn outer_corner_and_edge_rows() {
    // Top-left outer corner: east, south and south-east match.
    assert_eq!(lookup(E | S | SE), (0, Some(1)));
    // Top-right outer corner: west, south and south-west match.
    assert_eq!(lookup(W | S | SW), (2, Some(1)));
    // Bottom-left outer corner: north, north-east and east match.
    assert_eq!(lookup(N | NE | E), (14, Some(3)));
    // Bottom-right outer corner: north-west, north and west match.
    assert_eq!(lookup(NW | N | W), (16, Some(4)));
    // Edges: one cardinal out, both adjacent diagonals in.
    assert_eq!(lookup(0xFF & !N & !NW & !NE).0, 1);
    assert_eq!(lookup(0xFF & !W & !NW & !SW).0, 7);
    assert_eq!(lookup(0xFF & !E & !NE & !SE).0, 9);
    assert_eq!(lookup(0xFF & !S & !SW & !SE).0, 15);
}

#[test]
fn wildcard_diagonals_are_ignored() {
    // The top-left corner rule ignores NW, NE and SW.
    assert_eq!(lookup(E | S | SE | NW | NE | SW).0, 0);
}

#[test]
fn first_match_is_order_sensitive() {
    // All cardinals with one missing diagonal is an inner corner, not the
    // full tile: the full-tile row must not swallow it.
    assert_eq!(lookup(0xFF & !NW).0, 17);
    assert_eq!(lookup(0xFF & !NE).0, 18);
    assert_eq!(lookup(0xFF & !SW).0, 19);
    assert_eq!(lookup(0xFF & !SE).0, 20);
}

#[test]
fn center_of_plain_block_resolves_to_full_tile() {
    // A 3-by-3 fully plain block surrounded by desert: the center's
    // pattern is all-true, the variant the full tile.
    let mut g = TileGrid::new(5, 5, 1, TerrainKind::Desert);
    for y in 1..=3_i64 {
        for x in 1..=3_i64 {
            g.write_kind(x, y, Kind::Terrain(TerrainKind::Plain));
        }
    }
    assert_eq!(resolve(&g, 2, 2, Layer::Terrain), (8, None));
}

#[test]
fn isolated_plain_cell_resolves_to_fallback() {
    // A single plain cell with all 8 neighbors non-plain: the pattern is
    // all-false and the variant the fallback.
    let mut g = TileGrid::new(3, 3, 1, TerrainKind::Desert);
    g.write_kind(1, 1, Kind::Terrain(TerrainKind::Plain));
    assert_eq!(resolve(&g, 1, 1, Layer::Terrain), (FALLBACK_VARIANT, None));
}

#[test]
fn missing_neighbors_match_the_cell_itself() {
    // On a 1-by-1 grid every neighbor is missing, reads as matching, and
    // the cell resolves as fully surrounded.
    let g = TileGrid::new(1, 1, 1, TerrainKind::Plain);
    assert_eq!(resolve(&g, 0, 0, Layer::Terrain), (8, None));
    // The corner of a uniform grid likewise.
    let u = TileGrid::new(3, 3, 1, TerrainKind::Plain);
    assert_eq!(resolve(&u, 0, 0, Layer::Terrain), (8, None));
    assert_eq!(resolve(&u, 2, 2, Layer::Terrain), (8, None));
}

#[test]
fn special_layer_always_resolves_plainly() {
    let mut g = TileGrid::new(3, 3, 1, TerrainKind::Desert);
    g.write_kind(1, 1, Kind::Special(SpecialKind::Fish));
    g.write_kind(0, 0, Kind::Special(SpecialKind::Corn));
    for y in 0..3_i64 {
        for x in 0..3_i64 {
            assert_eq!(resolve(&g, x, y, Layer::Special), (0, None));
        }
    }
}

#[test]
fn background_is_the_designated_neighbor_kind() {
    // A 2-by-2 plain block in a desert sea: each block cell is one outer
    // corner, and its background is the desert neighbor it blends over.
    let mut g = TileGrid::new(4, 4, 1, TerrainKind::Desert);
    for &(x, y) in &[(1_i64, 1_i64), (2, 1), (1, 2), (2, 2)] {
        g.write_kind(x, y, Kind::Terrain(TerrainKind::Plain));
    }
    let desert = Some(Kind::Terrain(TerrainKind::Desert));
    assert_eq!(resolve(&g, 1, 2, Layer::Terrain), (0, desert));
    assert_eq!(resolve(&g, 2, 2, Layer::Terrain), (2, desert));
    assert_eq!(resolve(&g, 1, 1, Layer::Terrain), (14, desert));
    assert_eq!(resolve(&g, 2, 1, Layer::Terrain), (16, desert));
}

#[test]
fn feature_layer_absence_is_a_value() {
    // A featureless cell among featureless neighbors matches everywhere.
    let g = TileGrid::new(3, 3, 1, TerrainKind::Plain);
    assert_eq!(resolve(&g, 1, 1, Layer::Feature), (8, None));
    // A lone forest among featureless neighbors matches nowhere.
    let mut f = TileGrid::new(3, 3, 1, TerrainKind::Plain);
    f.write_kind(1, 1, Kind::Feature(mapgen::kind::FeatureKind::Forest));
    assert_eq!(resolve(&f, 1, 1, Layer::Feature), (FALLBACK_VARIANT, None));
}
