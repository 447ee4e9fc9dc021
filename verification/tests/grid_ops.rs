//! Tests of the tile grid and the layer-composition rules.

use mapgen::grid::TileGrid;
use mapgen::kind::{layer_of, FeatureKind, Kind, Layer, SpecialKind, TerrainKind};

#[test]
fn new_grid_is_uniform_base_fill() {
    let g = TileGrid::new(4, 3, 16, TerrainKind::Desert);
    for y in 0..3_i64 {
        for x in 0..4_i64 {
            let t = g.get(x, y).unwrap();
            assert_eq!(t.terrain, Some(TerrainKind::Desert));
            assert_eq!(t.feature, None);
            assert_eq!(t.special, None);
            assert_eq!(t.render_x, x * 16);
            assert_eq!(t.render_y, y * 16);
        }
    }
}

#[test]
fn out_of_bounds_reads_are_absent_not_errors() {
    let g = TileGrid::new(4, 3, 16, TerrainKind::Plain);
    assert!(g.get(-1, 0).is_none());
    assert!(g.get(0, -1).is_none());
    assert!(g.get(4, 0).is_none());
    assert!(g.get(0, 3).is_none());
    assert!(g.get(3, 2).is_some());
}

#[test]
fn terrain_write_clears_feature() {
    let mut g = TileGrid::new(3, 3, 1, TerrainKind::Plain);
    g.write_kind(1, 1, Kind::Feature(FeatureKind::Forest));
    assert_eq!(g.get(1, 1).unwrap().feature, Some(FeatureKind::Forest));
    g.write_kind(1, 1, Kind::Terrain(TerrainKind::Desert));
    let t = g.get(1, 1).unwrap();
    assert_eq!(t.terrain, Some(TerrainKind::Desert));
    assert_eq!(t.feature, None);
}

#[test]
fn forest_needs_plain_terrain() {
    let mut g = TileGrid::new(3, 3, 1, TerrainKind::Desert);
    g.write_kind(0, 0, Kind::Feature(FeatureKind::Forest));
    assert_eq!(g.get(0, 0).unwrap().feature, None);
    g.write_kind(0, 0, Kind::Terrain(TerrainKind::Plain));
    g.write_kind(0, 0, Kind::Feature(FeatureKind::Forest));
    assert_eq!(g.get(0, 0).unwrap().feature, Some(FeatureKind::Forest));
}

#[test]
fn non_forest_features_write_anywhere() {
    let mut g = TileGrid::new(2, 2, 1, TerrainKind::Desert);
    g.write_kind(0, 0, Kind::Feature(FeatureKind::Ocean));
    g.write_kind(1, 0, Kind::Feature(FeatureKind::Hill));
    g.write_kind(0, 1, Kind::Feature(FeatureKind::Mountain));
    assert_eq!(g.get(0, 0).unwrap().feature, Some(FeatureKind::Ocean));
    assert_eq!(g.get(1, 0).unwrap().feature, Some(FeatureKind::Hill));
    assert_eq!(g.get(0, 1).unwrap().feature, Some(FeatureKind::Mountain));
}

#[test]
fn sibling_layers_survive_feature_and_special_writes() {
    let mut g = TileGrid::new(2, 2, 1, TerrainKind::Plain);
    g.write_kind(0, 0, Kind::Feature(FeatureKind::Forest));
    g.write_kind(0, 0, Kind::Special(SpecialKind::Lumber));
    let t = g.get(0, 0).unwrap();
    assert_eq!(t.terrain, Some(TerrainKind::Plain));
    assert_eq!(t.feature, Some(FeatureKind::Forest));
    assert_eq!(t.special, Some(SpecialKind::Lumber));
}

#[test]
fn one_kind_per_layer_last_write_wins() {
    let mut g = TileGrid::new(2, 2, 1, TerrainKind::Plain);
    g.write_kind(1, 1, Kind::Special(SpecialKind::Corn));
    g.write_kind(1, 1, Kind::Special(SpecialKind::Fish));
    assert_eq!(g.get(1, 1).unwrap().special, Some(SpecialKind::Fish));
}

#[test]
fn kind_on_reports_each_layer() {
    let mut g = TileGrid::new(1, 1, 1, TerrainKind::Plain);
    g.write_kind(0, 0, Kind::Special(SpecialKind::Corn));
    let t = g.get(0, 0).unwrap();
    assert_eq!(t.kind_on(Layer::Terrain), Some(Kind::Terrain(TerrainKind::Plain)));
    assert_eq!(t.kind_on(Layer::Feature), None);
    assert_eq!(t.kind_on(Layer::Special), Some(Kind::Special(SpecialKind::Corn)));
}

#[test]
fn same_as_compares_whole_grids() {
    let a = TileGrid::new(3, 2, 4, TerrainKind::Plain);
    let b = TileGrid::new(3, 2, 4, TerrainKind::Plain);
    assert!(a.same_as(&b));
    let mut c = TileGrid::new(3, 2, 4, TerrainKind::Plain);
    c.write_kind(2, 1, Kind::Feature(FeatureKind::Hill));
    assert!(!a.same_as(&c));
    let d = TileGrid::new(2, 3, 4, TerrainKind::Plain);
    assert!(!a.same_as(&d));
}

#[test]
fn largest_grid_dimension_is_accepted() {
    let g = TileGrid::new(4096, 2, 1, TerrainKind::Plain);
    assert!(g.get(4095, 1).is_some());
    assert!(g.get(4096, 1).is_none());
}

#[test]
fn each_kind_derives_its_layer() {
    assert_eq!(layer_of(Kind::Terrain(TerrainKind::Plain)), Layer::Terrain);
    assert_eq!(layer_of(Kind::Terrain(TerrainKind::Desert)), Layer::Terrain);
    assert_eq!(layer_of(Kind::Feature(FeatureKind::Ocean)), Layer::Feature);
    assert_eq!(layer_of(Kind::Feature(FeatureKind::Forest)), Layer::Feature);
    assert_eq!(layer_of(Kind::Special(SpecialKind::Fish)), Layer::Special);
}
