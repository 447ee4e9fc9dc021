//! The map's data store: a dense grid of layered tiles.
//!
//! A tile holds at most one kind per layer; the terrain layer is filled for
//! every cell when the grid is made and is never emptied. Writes follow the
//! layer-composition rules: a terrain write clears the cell's feature, a
//! forest write succeeds only on plain terrain, and feature or special
//! writes never clear sibling layers.

use vstd::arithmetic::div_mod::lemma_fundamental_div_mod_converse;
use vstd::arithmetic::mul::lemma_mul_upper_bound;
use vstd::prelude::*;

use crate::kind::{FeatureKind, Kind, Layer, SpecialKind, TerrainKind};

verus! {

/// The largest accepted grid width and height, in cells.
pub const GRID_MAX: usize = 4096;

/// The largest accepted render cell size, in render units.
pub const CELL_SIZE_MAX: i64 = 1_000_000;

/// One cell's record: at most one kind per layer, plus the cached
/// render-space position of the cell.
#[derive(Clone, Copy, Debug)]
pub struct Tile {
    /// The terrain kind; filled at grid creation, never emptied.
    pub terrain: Option<TerrainKind>,
    /// The feature kind, if any.
    pub feature: Option<FeatureKind>,
    /// The special kind, if any.
    pub special: Option<SpecialKind>,
    /// The cached render-space x position: cell x times cell size.
    pub render_x: i64,
    /// The cached render-space y position: cell y times cell size.
    pub render_y: i64,
}

/// The kind a tile holds on one layer.
pub open spec fn spec_kind_on(t: Tile, layer: Layer) -> Option<Kind> {
    match layer {
        Layer::Terrain => match t.terrain {
            Some(k) => Some(Kind::Terrain(k)),
            None => None,
        },
        Layer::Feature => match t.feature {
            Some(k) => Some(Kind::Feature(k)),
            None => None,
        },
        Layer::Special => match t.special {
            Some(k) => Some(Kind::Special(k)),
            None => None,
        },
    }
}

/// The layer-composition rules, applied to one tile:
/// - a terrain write sets the terrain and clears the feature;
/// - a forest write succeeds only where the terrain is plain, and is
///   otherwise skipped;
/// - any other feature write sets the feature;
/// - a special write sets the special;
/// - no write clears a sibling layer, except terrain clearing the feature.
pub open spec fn spec_write_tile(t: Tile, k: Kind) -> Tile {
    match k {
        Kind::Terrain(tk) => Tile { terrain: Some(tk), feature: None, ..t },
        Kind::Feature(fk) => {
            if fk == FeatureKind::Forest {
                if t.terrain == Some(TerrainKind::Plain) {
                    Tile { feature: Some(fk), ..t }
                } else {
                    t
                }
            } else {
                Tile { feature: Some(fk), ..t }
            }
        },
        Kind::Special(sk) => Tile { special: Some(sk), ..t },
    }
}

/// A terrain write immediately removes the cell's existing feature.
pub proof fn lemma_terrain_write_clears_feature(t: Tile, tk: TerrainKind)
    ensures
        spec_write_tile(t, Kind::Terrain(tk)).feature is None,
        spec_write_tile(t, Kind::Terrain(tk)).terrain == Some(tk),
{
}

/// A tile that carries the forest feature carries plain terrain.
pub open spec fn forest_on_plain(t: Tile) -> bool {
    t.feature == Some(FeatureKind::Forest) ==> t.terrain == Some(TerrainKind::Plain)
}

/// A write keeps a tile's terrain filled and keeps forest on plain.
pub proof fn lemma_write_tile_wf(t: Tile, k: Kind)
    requires
        t.terrain is Some,
        forest_on_plain(t),
    ensures
        spec_write_tile(t, k).terrain is Some,
        forest_on_plain(spec_write_tile(t, k)),
        spec_write_tile(t, k).render_x == t.render_x,
        spec_write_tile(t, k).render_y == t.render_y,
{
}

impl PartialEq for Tile {
    fn eq(&self, other: &Tile) -> (r: bool) {
        let t = match (self.terrain, other.terrain) {
            (None, None) => true,
            (Some(a), Some(b)) => a == b,
            _ => false,
        };
        let f = match (self.feature, other.feature) {
            (None, None) => true,
            (Some(a), Some(b)) => a == b,
            _ => false,
        };
        let s = match (self.special, other.special) {
            (None, None) => true,
            (Some(a), Some(b)) => a == b,
            _ => false,
        };
        t && f && s && self.render_x == other.render_x && self.render_y == other.render_y
    }
}

impl vstd::std_specs::cmp::PartialEqSpecImpl for Tile {
    open spec fn obeys_eq_spec() -> bool {
        true
    }

    open spec fn eq_spec(&self, other: &Tile) -> bool {
        &&& self.terrain == other.terrain
        &&& self.feature == other.feature
        &&& self.special == other.special
        &&& self.render_x == other.render_x
        &&& self.render_y == other.render_y
    }
}

impl Eq for Tile {

}

impl Tile {
    /// A cell record is well formed at grid position `(x, y)` when its
    /// terrain is filled, a forest feature sits on plain terrain, and the
    /// cached render position is the position times the cell size.
    pub open spec fn wf_cell(self, x: int, y: int, cell_size: i64) -> bool {
        &&& self.terrain is Some
        &&& forest_on_plain(self)
        &&& self.render_x == x * cell_size
        &&& self.render_y == y * cell_size
    }

    /// The kind this tile holds on one layer.
    pub fn kind_on(&self, layer: Layer) -> (r: Option<Kind>)
        ensures
            r == spec_kind_on(*self, layer),
    {
        match layer {
            Layer::Terrain => match self.terrain {
                Some(k) => Some(Kind::Terrain(k)),
                None => None,
            },
            Layer::Feature => match self.feature {
                Some(k) => Some(Kind::Feature(k)),
                None => None,
            },
            Layer::Special => match self.special {
                Some(k) => Some(Kind::Special(k)),
                None => None,
            },
        }
    }
}

/// The map: a dense store of one tile per coordinate of
/// `[0, width) x [0, height)`, in row-major order.
pub struct TileGrid {
    /// The number of cells along the x axis.
    pub width: usize,
    /// The number of cells along the y axis.
    pub height: usize,
    /// The render size of one cell.
    pub cell_size: i64,
    /// The tiles, row-major: the tile of `(x, y)` is at `y * width + x`.
    pub tiles: Vec<Tile>,
}

/// Row-major position and division agree: splitting `y * w + x` by `w`
/// gives back `y` and `x`.
pub proof fn lemma_grid_index(w: int, x: int, y: int)
    requires
        0 <= x < w,
        0 <= y,
    ensures
        (y * w + x) / w == y,
        (y * w + x) % w == x,
        0 <= y * w + x,
{
    lemma_fundamental_div_mod_converse(y * w + x, w, y, x);
    lemma_mul_upper_bound(0, y, 0, w);
}

/// The uniform base fill: one tile per coordinate, row-major, each with
/// the base terrain, no feature, no special, and its cached render
/// position.
pub open spec fn spec_base_tiles(w: int, h: int, cell_size: i64, base: TerrainKind) -> Seq<Tile> {
    Seq::new(
        (w * h) as nat,
        |j: int| Tile {
            terrain: Some(base),
            feature: None,
            special: None,
            render_x: ((j % w) * cell_size) as i64,
            render_y: ((j / w) * cell_size) as i64,
        },
    )
}

impl TileGrid {
    /// Whether a coordinate lies in `[0, width) x [0, height)`.
    pub open spec fn spec_in_bounds(self, x: int, y: int) -> bool {
        0 <= x < self.width && 0 <= y < self.height
    }

    /// The row-major position of a coordinate.
    pub open spec fn spec_index(self, x: int, y: int) -> int {
        y * self.width + x
    }

    /// The tile at an in-bounds coordinate.
    pub open spec fn spec_tile_at(self, x: int, y: int) -> Tile {
        self.tiles@[self.spec_index(x, y)]
    }

    /// The grid's well-formedness: bounded dimensions, one tile per
    /// in-bounds coordinate and no other, and every tile well formed —
    /// terrain everywhere, forest only on plain, render positions cached.
    pub open spec fn wf(self) -> bool {
        &&& 1 <= self.width <= GRID_MAX
        &&& 1 <= self.height <= GRID_MAX
        &&& 0 <= self.cell_size <= CELL_SIZE_MAX
        &&& self.tiles@.len() == self.width * self.height
        &&& forall|x: int, y: int|
            self.spec_in_bounds(x, y) ==> (#[trigger] self.spec_tile_at(x, y)).wf_cell(
                x,
                y,
                self.cell_size,
            )
    }

    /// The dimensions and the cell size, as one tuple.
    pub open spec fn spec_dims(self) -> (int, int, i64) {
        (self.width as int, self.height as int, self.cell_size)
    }

    /// An in-bounds row-major position is a valid tile position.
    pub proof fn lemma_index_in_range(self, x: int, y: int)
        requires
            self.wf(),
            self.spec_in_bounds(x, y),
        ensures
            0 <= self.spec_index(x, y) < self.tiles@.len(),
    {
        lemma_grid_index(self.width as int, x, y);
        assert(y * self.width + x < self.width * self.height) by (nonlinear_arith)
            requires
                0 <= x < self.width,
                0 <= y < self.height,
        ;
    }

    /// Makes a grid of the given dimensions, every cell filled with the
    /// base terrain, no features, no specials: the uniform base fill.
    pub fn new(width: usize, height: usize, cell_size: i64, base: TerrainKind) -> (r: TileGrid)
        requires
            1 <= width <= GRID_MAX,
            1 <= height <= GRID_MAX,
            0 <= cell_size <= CELL_SIZE_MAX,
        ensures
            r.wf(),
            r.width == width,
            r.height == height,
            r.cell_size == cell_size,
            r.tiles@ == spec_base_tiles(width as int, height as int, cell_size, base),
            forall|x: int, y: int|
                r.spec_in_bounds(x, y) ==> #[trigger] r.spec_tile_at(x, y) == (Tile {
                    terrain: Some(base),
                    feature: None,
                    special: None,
                    render_x: (x * cell_size) as i64,
                    render_y: (y * cell_size) as i64,
                }),
    {
        proof {
            lemma_mul_upper_bound(width as int, GRID_MAX as int, height as int, GRID_MAX as int);
        }
        let total = width * height;
        let mut tiles: Vec<Tile> = Vec::new();
        let mut i: usize = 0;
        while i < total
            invariant
                total == width * height,
                1 <= width <= GRID_MAX,
                1 <= height <= GRID_MAX,
                0 <= cell_size <= CELL_SIZE_MAX,
                i <= total,
                tiles@.len() == i,
                forall|j: int|
                    0 <= j < i ==> #[trigger] tiles@[j] == (Tile {
                        terrain: Some(base),
                        feature: None,
                        special: None,
                        render_x: ((j % (width as int)) * cell_size) as i64,
                        render_y: ((j / (width as int)) * cell_size) as i64,
                    }),
            decreases total - i,
        {
            let x = i % width;
            let y = i / width;
            proof {
                vstd::arithmetic::div_mod::lemma_multiply_divide_lt(i as int, width as int, height as int);
                lemma_mul_upper_bound(x as int, GRID_MAX as int, cell_size as int, CELL_SIZE_MAX as int);
                lemma_mul_upper_bound(y as int, GRID_MAX as int, cell_size as int, CELL_SIZE_MAX as int);
                vstd::arithmetic::mul::lemma_mul_nonnegative(x as int, cell_size as int);
                vstd::arithmetic::mul::lemma_mul_nonnegative(y as int, cell_size as int);
            }
            let tile = Tile {
                terrain: Some(base),
                feature: None,
                special: None,
                render_x: (x as i64) * cell_size,
                render_y: (y as i64) * cell_size,
            };
            tiles.push(tile);
            i = i + 1;
        }
        let r = TileGrid { width, height, cell_size, tiles };
        proof {
            assert forall|x: int, y: int| r.spec_in_bounds(x, y) implies (#[trigger] r.spec_tile_at(
                x,
                y,
            ) == (Tile {
                terrain: Some(base),
                feature: None,
                special: None,
                render_x: (x * cell_size) as i64,
                render_y: (y * cell_size) as i64,
            }) && r.spec_tile_at(x, y).wf_cell(x, y, cell_size)) by {
                lemma_grid_index(width as int, x, y);
                lemma_mul_upper_bound(x, GRID_MAX as int, cell_size as int, CELL_SIZE_MAX as int);
                lemma_mul_upper_bound(y, GRID_MAX as int, cell_size as int, CELL_SIZE_MAX as int);
                vstd::arithmetic::mul::lemma_mul_nonnegative(x, cell_size as int);
                vstd::arithmetic::mul::lemma_mul_nonnegative(y, cell_size as int);
                assert(y * width + x < width * height) by (nonlinear_arith)
                    requires
                        0 <= x < width,
                        0 <= y < height,
                ;
            }
            assert(r.tiles@ =~= spec_base_tiles(width as int, height as int, cell_size, base));
        }
        r
    }

    /// Whether a coordinate lies inside the grid.
    pub fn in_bounds(&self, x: i64, y: i64) -> (r: bool)
        requires
            self.wf(),
        ensures
            r == self.spec_in_bounds(x as int, y as int),
    {
        0 <= x && x < self.width as i64 && 0 <= y && y < self.height as i64
    }

    /// The tile at a coordinate, or nothing where the coordinate lies
    /// outside the grid: absence at the edge is a value, not an error.
    pub fn get(&self, x: i64, y: i64) -> (r: Option<Tile>)
        requires
            self.wf(),
        ensures
            self.spec_in_bounds(x as int, y as int) ==> r == Some(
                self.spec_tile_at(x as int, y as int),
            ),
            !self.spec_in_bounds(x as int, y as int) ==> r is None,
    {
        if self.in_bounds(x, y) {
            proof {
                self.lemma_index_in_range(x as int, y as int);
                lemma_grid_index(self.width as int, x as int, y as int);
                lemma_mul_upper_bound(y as int, GRID_MAX as int, self.width as int, GRID_MAX as int);
            }
            let idx = (y as usize) * self.width + (x as usize);
            Some(self.tiles[idx])
        } else {
            None
        }
    }

    /// The tile at an in-bounds coordinate.
    pub fn tile(&self, x: i64, y: i64) -> (t: Tile)
        requires
            self.wf(),
            self.spec_in_bounds(x as int, y as int),
        ensures
            t == self.spec_tile_at(x as int, y as int),
    {
        proof {
            self.lemma_index_in_range(x as int, y as int);
            lemma_grid_index(self.width as int, x as int, y as int);
            lemma_mul_upper_bound(y as int, GRID_MAX as int, self.width as int, GRID_MAX as int);
        }
        let idx = (y as usize) * self.width + (x as usize);
        self.tiles[idx]
    }

    /// Whether two grids are the same map: equal dimensions, equal cell
    /// size, and equal tiles everywhere.
    pub fn same_as(&self, other: &TileGrid) -> (r: bool)
        ensures
            r == (self.width == other.width && self.height == other.height && self.cell_size
                == other.cell_size && self.tiles@ == other.tiles@),
    {
        if self.width != other.width || self.height != other.height || self.cell_size
            != other.cell_size || self.tiles.len() != other.tiles.len() {
            return false;
        }
        let n = self.tiles.len();
        let mut i: usize = 0;
        while i < n
            invariant
                n == self.tiles@.len(),
                n == other.tiles@.len(),
                i <= n,
                forall|j: int| 0 <= j < i ==> self.tiles@[j] == other.tiles@[j],
            decreases n - i,
        {
            let a = self.tiles[i];
            let b = other.tiles[i];
            if !(a == b) {
                return false;
            }
            i = i + 1;
        }
        proof {
            assert(self.tiles@ =~= other.tiles@);
        }
        true
    }

    /// Applies one write attempt to the cell at an in-bounds coordinate,
    /// under the layer-composition rules of [`spec_write_tile`].
    pub fn write_kind(&mut self, x: i64, y: i64, k: Kind)
        requires
            old(self).wf(),
            old(self).spec_in_bounds(x as int, y as int),
        ensures
            final(self).wf(),
            final(self).width == old(self).width,
            final(self).height == old(self).height,
            final(self).cell_size == old(self).cell_size,
            final(self).tiles@ == old(self).tiles@.update(
                old(self).spec_index(x as int, y as int),
                spec_write_tile(old(self).spec_tile_at(x as int, y as int), k),
            ),
            final(self).spec_tile_at(x as int, y as int) == spec_write_tile(
                old(self).spec_tile_at(x as int, y as int),
                k,
            ),
            forall|x2: int, y2: int|
                old(self).spec_in_bounds(x2, y2) && (x2 != x || y2 != y)
                    ==> #[trigger] final(self).spec_tile_at(x2, y2) == old(self).spec_tile_at(
                    x2,
                    y2,
                ),
    {
        proof {
            self.lemma_index_in_range(x as int, y as int);
            lemma_mul_upper_bound(y as int, GRID_MAX as int, self.width as int, GRID_MAX as int);
        }
        let idx = (y as usize) * self.width + (x as usize);
        let t = self.tiles[idx];
        let new_tile = match k {
            Kind::Terrain(tk) => Tile { terrain: Some(tk), feature: None, ..t },
            Kind::Feature(fk) => {
                let allowed = match fk {
                    FeatureKind::Forest => match t.terrain {
                        Some(TerrainKind::Plain) => true,
                        _ => false,
                    },
                    _ => true,
                };
                if allowed {
                    Tile { feature: Some(fk), ..t }
                } else {
                    t
                }
            },
            Kind::Special(sk) => Tile { special: Some(sk), ..t },
        };
        self.tiles[idx] = new_tile;
        proof {
            let w = old(self).width as int;
            let i0 = old(self).spec_index(x as int, y as int);
            assert(new_tile == spec_write_tile(old(self).spec_tile_at(x as int, y as int), k));
            assert forall|x2: int, y2: int|
                old(self).spec_in_bounds(x2, y2) && (x2 != x as int || y2 != y as int)
                    implies #[trigger] self.spec_tile_at(x2, y2) == old(self).spec_tile_at(
                x2,
                y2,
            ) by {
                old(self).lemma_index_in_range(x2, y2);
                lemma_grid_index(w, x2, y2);
                lemma_grid_index(w, x as int, y as int);
            }
            assert forall|x2: int, y2: int| self.spec_in_bounds(x2, y2) implies (
            #[trigger] self.spec_tile_at(x2, y2)).wf_cell(x2, y2, self.cell_size) by {
                old(self).lemma_index_in_range(x2, y2);
                if x2 == x as int && y2 == y as int {
                    lemma_write_tile_wf(old(self).spec_tile_at(x2, y2), k);
                } else {
                    lemma_grid_index(w, x2, y2);
                    lemma_grid_index(w, x as int, y as int);
                }
            }
        }
    }
}

/// Terrain totality: after creation every in-bounds coordinate holds a
/// tile with a terrain entry, and writes never remove it.
pub proof fn lemma_terrain_total(g: TileGrid, x: int, y: int)
    requires
        g.wf(),
        g.spec_in_bounds(x, y),
    ensures
        g.spec_tile_at(x, y).terrain is Some,
{
}

/// Forest invariant: every tile that carries the forest feature carries
/// plain terrain.
pub proof fn lemma_forest_needs_plain(g: TileGrid, x: int, y: int)
    requires
        g.wf(),
        g.spec_in_bounds(x, y),
        g.spec_tile_at(x, y).feature == Some(FeatureKind::Forest),
    ensures
        g.spec_tile_at(x, y).terrain == Some(TerrainKind::Plain),
{
}

/// Bounds: a well-formed grid holds exactly one tile per coordinate of
/// `[0, width) x [0, height)` — every in-bounds coordinate names a valid
/// store position, and the store has no other positions.
pub proof fn lemma_grid_domain(g: TileGrid)
    requires
        g.wf(),
    ensures
        g.tiles@.len() == g.width * g.height,
        forall|x: int, y: int|
            g.spec_in_bounds(x, y) ==> 0 <= #[trigger] g.spec_index(x, y) < g.tiles@.len(),
{
    assert forall|x: int, y: int|
        g.spec_in_bounds(x, y) implies 0 <= #[trigger] g.spec_index(x, y) < g.tiles@.len() by {
        g.lemma_index_in_range(x, y);
    }
}

} // verus!
