//! The tagged union of cell kinds and the layer each kind belongs to.
//!
//! A kind is one of three disjoint families: terrain, feature or special.
//! Equality requires the same family and the same variant. Each kind maps to
//! exactly one layer by a fixed derivation.

use vstd::prelude::*;

verus! {

/// The ground family: exactly one terrain kind is present on every tile.
#[derive(Clone, Copy, PartialEq, Eq, Structural, Debug)]
pub enum TerrainKind {
    Plain,
    Desert,
}

/// The feature family: at most one feature kind per tile.
#[derive(Clone, Copy, PartialEq, Eq, Structural, Debug)]
pub enum FeatureKind {
    Ocean,
    Forest,
    Hill,
    Mountain,
}

/// The special family: at most one special kind per tile.
#[derive(Clone, Copy, PartialEq, Eq, Structural, Debug)]
pub enum SpecialKind {
    Lumber,
    Corn,
    Fish,
}

/// A kind from any of the three families.
#[derive(Clone, Copy, PartialEq, Eq, Structural, Debug)]
pub enum Kind {
    Terrain(TerrainKind),
    Feature(FeatureKind),
    Special(SpecialKind),
}

/// One of the three orthogonal per-cell classification axes.
#[derive(Clone, Copy, PartialEq, Eq, Structural, Debug)]
pub enum Layer {
    Terrain,
    Feature,
    Special,
}

/// The fixed derivation from a kind to the single layer it occupies.
pub open spec fn spec_layer_of(k: Kind) -> Layer {
    match k {
        Kind::Terrain(_) => Layer::Terrain,
        Kind::Feature(_) => Layer::Feature,
        Kind::Special(_) => Layer::Special,
    }
}

/// Maps a kind to the single layer it occupies.
pub fn layer_of(k: Kind) -> (l: Layer)
    ensures
        l == spec_layer_of(k),
{
    match k {
        Kind::Terrain(_) => Layer::Terrain,
        Kind::Feature(_) => Layer::Feature,
        Kind::Special(_) => Layer::Special,
    }
}

} // verus!
