//! Deterministic, seed-driven generation of a grid-based world map.
//!
//! A seed drives a pseudo-random source and a coherent noise field; patch
//! centers are placed on a jittered lattice; each patch writes one kind of
//! terrain, feature or special into a layered tile grid under fixed
//! composition rules; a finished grid is then classified cell by cell into
//! one of 49 tile variants by an ordered 8-neighbor pattern table.
//!
//! All arithmetic is integer arithmetic; fractional quantities (noise values,
//! radii, frequencies, amplitudes) are fixed-point numbers with [`FP`]
//! sub-units per cell.

use vstd::prelude::*;

pub mod autotile;
pub mod builder;
pub mod grid;
pub mod kind;
pub mod noise;
pub mod patch;
pub mod rng;

verus! {

/// One whole cell, in fixed-point sub-units. A fixed-point value `v`
/// stands for the rational number `v / FP`.
pub const FP: i64 = 1024;

} // verus!
