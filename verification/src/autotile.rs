//! The autotile resolver: from a cell's 8-neighbor match pattern to the
//! tile variant that draws it, with an optional background kind.
//!
//! For a queried cell and layer, the kinds of the 8 Moore neighbors are
//! gathered in the fixed order NW, N, NE, W, E, SW, S, SE; a neighbor
//! outside the grid counts as matching the cell's own kind. Each neighbor
//! that holds the same kind as the cell sets one bit of an 8-bit pattern.
//! An ordered table of 47 partial-pattern rules — each position match,
//! no-match or wildcard — is then evaluated top to bottom; the first
//! matching rule names the variant and designates the neighbor whose kind
//! is drawn beneath partial tiles; a pattern no rule matches falls back to
//! variant [`FALLBACK_VARIANT`] with no background. The special layer is
//! never blended: it always resolves to `(0, None)`.
//!
//! Variants index a 7-by-7 tileset row-major: rows 0 to 2, columns 0 to 2
//! hold the solid block (corners, edges, and the full tile at 8); the other
//! cells hold inner corners, pipes, caps and their combinations; 24 is the
//! lone fallback tile.

use vstd::prelude::*;

use crate::grid::{spec_kind_on, Tile, TileGrid};
use crate::kind::{Kind, Layer};

verus! {

/// The number of specific rules in the ordered table.
pub const RULE_COUNT: usize = 47;

/// The variant of a pattern that no specific rule matches.
pub const FALLBACK_VARIANT: u8 = 24;

/// One ordered partial-pattern rule.
///
/// A neighbor position whose bit is set in `care` is compared: the pattern
/// matches the rule when, on those positions, it equals `require`. A zero
/// bit in `care` is a wildcard. `background` designates the neighbor whose
/// kind is drawn beneath the tile, by position index, or nothing for tiles
/// that cover the whole cell.
#[derive(Clone, Copy, PartialEq, Eq, Structural, Debug)]
pub struct Rule {
    /// The required values of the compared pattern bits.
    pub require: u8,
    /// The compared positions; zero bits are wildcards.
    pub care: u8,
    /// The tile variant this rule selects, in `0 ..= 48`.
    pub variant: u8,
    /// The designated background neighbor position, if any.
    pub background: Option<u8>,
}

/// Whether a pattern matches a rule on every compared position.
pub open spec fn rule_matches(r: Rule, p: u8) -> bool {
    p & r.care == r.require
}

/// The rule at one position of the ordered table.
///
/// The table classifies patterns by their four cardinal bits and, where
/// both cardinals beside a diagonal match, by that diagonal: corners,
/// edges, the full tile, inner corners, pipes, caps, the isolated cell.
/// The designated background is the first non-matching neighbor in the
/// order N, W, E, S, NW, NE, SW, SE; full and isolated tiles have none.
pub open spec fn spec_rule(i: int) -> Rule {
    if i == 0 { Rule { require: 255, care: 255, variant: 8, background: None } } else
    if i == 1 { Rule { require: 254, care: 255, variant: 17, background: Some(0u8) } } else
    if i == 2 { Rule { require: 251, care: 255, variant: 18, background: Some(2u8) } } else
    if i == 3 { Rule { require: 223, care: 255, variant: 19, background: Some(5u8) } } else
    if i == 4 { Rule { require: 127, care: 255, variant: 20, background: Some(7u8) } } else
    if i == 5 { Rule { require: 250, care: 255, variant: 21, background: Some(0u8) } } else
    if i == 6 { Rule { require: 95, care: 255, variant: 22, background: Some(5u8) } } else
    if i == 7 { Rule { require: 222, care: 255, variant: 23, background: Some(0u8) } } else
    if i == 8 { Rule { require: 123, care: 255, variant: 25, background: Some(2u8) } } else
    if i == 9 { Rule { require: 126, care: 255, variant: 26, background: Some(0u8) } } else
    if i == 10 { Rule { require: 219, care: 255, variant: 27, background: Some(2u8) } } else
    if i == 11 { Rule { require: 218, care: 255, variant: 28, background: Some(0u8) } } else
    if i == 12 { Rule { require: 122, care: 255, variant: 29, background: Some(0u8) } } else
    if i == 13 { Rule { require: 94, care: 255, variant: 30, background: Some(0u8) } } else
    if i == 14 { Rule { require: 91, care: 255, variant: 31, background: Some(2u8) } } else
    if i == 15 { Rule { require: 90, care: 255, variant: 32, background: Some(0u8) } } else
    if i == 16 { Rule { require: 248, care: 250, variant: 1, background: Some(1u8) } } else
    if i == 17 { Rule { require: 216, care: 250, variant: 33, background: Some(1u8) } } else
    if i == 18 { Rule { require: 120, care: 250, variant: 34, background: Some(1u8) } } else
    if i == 19 { Rule { require: 88, care: 250, variant: 35, background: Some(1u8) } } else
    if i == 20 { Rule { require: 31, care: 95, variant: 15, background: Some(6u8) } } else
    if i == 21 { Rule { require: 30, care: 95, variant: 36, background: Some(6u8) } } else
    if i == 22 { Rule { require: 27, care: 95, variant: 37, background: Some(6u8) } } else
    if i == 23 { Rule { require: 26, care: 95, variant: 38, background: Some(6u8) } } else
    if i == 24 { Rule { require: 214, care: 222, variant: 7, background: Some(3u8) } } else
    if i == 25 { Rule { require: 210, care: 222, variant: 39, background: Some(3u8) } } else
    if i == 26 { Rule { require: 86, care: 222, variant: 40, background: Some(3u8) } } else
    if i == 27 { Rule { require: 82, care: 222, variant: 41, background: Some(3u8) } } else
    if i == 28 { Rule { require: 107, care: 123, variant: 9, background: Some(4u8) } } else
    if i == 29 { Rule { require: 106, care: 123, variant: 42, background: Some(4u8) } } else
    if i == 30 { Rule { require: 75, care: 123, variant: 43, background: Some(4u8) } } else
    if i == 31 { Rule { require: 74, care: 123, variant: 44, background: Some(4u8) } } else
    if i == 32 { Rule { require: 208, care: 218, variant: 0, background: Some(1u8) } } else
    if i == 33 { Rule { require: 80, care: 218, variant: 3, background: Some(1u8) } } else
    if i == 34 { Rule { require: 104, care: 122, variant: 2, background: Some(1u8) } } else
    if i == 35 { Rule { require: 72, care: 122, variant: 4, background: Some(1u8) } } else
    if i == 36 { Rule { require: 22, care: 94, variant: 14, background: Some(3u8) } } else
    if i == 37 { Rule { require: 18, care: 94, variant: 5, background: Some(3u8) } } else
    if i == 38 { Rule { require: 11, care: 91, variant: 16, background: Some(4u8) } } else
    if i == 39 { Rule { require: 10, care: 91, variant: 6, background: Some(4u8) } } else
    if i == 40 { Rule { require: 66, care: 90, variant: 10, background: Some(3u8) } } else
    if i == 41 { Rule { require: 24, care: 90, variant: 11, background: Some(1u8) } } else
    if i == 42 { Rule { require: 2, care: 90, variant: 12, background: Some(3u8) } } else
    if i == 43 { Rule { require: 64, care: 90, variant: 13, background: Some(1u8) } } else
    if i == 44 { Rule { require: 8, care: 90, variant: 45, background: Some(1u8) } } else
    if i == 45 { Rule { require: 16, care: 90, variant: 46, background: Some(1u8) } } else {
        Rule { require: 0, care: 90, variant: 24, background: None }
    }
}

/// The ordered autotile table, as a sequence.
pub open spec fn spec_table() -> Seq<Rule> {
    Seq::new(RULE_COUNT as nat, |i: int| spec_rule(i))
}

/// The rule at one position of the ordered table.
pub fn rule_at(i: usize) -> (r: Rule)
    requires
        i < RULE_COUNT,
    ensures
        r == spec_rule(i as int),
{
    match i {
        0 => Rule { require: 255, care: 255, variant: 8, background: None },
        1 => Rule { require: 254, care: 255, variant: 17, background: Some(0u8) },
        2 => Rule { require: 251, care: 255, variant: 18, background: Some(2u8) },
        3 => Rule { require: 223, care: 255, variant: 19, background: Some(5u8) },
        4 => Rule { require: 127, care: 255, variant: 20, background: Some(7u8) },
        5 => Rule { require: 250, care: 255, variant: 21, background: Some(0u8) },
        6 => Rule { require: 95, care: 255, variant: 22, background: Some(5u8) },
        7 => Rule { require: 222, care: 255, variant: 23, background: Some(0u8) },
        8 => Rule { require: 123, care: 255, variant: 25, background: Some(2u8) },
        9 => Rule { require: 126, care: 255, variant: 26, background: Some(0u8) },
        10 => Rule { require: 219, care: 255, variant: 27, background: Some(2u8) },
        11 => Rule { require: 218, care: 255, variant: 28, background: Some(0u8) },
        12 => Rule { require: 122, care: 255, variant: 29, background: Some(0u8) },
        13 => Rule { require: 94, care: 255, variant: 30, background: Some(0u8) },
        14 => Rule { require: 91, care: 255, variant: 31, background: Some(2u8) },
        15 => Rule { require: 90, care: 255, variant: 32, background: Some(0u8) },
        16 => Rule { require: 248, care: 250, variant: 1, background: Some(1u8) },
        17 => Rule { require: 216, care: 250, variant: 33, background: Some(1u8) },
        18 => Rule { require: 120, care: 250, variant: 34, background: Some(1u8) },
        19 => Rule { require: 88, care: 250, variant: 35, background: Some(1u8) },
        20 => Rule { require: 31, care: 95, variant: 15, background: Some(6u8) },
        21 => Rule { require: 30, care: 95, variant: 36, background: Some(6u8) },
        22 => Rule { require: 27, care: 95, variant: 37, background: Some(6u8) },
        23 => Rule { require: 26, care: 95, variant: 38, background: Some(6u8) },
        24 => Rule { require: 214, care: 222, variant: 7, background: Some(3u8) },
        25 => Rule { require: 210, care: 222, variant: 39, background: Some(3u8) },
        26 => Rule { require: 86, care: 222, variant: 40, background: Some(3u8) },
        27 => Rule { require: 82, care: 222, variant: 41, background: Some(3u8) },
        28 => Rule { require: 107, care: 123, variant: 9, background: Some(4u8) },
        29 => Rule { require: 106, care: 123, variant: 42, background: Some(4u8) },
        30 => Rule { require: 75, care: 123, variant: 43, background: Some(4u8) },
        31 => Rule { require: 74, care: 123, variant: 44, background: Some(4u8) },
        32 => Rule { require: 208, care: 218, variant: 0, background: Some(1u8) },
        33 => Rule { require: 80, care: 218, variant: 3, background: Some(1u8) },
        34 => Rule { require: 104, care: 122, variant: 2, background: Some(1u8) },
        35 => Rule { require: 72, care: 122, variant: 4, background: Some(1u8) },
        36 => Rule { require: 22, care: 94, variant: 14, background: Some(3u8) },
        37 => Rule { require: 18, care: 94, variant: 5, background: Some(3u8) },
        38 => Rule { require: 11, care: 91, variant: 16, background: Some(4u8) },
        39 => Rule { require: 10, care: 91, variant: 6, background: Some(4u8) },
        40 => Rule { require: 66, care: 90, variant: 10, background: Some(3u8) },
        41 => Rule { require: 24, care: 90, variant: 11, background: Some(1u8) },
        42 => Rule { require: 2, care: 90, variant: 12, background: Some(3u8) },
        43 => Rule { require: 64, care: 90, variant: 13, background: Some(1u8) },
        44 => Rule { require: 8, care: 90, variant: 45, background: Some(1u8) },
        45 => Rule { require: 16, care: 90, variant: 46, background: Some(1u8) },
        _ => Rule { require: 0, care: 90, variant: 24, background: None },
    }
}

/// The ordered autotile table, as a vector.
pub fn autotile_table() -> (v: Vec<Rule>)
    ensures
        v@ == spec_table(),
{
    let mut v: Vec<Rule> = Vec::new();
    let mut i: usize = 0;
    while i < RULE_COUNT
        invariant
            i <= RULE_COUNT,
            v@.len() == i,
            forall|j: int| 0 <= j < i ==> v@[j] == spec_rule(j),
        decreases RULE_COUNT - i,
    {
        v.push(rule_at(i));
        i = i + 1;
    }
    proof {
        assert(v@ =~= spec_table());
    }
    v
}

/// The first rule of a sequence that a pattern matches, if any.
pub open spec fn spec_first_match(rules: Seq<Rule>, p: u8) -> Option<Rule>
    decreases rules.len(),
{
    if rules.len() == 0 {
        None
    } else if rule_matches(rules[0], p) {
        Some(rules[0])
    } else {
        spec_first_match(rules.drop_first(), p)
    }
}

/// The variant and designated background position of a pattern: the first
/// matching rule of the ordered table decides, and a pattern that matches
/// no rule falls back to [`FALLBACK_VARIANT`] with no background.
pub open spec fn spec_lookup(p: u8) -> (u8, Option<u8>) {
    match spec_first_match(spec_table(), p) {
        Some(r) => (r.variant, r.background),
        None => (FALLBACK_VARIANT, None),
    }
}

/// A sequence none of whose rules matches a pattern has no first match.
proof fn lemma_first_match_none(rules: Seq<Rule>, p: u8)
    requires
        forall|i: int| 0 <= i < rules.len() ==> !rule_matches(#[trigger] rules[i], p),
    ensures
        spec_first_match(rules, p) is None,
    decreases rules.len(),
{
    if rules.len() > 0 {
        lemma_first_match_none(rules.drop_first(), p);
    }
}

/// A first match, where there is one, is an element of the sequence.
proof fn lemma_first_match_member(rules: Seq<Rule>, p: u8)
    requires
        spec_first_match(rules, p) is Some,
    ensures
        exists|i: int|
            0 <= i < rules.len() && rules[i] == spec_first_match(rules, p)->Some_0,
    decreases rules.len(),
{
    if rule_matches(rules[0], p) {
        assert(rules[0] == spec_first_match(rules, p)->Some_0);
    } else {
        lemma_first_match_member(rules.drop_first(), p);
        let i0 = choose|i: int|
            0 <= i < rules.drop_first().len() && rules.drop_first()[i] == spec_first_match(
                rules.drop_first(),
                p,
            )->Some_0;
        assert(rules[i0 + 1] == rules.drop_first()[i0]);
    }
}

/// Every rule of the table selects a variant in `0 ..= 48` and, where it
/// designates a background, a neighbor position in `0 .. 8`.
proof fn lemma_table_entries_in_range(i: int)
    ensures
        spec_rule(i).variant <= 48,
        spec_rule(i).background is Some ==> spec_rule(i).background->Some_0 < 8,
{
}

/// Every one of the 256 possible patterns resolves to a defined variant:
/// one of the tileset's `0 ..= 48`, with any designated background one of
/// the 8 neighbor positions.
pub proof fn lemma_lookup_in_range(p: u8)
    ensures
        spec_lookup(p).0 <= 48,
        spec_lookup(p).1 is Some ==> spec_lookup(p).1->Some_0 < 8,
{
    if spec_first_match(spec_table(), p) is Some {
        lemma_first_match_member(spec_table(), p);
        let i = choose|i: int|
            0 <= i < spec_table().len() && spec_table()[i] == spec_first_match(
                spec_table(),
                p,
            )->Some_0;
        lemma_table_entries_in_range(i);
    }
}

/// Fallback completeness: every pattern resolves — [`spec_lookup`] is
/// total — and a pattern that matches no rule of the table resolves to
/// the fallback variant with no background.
pub proof fn lemma_fallback(p: u8)
    requires
        forall|i: int|
            0 <= i < spec_table().len() ==> !rule_matches(#[trigger] spec_table()[i], p),
    ensures
        spec_lookup(p) == (FALLBACK_VARIANT, None::<u8>),
{
    lemma_first_match_none(spec_table(), p);
}

/// Evaluates the ordered table top to bottom on a pattern: the first
/// matching rule's variant and background position, or the fallback.
pub fn lookup(p: u8) -> (r: (u8, Option<u8>))
    ensures
        r == spec_lookup(p),
{
    let mut i: usize = 0;
    proof {
        assert(spec_table().skip(0) =~= spec_table());
    }
    while i < RULE_COUNT
        invariant
            i <= RULE_COUNT,
            spec_first_match(spec_table().skip(i as int), p) == spec_first_match(
                spec_table(),
                p,
            ),
        decreases RULE_COUNT - i,
    {
        let r = rule_at(i);
        if p & r.care == r.require {
            proof {
                assert(spec_table().skip(i as int)[0] == spec_rule(i as int));
            }
            return (r.variant, r.background);
        }
        proof {
            assert(spec_table().skip(i as int).drop_first() =~= spec_table().skip(i as int + 1));
        }
        i = i + 1;
    }
    proof {
        assert(spec_table().skip(RULE_COUNT as int) =~= Seq::<Rule>::empty());
    }
    (FALLBACK_VARIANT, None)
}

/// The offset of one neighbor position, in the order NW, N, NE, W, E,
/// SW, S, SE; north is toward increasing y, east toward increasing x.
pub open spec fn spec_neighbor_offset(i: int) -> (int, int) {
    if i == 0 { (-1, 1) }
    else if i == 1 { (0, 1) }
    else if i == 2 { (1, 1) }
    else if i == 3 { (-1, 0) }
    else if i == 4 { (1, 0) }
    else if i == 5 { (-1, -1) }
    else if i == 6 { (0, -1) }
    else { (1, -1) }
}

/// The kind the queried cell itself holds on the queried layer.
pub open spec fn spec_own_kind(g: TileGrid, x: int, y: int, layer: Layer) -> Option<Kind> {
    spec_kind_on(g.spec_tile_at(x, y), layer)
}

/// The value one neighbor contributes: its kind on the queried layer, or,
/// where the neighbor lies outside the grid, the queried cell's own kind —
/// a missing neighbor at the map edge reads as matching.
pub open spec fn spec_neighbor_value(g: TileGrid, x: int, y: int, layer: Layer, i: int) -> Option<
    Kind,
> {
    let (dx, dy) = spec_neighbor_offset(i);
    if g.spec_in_bounds(x + dx, y + dy) {
        spec_kind_on(g.spec_tile_at(x + dx, y + dy), layer)
    } else {
        spec_own_kind(g, x, y, layer)
    }
}

/// Whether one neighbor matches the queried cell's own kind.
pub open spec fn spec_pattern_bit(g: TileGrid, x: int, y: int, layer: Layer, i: int) -> bool {
    spec_neighbor_value(g, x, y, layer, i) == spec_own_kind(g, x, y, layer)
}

/// Edge default: a neighbor position that lies outside the grid always
/// reads as matching the queried cell's own kind.
pub proof fn lemma_edge_default(g: TileGrid, x: int, y: int, layer: Layer, i: int)
    requires
        !g.spec_in_bounds(x + spec_neighbor_offset(i).0, y + spec_neighbor_offset(i).1),
    ensures
        spec_pattern_bit(g, x, y, layer, i),
{
}

/// The 8-bit match pattern of a cell on a layer: bit `i` is set when
/// neighbor position `i` matches the cell's own kind.
pub open spec fn spec_pattern(g: TileGrid, x: int, y: int, layer: Layer) -> u8 {
    (if spec_pattern_bit(g, x, y, layer, 0) { 1u8 } else { 0u8 })
        | (if spec_pattern_bit(g, x, y, layer, 1) { 2u8 } else { 0u8 })
        | (if spec_pattern_bit(g, x, y, layer, 2) { 4u8 } else { 0u8 })
        | (if spec_pattern_bit(g, x, y, layer, 3) { 8u8 } else { 0u8 })
        | (if spec_pattern_bit(g, x, y, layer, 4) { 16u8 } else { 0u8 })
        | (if spec_pattern_bit(g, x, y, layer, 5) { 32u8 } else { 0u8 })
        | (if spec_pattern_bit(g, x, y, layer, 6) { 64u8 } else { 0u8 })
        | (if spec_pattern_bit(g, x, y, layer, 7) { 128u8 } else { 0u8 })
}

/// What resolving a cell returns: for the special layer always `(0, None)`;
/// for the terrain and feature layers the looked-up variant, and the kind
/// of the designated background neighbor, if one is designated.
pub open spec fn spec_resolve(g: TileGrid, x: int, y: int, layer: Layer) -> (u8, Option<Kind>) {
    if layer == Layer::Special {
        (0u8, None)
    } else {
        let p = spec_pattern(g, x, y, layer);
        let (variant, bg) = spec_lookup(p);
        (
            variant,
            match bg {
                Some(i) => spec_neighbor_value(g, x, y, layer, i as int),
                None => None,
            },
        )
    }
}

/// Whether two optional kinds are the same entry: both absent, or both
/// the same family and variant.
fn kinds_equal(a: Option<Kind>, b: Option<Kind>) -> (r: bool)
    ensures
        r == (a == b),
{
    match (a, b) {
        (None, None) => true,
        (Some(x), Some(y)) => x == y,
        _ => false,
    }
}

/// The offset of one neighbor position.
fn neighbor_offset(i: u8) -> (r: (i64, i64))
    ensures
        (r.0 as int, r.1 as int) == spec_neighbor_offset(i as int),
{
    if i == 0 { (-1, 1) }
    else if i == 1 { (0, 1) }
    else if i == 2 { (1, 1) }
    else if i == 3 { (-1, 0) }
    else if i == 4 { (1, 0) }
    else if i == 5 { (-1, -1) }
    else if i == 6 { (0, -1) }
    else { (1, -1) }
}

/// The value one neighbor contributes to the pattern of a cell.
pub fn neighbor_value(grid: &TileGrid, x: i64, y: i64, layer: Layer, i: u8) -> (r: Option<Kind>)
    requires
        grid.wf(),
        grid.spec_in_bounds(x as int, y as int),
    ensures
        r == spec_neighbor_value(*grid, x as int, y as int, layer, i as int),
{
    let (dx, dy) = neighbor_offset(i);
    let nx = x + dx;
    let ny = y + dy;
    if grid.in_bounds(nx, ny) {
        grid.tile(nx, ny).kind_on(layer)
    } else {
        grid.tile(x, y).kind_on(layer)
    }
}

/// The 8-bit match pattern of a cell on a layer.
pub fn pattern_of(grid: &TileGrid, x: i64, y: i64, layer: Layer) -> (p: u8)
    requires
        grid.wf(),
        grid.spec_in_bounds(x as int, y as int),
    ensures
        p == spec_pattern(*grid, x as int, y as int, layer),
{
    let own = grid.tile(x, y).kind_on(layer);
    let b0 = kinds_equal(neighbor_value(grid, x, y, layer, 0), own);
    let b1 = kinds_equal(neighbor_value(grid, x, y, layer, 1), own);
    let b2 = kinds_equal(neighbor_value(grid, x, y, layer, 2), own);
    let b3 = kinds_equal(neighbor_value(grid, x, y, layer, 3), own);
    let b4 = kinds_equal(neighbor_value(grid, x, y, layer, 4), own);
    let b5 = kinds_equal(neighbor_value(grid, x, y, layer, 5), own);
    let b6 = kinds_equal(neighbor_value(grid, x, y, layer, 6), own);
    let b7 = kinds_equal(neighbor_value(grid, x, y, layer, 7), own);
    (if b0 { 1u8 } else { 0u8 })
        | (if b1 { 2u8 } else { 0u8 })
        | (if b2 { 4u8 } else { 0u8 })
        | (if b3 { 8u8 } else { 0u8 })
        | (if b4 { 16u8 } else { 0u8 })
        | (if b5 { 32u8 } else { 0u8 })
        | (if b6 { 64u8 } else { 0u8 })
        | (if b7 { 128u8 } else { 0u8 })
}

/// Resolves one cell of a finished grid on one layer to its tile variant
/// and its optional background kind.
///
/// Pure and read-only: call it only after every generation pass for the
/// queried layer is complete. The special layer always resolves to
/// `(0, None)` — specials are full, centered, never blended. A missing
/// neighbor at the map edge counts as matching the cell's own kind.
pub fn resolve(grid: &TileGrid, x: i64, y: i64, layer: Layer) -> (r: (u8, Option<Kind>))
    requires
        grid.wf(),
        grid.spec_in_bounds(x as int, y as int),
    ensures
        r == spec_resolve(*grid, x as int, y as int, layer),
{
    match layer {
        Layer::Special => (0, None),
        _ => {
            let p = pattern_of(grid, x, y, layer);
            let (variant, bg) = lookup(p);
            let background = match bg {
                Some(i) => neighbor_value(grid, x, y, layer, i),
                None => None,
            };
            (variant, background)
        },
    }
}

} // verus!
