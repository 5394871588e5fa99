//! Tiles and the rule that decides whether a face between two tiles is drawn.

use vstd::prelude::*;

verus! {

/// How a tile takes part in face culling.
#[derive(Debug, Clone, Copy, PartialEq, Eq, Structural)]
pub enum TileVisibility {
    /// Nothing is there: never drawn, never hides a neighbour.
    Empty,
    /// Opaque material.
    Solid,
    /// See-through material.
    Transparent,
}

/// The face-emission table: does a tile of class `this` draw the face that
/// looks at a neighbour of class `neighbor`?
///
/// The table is deliberately not symmetric: a solid tile draws against
/// everything that is not solid, a transparent tile only against emptiness.
pub open spec fn spec_visible(this: TileVisibility, neighbor: TileVisibility) -> bool {
    match (this, neighbor) {
        (TileVisibility::Solid, TileVisibility::Empty) => true,
        (TileVisibility::Solid, TileVisibility::Transparent) => true,
        (TileVisibility::Transparent, TileVisibility::Empty) => true,
        _ => false,
    }
}

impl TileVisibility {
    /// Whether a tile of this class needs a face drawn toward a neighbour of
    /// class `rhs`.
    pub fn visible(&self, rhs: &Self) -> (drawn: bool)
        ensures
            drawn == spec_visible(*self, *rhs),
    {
        match (self, rhs) {
            (TileVisibility::Empty, _) => false,
            (TileVisibility::Solid, TileVisibility::Solid) => false,
            (TileVisibility::Solid, _) => true,
            (TileVisibility::Transparent, TileVisibility::Empty) => true,
            (TileVisibility::Transparent, _) => false,
        }
    }
}

/// Number of atlas regions that randomly generated tiles draw from.
pub const RANDOM_ATLAS_REGIONS: usize = 4;

/// The smallest addressable cell: a visibility class and the atlas region
/// that textures it.
#[derive(Debug, Clone, Copy, PartialEq, Eq, Structural)]
pub struct Tile {
    pub visibility: TileVisibility,
    pub index: usize,
}

impl Default for Tile {
    /// The empty tile with atlas region 0.
    fn default() -> (tile: Self)
        ensures
            tile == (Tile { visibility: TileVisibility::Empty, index: 0 }),
    {
        Tile { visibility: TileVisibility::Empty, index: 0 }
    }
}

/// `rand::Rng::gen_range` on `rand::thread_rng()` with the range `0..bound`:
/// a number below `bound`. Which one is left open; the call panics on an
/// empty range, so `bound` must be positive.
#[verifier::external_body]
fn random_below(bound: usize) -> (picked: usize)
    requires
        bound > 0,
    ensures
        picked < bound,
{
    rand::Rng::gen_range(&mut rand::thread_rng(), 0..bound)
}

impl Tile {
    pub fn new(visibility: TileVisibility, index: usize) -> (tile: Self)
        ensures
            tile == (Tile { visibility, index }),
    {
        Tile { visibility, index }
    }

    /// The tile that two samples stand for: `class_pick` chooses between the
    /// solid class (0) and the transparent class (1), `index` is the atlas
    /// region.
    pub fn from_sample(class_pick: usize, index: usize) -> (tile: Self)
        requires
            class_pick < 2,
        ensures
            tile.visibility == if class_pick == 0 {
                TileVisibility::Solid
            } else {
                TileVisibility::Transparent
            },
            tile.index == index,
    {
        let visibility = if class_pick == 0 {
            TileVisibility::Solid
        } else {
            TileVisibility::Transparent
        };
        Tile { visibility, index }
    }

    /// A randomly drawn tile: never empty, textured by one of the first
    /// `RANDOM_ATLAS_REGIONS` atlas regions.
    pub fn random() -> (tile: Self)
        ensures
            tile.visibility != TileVisibility::Empty,
            tile.index < RANDOM_ATLAS_REGIONS,
    {
        let class_pick: usize = random_below(2);
        let index: usize = random_below(RANDOM_ATLAS_REGIONS);
        Tile::from_sample(class_pick, index)
    }
}

} // verus!
