//! Small integer vectors shared by the rest of the crate.

use vstd::prelude::*;

verus! {

/// Three unsigned lattice coordinates: a chunk's place in the chunk lattice,
/// a tile's place in the world, or a tile's place inside its chunk.
#[derive(Debug, Clone, Copy, PartialEq, Eq, Structural, Hash)]
pub struct Coord3 {
    pub x: u32,
    pub y: u32,
    pub z: u32,
}

impl Coord3 {
    pub fn new(x: u32, y: u32, z: u32) -> (pos: Self)
        ensures
            pos == (Coord3 { x, y, z }),
    {
        Coord3 { x, y, z }
    }
}

/// Three signed integers: a tile offset in whole tiles, a vertex position in
/// half tiles, or a face normal.
#[derive(Debug, Clone, Copy, PartialEq, Eq, Structural, Hash)]
pub struct Vec3i {
    pub x: i32,
    pub y: i32,
    pub z: i32,
}

impl Vec3i {
    pub fn new(x: i32, y: i32, z: i32) -> (v: Self)
        ensures
            v == (Vec3i { x, y, z }),
    {
        Vec3i { x, y, z }
    }
}

/// A texture coordinate as a pair of exact fractions: `u / width` across the
/// atlas image and `v / height` down it.
#[derive(Debug, Clone, Copy, PartialEq, Eq, Structural, Hash)]
pub struct Uv {
    pub u: u32,
    pub v: u32,
    pub width: u32,
    pub height: u32,
}

} // verus!
