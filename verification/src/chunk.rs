//! The chunk: a cube of tiles, addressed by local coordinates.

use vstd::prelude::*;
use crate::tile::{Tile, TileVisibility, RANDOM_ATLAS_REGIONS};
use crate::vector::Coord3;

verus! {

/// Side length of a chunk in tiles.
pub const CHUNK_SIZE: usize = 16;

/// Number of tiles in a chunk.
pub const CHUNK_VOLUME: usize = CHUNK_SIZE * CHUNK_SIZE * CHUNK_SIZE;

/// Whether `(x, y, z)` names a tile of a chunk.
pub open spec fn in_chunk(x: int, y: int, z: int) -> bool {
    0 <= x < CHUNK_SIZE && 0 <= y < CHUNK_SIZE && 0 <= z < CHUNK_SIZE
}

/// Where the tile `(x, y, z)` lies in a chunk's storage: layer by layer
/// (`y`), each layer row by row (`x`).
pub open spec fn tile_slot(x: int, y: int, z: int) -> int {
    (y * CHUNK_SIZE + x) * CHUNK_SIZE + z
}

/// A cube of `CHUNK_SIZE` tiles along each axis. `y` counts the horizontal
/// layers from the bottom up.
#[derive(Debug)]
pub struct ChunkData {
    tiles: [Tile; CHUNK_VOLUME],
}

impl Clone for ChunkData {
    fn clone(&self) -> (copy: Self)
        ensures
            copy == *self,
    {
        ChunkData { tiles: self.tiles }
    }
}

impl Default for ChunkData {
    /// The chunk of empty tiles.
    fn default() -> (chunk: Self)
        ensures
            forall|x: int, y: int, z: int|
                in_chunk(x, y, z) ==> #[trigger] chunk.tile(x, y, z) == (Tile {
                    visibility: TileVisibility::Empty,
                    index: 0,
                }),
    {
        ChunkData { tiles: [Tile { visibility: TileVisibility::Empty, index: 0 }; CHUNK_VOLUME] }
    }
}

impl ChunkData {
    /// A chunk of randomly drawn tiles: none is empty, and each is textured
    /// by one of the first `RANDOM_ATLAS_REGIONS` atlas regions.
    pub fn random() -> (chunk: Self)
        ensures
            forall|x: int, y: int, z: int|
                in_chunk(x, y, z) ==> {
                    &&& (#[trigger] chunk.tile(x, y, z)).visibility != TileVisibility::Empty
                    &&& chunk.tile(x, y, z).index < RANDOM_ATLAS_REGIONS
                },
    {
        let mut tiles: [Tile; CHUNK_VOLUME] = [Tile { visibility: TileVisibility::Empty, index: 0 };
            CHUNK_VOLUME];
        let mut slot: usize = 0;
        while slot < CHUNK_VOLUME
            invariant
                slot <= CHUNK_VOLUME,
                forall|i: int|
                    0 <= i < slot ==> {
                        &&& (#[trigger] tiles@[i]).visibility != TileVisibility::Empty
                        &&& tiles@[i].index < RANDOM_ATLAS_REGIONS
                    },
            decreases CHUNK_VOLUME - slot,
        {
            tiles[slot] = Tile::random();
            slot += 1;
        }
        ChunkData { tiles }
    }

    /// The tile at the local coordinates `(x, y, z)`.
    pub closed spec fn tile(&self, x: int, y: int, z: int) -> Tile
        recommends
            in_chunk(x, y, z),
    {
        self.tiles@[tile_slot(x, y, z)]
    }

    /// The tile at `pos`, which must lie inside the chunk.
    pub fn get_tile_local(&self, pos: Coord3) -> (tile: &Tile)
        requires
            in_chunk(pos.x as int, pos.y as int, pos.z as int),
        ensures
            *tile == self.tile(pos.x as int, pos.y as int, pos.z as int),
    {
        let slot: usize = (pos.y as usize * CHUNK_SIZE + pos.x as usize) * CHUNK_SIZE + pos.z as usize;
        &self.tiles[slot]
    }

    /// The tile at `pos`, which must lie inside the chunk, to be changed in
    /// place. No other tile changes.
    pub fn get_tile_local_mut(&mut self, pos: Coord3) -> (tile: &mut Tile)
        requires
            in_chunk(pos.x as int, pos.y as int, pos.z as int),
        ensures
            *tile == old(self).tile(pos.x as int, pos.y as int, pos.z as int),
            final(self).tile(pos.x as int, pos.y as int, pos.z as int) == *final(tile),
            forall|x: int, y: int, z: int|
                in_chunk(x, y, z) && !(x == pos.x && y == pos.y && z == pos.z)
                    ==> #[trigger] final(self).tile(x, y, z) == old(self).tile(x, y, z),
    {
        let slot: usize = (pos.y as usize * CHUNK_SIZE + pos.x as usize) * CHUNK_SIZE + pos.z as usize;
        &mut self.tiles[slot]
    }

    /// Overwrites the tile at `pos`, which must lie inside the chunk. No
    /// other tile changes.
    pub fn set_tile_local(&mut self, pos: Coord3, value: Tile)
        requires
            in_chunk(pos.x as int, pos.y as int, pos.z as int),
        ensures
            final(self).tile(pos.x as int, pos.y as int, pos.z as int) == value,
            forall|x: int, y: int, z: int|
                in_chunk(x, y, z) && !(x == pos.x && y == pos.y && z == pos.z)
                    ==> #[trigger] final(self).tile(x, y, z) == old(self).tile(x, y, z),
    {
        let slot: usize = (pos.y as usize * CHUNK_SIZE + pos.x as usize) * CHUNK_SIZE + pos.z as usize;
        self.tiles[slot] = value;
    }
}

} // verus!
