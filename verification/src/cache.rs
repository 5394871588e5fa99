//! The chunk registry: which chunk stands at which place of the chunk
//! lattice, and which chunks touch a given one.

use vstd::prelude::*;
use crate::chunk::CHUNK_SIZE;
use crate::vector::Coord3;

verus! {

/// An opaque name for a chunk, handed out by whoever owns the chunks.
#[derive(Debug, Clone, Copy, PartialEq, Eq, Structural, Hash)]
pub struct ChunkHandle(pub u64);

/// A chunk's place in the chunk lattice, in chunks.
#[derive(Debug, Clone, Copy, PartialEq, Eq, Structural, Hash)]
pub struct ChunkCord(pub Coord3);

/// A `bevy::utils::HashMap` from lattice coordinates to handle bits. Verus
/// does not look inside; what it holds is `coord_map_entries`.
#[verifier::external_body]
pub struct CoordMap {
    map: bevy::utils::HashMap<(u32, u32, u32), u64>,
}

/// The key-value pairs that a `CoordMap` holds.
pub uninterp spec fn coord_map_entries(map: CoordMap) -> Map<(u32, u32, u32), u64>;

impl CoordMap {
    /// `bevy::utils::HashMap::default`: a map that holds nothing.
    #[verifier::external_body]
    fn new() -> (made: Self)
        ensures
            forall|key: (u32, u32, u32)| !(#[trigger] coord_map_entries(made).contains_key(key)),
    {
        CoordMap { map: bevy::utils::HashMap::default() }
    }

    /// `bevy::utils::HashMap::get` (hashbrown's `HashMap::get`): the value
    /// stored under `key`, if there is one.
    #[verifier::external_body]
    fn get(&self, key: (u32, u32, u32)) -> (found: Option<u64>)
        ensures
            found == if coord_map_entries(*self).contains_key(key) {
                Some(coord_map_entries(*self)[key])
            } else {
                None
            },
    {
        self.map.get(&key).copied()
    }

    /// `bevy::utils::HashMap::insert` (hashbrown's `HashMap::insert`):
    /// afterwards `key` maps to `value`, replacing what it mapped to before;
    /// every other key is as it was.
    #[verifier::external_body]
    fn insert(&mut self, key: (u32, u32, u32), value: u64)
        ensures
            coord_map_entries(*final(self)) == coord_map_entries(*old(self)).insert(key, value),
    {
        self.map.insert(key, value);
    }
}

/// The directions in which a chunk has neighbours, in the order in which
/// `get_neighbors` reports them.
pub const NEIGHBOR_SLOTS: usize = 6;

/// The lattice place one step from `pos` in direction `slot`: +X, -X, +Z,
/// -Z, +Y, -Y for the slots 0 to 5. There is none where the step would
/// leave the lattice.
pub open spec fn neighbor_coord(pos: Coord3, slot: int) -> Option<Coord3> {
    if slot == 0 {
        if pos.x < u32::MAX {
            Some(Coord3 { x: (pos.x + 1) as u32, y: pos.y, z: pos.z })
        } else {
            None
        }
    } else if slot == 1 {
        if pos.x > 0 {
            Some(Coord3 { x: (pos.x - 1) as u32, y: pos.y, z: pos.z })
        } else {
            None
        }
    } else if slot == 2 {
        if pos.z < u32::MAX {
            Some(Coord3 { x: pos.x, y: pos.y, z: (pos.z + 1) as u32 })
        } else {
            None
        }
    } else if slot == 3 {
        if pos.z > 0 {
            Some(Coord3 { x: pos.x, y: pos.y, z: (pos.z - 1) as u32 })
        } else {
            None
        }
    } else if slot == 4 {
        if pos.y < u32::MAX {
            Some(Coord3 { x: pos.x, y: (pos.y + 1) as u32, z: pos.z })
        } else {
            None
        }
    } else {
        if pos.y > 0 {
            Some(Coord3 { x: pos.x, y: (pos.y - 1) as u32, z: pos.z })
        } else {
            None
        }
    }
}

/// The handle registered at `pos`, if there is a `pos` and a chunk there.
pub open spec fn registered_at(chunks: Map<Coord3, ChunkHandle>, pos: Option<Coord3>) -> Option<ChunkHandle> {
    match pos {
        Some(pos) => if chunks.contains_key(pos) {
            Some(chunks[pos])
        } else {
            None
        },
        None => None,
    }
}

/// The chunk that holds the world tile `tile`, in the lattice.
pub open spec fn chunk_of_tile(tile: Coord3) -> Coord3 {
    Coord3 {
        x: tile.x / (CHUNK_SIZE as u32),
        y: tile.y / (CHUNK_SIZE as u32),
        z: tile.z / (CHUNK_SIZE as u32),
    }
}

/// Where the world tile `tile` lies inside its chunk.
pub open spec fn local_of_tile(tile: Coord3) -> Coord3 {
    Coord3 {
        x: tile.x % (CHUNK_SIZE as u32),
        y: tile.y % (CHUNK_SIZE as u32),
        z: tile.z % (CHUNK_SIZE as u32),
    }
}

/// A world tile resolved to the chunk that holds it.
#[derive(Debug, Clone, Copy, PartialEq, Eq, Structural)]
pub struct TileAddress {
    /// The tile's place in the world, in tiles.
    pub tile: Coord3,
    /// The tile's place inside its chunk.
    pub local_tile: Coord3,
    /// The chunk that holds the tile.
    pub chunk: ChunkHandle,
}

/// The registry of chunks by lattice place. A place holds at most one chunk.
pub struct ChunkCache {
    map: CoordMap,
}

impl View for ChunkCache {
    type V = Map<Coord3, ChunkHandle>;

    closed spec fn view(&self) -> Map<Coord3, ChunkHandle> {
        Map::new(
            |pos: Coord3| coord_map_entries(self.map).contains_key((pos.x, pos.y, pos.z)),
            |pos: Coord3| ChunkHandle(coord_map_entries(self.map)[(pos.x, pos.y, pos.z)]),
        )
    }
}

impl Default for ChunkCache {
    /// The registry without any chunk.
    fn default() -> (cache: Self)
        ensures
            cache@ == Map::<Coord3, ChunkHandle>::empty(),
    {
        let cache = ChunkCache { map: CoordMap::new() };
        assert(cache@ =~= Map::<Coord3, ChunkHandle>::empty());
        cache
    }
}

impl ChunkCache {
    /// The chunk registered at `pos`, if there is one.
    pub fn get(&self, pos: &Coord3) -> (found: Option<ChunkHandle>)
        ensures
            found == registered_at(self@, Some(*pos)),
    {
        match self.map.get((pos.x, pos.y, pos.z)) {
            Some(bits) => Some(ChunkHandle(bits)),
            None => None,
        }
    }

    /// Registers `e` at `pos`, in place of what was registered there.
    pub fn insert(&mut self, pos: Coord3, e: ChunkHandle)
        ensures
            final(self)@ == old(self)@.insert(pos, e),
    {
        self.map.insert((pos.x, pos.y, pos.z), e.0);
        assert(self@ =~= old(self)@.insert(pos, e));
    }

    /// The chunks that touch the chunk at `pos`, in the order +X, -X, +Z,
    /// -Z, +Y, -Y. A slot is empty where no chunk is registered, and where
    /// the lattice ends: coordinates never wrap around.
    pub fn get_neighbors(&self, pos: Coord3) -> (found: [Option<ChunkHandle>; 6])
        ensures
            forall|slot: int|
                0 <= slot < NEIGHBOR_SLOTS ==> #[trigger] found@[slot] == registered_at(
                    self@,
                    neighbor_coord(pos, slot),
                ),
    {
        let right: Option<ChunkHandle> = if pos.x < u32::MAX {
            self.get(&Coord3 { x: pos.x + 1, y: pos.y, z: pos.z })
        } else {
            None
        };
        let left: Option<ChunkHandle> = if pos.x > 0 {
            self.get(&Coord3 { x: pos.x - 1, y: pos.y, z: pos.z })
        } else {
            None
        };
        let ahead: Option<ChunkHandle> = if pos.z < u32::MAX {
            self.get(&Coord3 { x: pos.x, y: pos.y, z: pos.z + 1 })
        } else {
            None
        };
        let behind: Option<ChunkHandle> = if pos.z > 0 {
            self.get(&Coord3 { x: pos.x, y: pos.y, z: pos.z - 1 })
        } else {
            None
        };
        let above: Option<ChunkHandle> = if pos.y < u32::MAX {
            self.get(&Coord3 { x: pos.x, y: pos.y + 1, z: pos.z })
        } else {
            None
        };
        let below: Option<ChunkHandle> = if pos.y > 0 {
            self.get(&Coord3 { x: pos.x, y: pos.y - 1, z: pos.z })
        } else {
            None
        };
        [right, left, ahead, behind, above, below]
    }

    /// Resolves the world tile `pos` to the chunk that holds it and to its
    /// place inside that chunk. There is no answer where no chunk is
    /// registered for it.
    pub fn get_tile(&self, pos: Coord3) -> (address: Option<TileAddress>)
        ensures
            address == match registered_at(self@, Some(chunk_of_tile(pos))) {
                Some(chunk) => Some(TileAddress { tile: pos, local_tile: local_of_tile(pos), chunk }),
                None => None,
            },
    {
        let side: u32 = CHUNK_SIZE as u32;
        let chunk_pos: Coord3 = Coord3 { x: pos.x / side, y: pos.y / side, z: pos.z / side };
        match self.get(&chunk_pos) {
            Some(chunk) => {
                let local_tile: Coord3 = Coord3 { x: pos.x % side, y: pos.y % side, z: pos.z % side };
                Some(TileAddress { tile: pos, local_tile, chunk })
            },
            None => None,
        }
    }
}

} // verus!
