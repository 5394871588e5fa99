//! Layers as the world sees them: how a chunk's layers are numbered and
//! placed, and which layer meshes show for the layer under inspection.

use vstd::prelude::*;
use crate::chunk::CHUNK_SIZE;

verus! {

/// The layer that is inspected when nothing else was chosen.
pub const DEFAULT_MAP_LAYER: usize = 8;

/// The world-wide number of layer `layer` of a chunk that stands `chunk_y`
/// chunks up the lattice.
pub open spec fn spec_world_layer(chunk_y: u32, layer: usize) -> int {
    chunk_y * CHUNK_SIZE + layer
}

/// The world-wide number of layer `layer` of a chunk that stands `chunk_y`
/// chunks up the lattice.
pub fn world_layer(chunk_y: u32, layer: usize) -> (number: usize)
    requires
        layer < CHUNK_SIZE,
        spec_world_layer(chunk_y, layer) <= usize::MAX,
    ensures
        number == spec_world_layer(chunk_y, layer),
{
    chunk_y as usize * CHUNK_SIZE + layer
}

/// How far above its chunk's centre layer `layer` lies, in tiles: a chunk's
/// layers are placed around the chunk's own position.
pub fn layer_elevation(layer: usize) -> (tiles: i32)
    requires
        layer < CHUNK_SIZE,
    ensures
        tiles == layer - CHUNK_SIZE / 2,
{
    layer as i32 - 8
}

/// The layer under inspection: the one whose ceilings show, with the floors
/// and walls of everything up to it.
#[derive(Debug, Clone, Copy, PartialEq, Eq, Structural)]
pub struct CurrentMapLayer(pub usize);

impl Default for CurrentMapLayer {
    fn default() -> (current: Self)
        ensures
            current.0 == DEFAULT_MAP_LAYER,
    {
        CurrentMapLayer(DEFAULT_MAP_LAYER)
    }
}

impl CurrentMapLayer {
    /// Whether the floor-and-wall mesh of world layer `layer` shows: it does
    /// at and below the inspected layer.
    pub fn shows_floor_wall(&self, layer: usize) -> (shown: bool)
        ensures
            shown == (layer <= self.0),
    {
        layer <= self.0
    }

    /// Whether the ceiling mesh of world layer `layer` shows: only that of
    /// the inspected layer does.
    pub fn shows_ceiling(&self, layer: usize) -> (shown: bool)
        ensures
            shown == (layer == self.0),
    {
        layer == self.0
    }
}

} // verus!
