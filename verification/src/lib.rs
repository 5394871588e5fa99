//! Face-culling voxel chunk meshing: tiles, chunks, the chunk registry, the
//! texture atlas lookup and the per-layer mesh buffers.
//!
//! Everything here works on integers. Positions are kept in half-tile units,
//! texture coordinates as exact fractions of the atlas image, so that a
//! renderer can turn them into floating point in one place.

pub mod vector;
pub mod tile;
pub mod temp_mesh;
pub mod tile_atlas;
pub mod cube;
pub mod chunk;
pub mod meshing;
pub mod cache;
pub mod layers;
