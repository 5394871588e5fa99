//! The texture atlas: which rectangle of the atlas image textures a tile.

use vstd::prelude::*;
use crate::vector::Uv;

verus! {

/// A rectangle of the atlas image in pixels, from its `min` corner to its
/// `max` corner.
#[derive(Debug, Clone, Copy, PartialEq, Eq, Structural)]
pub struct Region {
    pub min_x: u32,
    pub min_y: u32,
    pub max_x: u32,
    pub max_y: u32,
}

/// What an atlas holds: its regions in order and the size of its image.
pub struct AtlasView {
    pub regions: Seq<Region>,
    pub width: u32,
    pub height: u32,
}

/// The four corners of `region` as fractions of an image of `width` by
/// `height` pixels, in the order of a face's four vertices: the `min`
/// corner, then `(min.x, max.y)`, the `max` corner and `(max.x, min.y)`.
pub open spec fn region_uvs(region: Region, width: u32, height: u32) -> Seq<Uv> {
    seq![
        Uv { u: region.min_x, v: region.min_y, width, height },
        Uv { u: region.min_x, v: region.max_y, width, height },
        Uv { u: region.max_x, v: region.max_y, width, height },
        Uv { u: region.max_x, v: region.min_y, width, height },
    ]
}

impl AtlasView {
    /// The texture coordinates of region `index`.
    pub open spec fn uvs(self, index: int) -> Seq<Uv>
        recommends
            0 <= index < self.regions.len(),
    {
        region_uvs(self.regions[index], self.width, self.height)
    }
}

/// An atlas image cut into numbered regions. Nothing changes it once made.
pub struct TileAtlas {
    regions: Vec<Region>,
    width: u32,
    height: u32,
}

impl View for TileAtlas {
    type V = AtlasView;

    closed spec fn view(&self) -> AtlasView {
        AtlasView { regions: self.regions@, width: self.width, height: self.height }
    }
}

impl TileAtlas {
    /// The atlas over an image of `width` by `height` pixels with the given
    /// regions.
    pub fn new(regions: Vec<Region>, width: u32, height: u32) -> (atlas: Self)
        ensures
            atlas@ == (AtlasView { regions: regions@, width, height }),
    {
        TileAtlas { regions, width, height }
    }

    /// Number of regions.
    pub fn len(&self) -> (n: usize)
        ensures
            n == self@.regions.len(),
    {
        self.regions.len()
    }

    /// The texture coordinates of region `index`, one per vertex of a face.
    pub fn get_uvs(&self, index: usize) -> (uvs: [Uv; 4])
        requires
            index < self@.regions.len(),
        ensures
            uvs@ == self@.uvs(index as int),
    {
        let rect: Region = self.regions[index];
        let uvs: [Uv; 4] = [
            Uv { u: rect.min_x, v: rect.min_y, width: self.width, height: self.height },
            Uv { u: rect.min_x, v: rect.max_y, width: self.width, height: self.height },
            Uv { u: rect.max_x, v: rect.max_y, width: self.width, height: self.height },
            Uv { u: rect.max_x, v: rect.min_y, width: self.width, height: self.height },
        ];
        assert(uvs@ =~= self@.uvs(index as int));
        uvs
    }
}

} // verus!
