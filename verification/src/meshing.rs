//! Face culling: which faces of a chunk's tiles are drawn, and the meshes
//! that hold them, one pair per horizontal layer.
//!
//! A layer is scanned tile by tile, `x` outermost, and each tile face by
//! face in the order ceiling, bottom, right, left, front, back. A face is
//! drawn when the visibility table says so for the tile and the neighbour
//! it looks at. Drawn ceilings go to the layer's ceiling mesh, every other
//! drawn face to its floor-and-wall mesh, in scan order.

use vstd::prelude::*;
use crate::chunk::{in_chunk, ChunkData, CHUNK_SIZE};
use crate::cube::{
    add_back, add_bottom, add_ceiling, add_front, add_left, add_right, face_corners, face_indices, face_normal,
    moved_corner, with_quad, CubeFace,
};
use crate::temp_mesh::{MeshView, TempMesh, TriangleMesh};
use crate::tile::{spec_visible, Tile, TileVisibility};
use crate::tile_atlas::{AtlasView, TileAtlas};
use crate::vector::{Coord3, Vec3i};

verus! {

/// Number of faces that a tile can draw.
pub const TILE_FACES: usize = 6;

/// Number of faces that a layer can draw.
pub const LAYER_FACES: usize = TILE_FACES * CHUNK_SIZE * CHUNK_SIZE;

/// The chunks that touch a chunk's six sides, where there are any. A missing
/// one counts as empty space.
#[derive(Clone, Copy)]
pub struct Neighbors<'a> {
    /// Toward higher x.
    pub right: Option<&'a ChunkData>,
    /// Toward lower x.
    pub left: Option<&'a ChunkData>,
    /// Toward lower z.
    pub front: Option<&'a ChunkData>,
    /// Toward higher z.
    pub back: Option<&'a ChunkData>,
    /// Toward higher y.
    pub top: Option<&'a ChunkData>,
    /// Toward lower y.
    pub bottom: Option<&'a ChunkData>,
}

/// The face that looks into slot `slot` of the registry's neighbour order
/// (+X, -X, +Z, -Z, +Y, -Y).
pub open spec fn slot_face(slot: int) -> CubeFace {
    if slot == 0 {
        CubeFace::Right
    } else if slot == 1 {
        CubeFace::Left
    } else if slot == 2 {
        CubeFace::Back
    } else if slot == 3 {
        CubeFace::Front
    } else if slot == 4 {
        CubeFace::Ceiling
    } else {
        CubeFace::Bottom
    }
}

/// The neighbour that `face` looks at across the chunk's side.
pub open spec fn chunk_across<'a>(around: Neighbors<'a>, face: CubeFace) -> Option<&'a ChunkData> {
    match face {
        CubeFace::Ceiling => around.top,
        CubeFace::Floor | CubeFace::Bottom => around.bottom,
        CubeFace::Right => around.right,
        CubeFace::Left => around.left,
        CubeFace::Front => around.front,
        CubeFace::Back => around.back,
    }
}

impl<'a> Neighbors<'a> {
    /// No neighbour on any side: the chunk stands in open space.
    pub fn none() -> (around: Self)
        ensures
            around == (Neighbors { right: None, left: None, front: None, back: None, top: None, bottom: None }),
    {
        Neighbors { right: None, left: None, front: None, back: None, top: None, bottom: None }
    }

    /// The neighbours given in the registry's order (+X, -X, +Z, -Z, +Y,
    /// -Y), each put on the side whose face looks at it.
    pub fn from_slots(slots: [Option<&'a ChunkData>; 6]) -> (around: Self)
        ensures
            forall|slot: int| 0 <= slot < 6 ==> chunk_across(around, slot_face(slot)) == #[trigger] slots@[slot],
    {
        Neighbors {
            right: slots[0],
            left: slots[1],
            back: slots[2],
            front: slots[3],
            top: slots[4],
            bottom: slots[5],
        }
    }
}

/// The visibility class found at `(x, y, z)` of a neighbouring chunk: empty
/// where there is no such chunk.
pub open spec fn boundary_visibility(chunk: Option<&ChunkData>, x: int, y: int, z: int) -> TileVisibility {
    match chunk {
        Some(chunk) => chunk.tile(x, y, z).visibility,
        None => TileVisibility::Empty,
    }
}

/// The visibility class of the tile that `face` of the tile `(x, y, z)` looks
/// at: a tile of the same chunk, or across the chunk's side the tile on the
/// touching side of the neighbouring chunk.
pub open spec fn neighbor_visibility(
    chunk: &ChunkData,
    around: Neighbors,
    face: CubeFace,
    x: int,
    y: int,
    z: int,
) -> TileVisibility {
    let last = CHUNK_SIZE - 1;
    match face {
        CubeFace::Ceiling => if y < last {
            chunk.tile(x, y + 1, z).visibility
        } else {
            boundary_visibility(around.top, x, 0, z)
        },
        CubeFace::Floor | CubeFace::Bottom => if y > 0 {
            chunk.tile(x, y - 1, z).visibility
        } else {
            boundary_visibility(around.bottom, x, last, z)
        },
        CubeFace::Right => if x < last {
            chunk.tile(x + 1, y, z).visibility
        } else {
            boundary_visibility(around.right, 0, y, z)
        },
        CubeFace::Left => if x > 0 {
            chunk.tile(x - 1, y, z).visibility
        } else {
            boundary_visibility(around.left, last, y, z)
        },
        CubeFace::Front => if z > 0 {
            chunk.tile(x, y, z - 1).visibility
        } else {
            boundary_visibility(around.front, x, y, last)
        },
        CubeFace::Back => if z < last {
            chunk.tile(x, y, z + 1).visibility
        } else {
            boundary_visibility(around.back, x, y, 0)
        },
    }
}

/// The tile that a face looks at lies one step along the face's normal. Where
/// that step leaves the chunk, it is the tile at the same place, counted
/// from the other end, of the chunk across that face.
pub proof fn lemma_neighbor_lies_along_normal(
    chunk: &ChunkData,
    around: Neighbors,
    face: CubeFace,
    x: int,
    y: int,
    z: int,
)
    requires
        in_chunk(x, y, z),
    ensures
        ({
            let normal = face_normal(face);
            let size = CHUNK_SIZE as int;
            let (nx, ny, nz) = (x + normal.x, y + normal.y, z + normal.z);
            neighbor_visibility(chunk, around, face, x, y, z) == if in_chunk(nx, ny, nz) {
                chunk.tile(nx, ny, nz).visibility
            } else {
                boundary_visibility(chunk_across(around, face), nx % size, ny % size, nz % size)
            }
        }),
{
}

/// The registry's neighbour slots and the faces agree on directions: the
/// lattice place in slot `slot` lies one step from `pos` along the normal of
/// the face that looks into that slot, and the slot is empty exactly where
/// that step leaves the lattice.
pub proof fn lemma_slot_lies_along_normal(pos: Coord3, slot: int)
    requires
        0 <= slot < 6,
    ensures
        ({
            let normal = face_normal(slot_face(slot));
            let (nx, ny, nz) = (pos.x + normal.x, pos.y + normal.y, pos.z + normal.z);
            let inside = 0 <= nx <= u32::MAX && 0 <= ny <= u32::MAX && 0 <= nz <= u32::MAX;
            crate::cache::neighbor_coord(pos, slot) == if inside {
                Some(Coord3 { x: nx as u32, y: ny as u32, z: nz as u32 })
            } else {
                None
            }
        }),
{
}

/// Whether `face` of the tile `(x, y, z)` is drawn.
pub open spec fn face_drawn(chunk: &ChunkData, around: Neighbors, face: CubeFace, x: int, y: int, z: int) -> bool {
    spec_visible(chunk.tile(x, y, z).visibility, neighbor_visibility(chunk, around, face, x, y, z))
}

/// The faces of a tile in the order in which they are considered.
pub open spec fn scan_face(k: int) -> CubeFace {
    if k == 0 {
        CubeFace::Ceiling
    } else if k == 1 {
        CubeFace::Bottom
    } else if k == 2 {
        CubeFace::Right
    } else if k == 3 {
        CubeFace::Left
    } else if k == 4 {
        CubeFace::Front
    } else {
        CubeFace::Back
    }
}

/// One face of one tile of a layer, with the atlas region that textures it.
pub struct FaceQuad {
    pub face: CubeFace,
    pub x: int,
    pub z: int,
    pub index: usize,
}

/// The `k`-th face that a scan of layer `y` considers.
pub open spec fn scan_candidate(chunk: &ChunkData, y: int, k: int) -> FaceQuad {
    let tile = k / (TILE_FACES as int);
    let x = tile / (CHUNK_SIZE as int);
    let z = tile % (CHUNK_SIZE as int);
    FaceQuad { face: scan_face(k % (TILE_FACES as int)), x, z, index: chunk.tile(x, y, z).index }
}

/// Every face of layer `y`, drawn or not, in scan order.
pub open spec fn scan_candidates(chunk: &ChunkData, y: int) -> Seq<FaceQuad> {
    Seq::new(LAYER_FACES as nat, |k: int| scan_candidate(chunk, y, k))
}

/// Picks the drawn ceilings of layer `y`.
pub open spec fn is_drawn_ceiling(chunk: &ChunkData, around: Neighbors, y: int) -> spec_fn(FaceQuad) -> bool {
    |quad: FaceQuad| quad.face == CubeFace::Ceiling && face_drawn(chunk, around, quad.face, quad.x, y, quad.z)
}

/// Picks the drawn faces of layer `y` that are no ceilings.
pub open spec fn is_drawn_floor_wall(chunk: &ChunkData, around: Neighbors, y: int) -> spec_fn(FaceQuad) -> bool {
    |quad: FaceQuad| quad.face != CubeFace::Ceiling && face_drawn(chunk, around, quad.face, quad.x, y, quad.z)
}

/// The drawn ceilings of layer `y` in scan order.
pub open spec fn ceiling_faces(chunk: &ChunkData, around: Neighbors, y: int) -> Seq<FaceQuad> {
    scan_candidates(chunk, y).filter(is_drawn_ceiling(chunk, around, y))
}

/// The other drawn faces of layer `y` in scan order.
pub open spec fn floor_wall_faces(chunk: &ChunkData, around: Neighbors, y: int) -> Seq<FaceQuad> {
    scan_candidates(chunk, y).filter(is_drawn_floor_wall(chunk, around, y))
}

/// Whether the atlas has a region for every drawn face of layer `y`.
pub open spec fn layer_textured(chunk: &ChunkData, around: Neighbors, y: int, atlas: AtlasView) -> bool {
    forall|x: int, z: int, k: int|
        0 <= x < CHUNK_SIZE && 0 <= z < CHUNK_SIZE && 0 <= k < TILE_FACES && #[trigger] face_drawn(
            chunk,
            around,
            scan_face(k),
            x,
            y,
            z,
        ) ==> chunk.tile(x, y, z).index < atlas.regions.len()
}

/// Where a face's tile lies inside its layer, in whole tiles. A layer's
/// mesh is flat: the height of the layer is left to whoever places it.
pub open spec fn quad_offset(quad: FaceQuad) -> Vec3i {
    Vec3i { x: quad.x as i32, y: 0, z: quad.z as i32 }
}

/// The mesh that holds the given faces, one quad each, in order.
pub open spec fn mesh_of_faces(faces: Seq<FaceQuad>, atlas: AtlasView) -> MeshView
    decreases faces.len(),
{
    if faces.len() == 0 {
        MeshView::empty()
    } else {
        let quad = faces.last();
        with_quad(
            mesh_of_faces(faces.drop_last(), atlas),
            quad.face,
            quad_offset(quad),
            atlas.uvs(quad.index as int),
        )
    }
}

/// A mesh of faces has four vertices and six indices per face, its
/// per-vertex arrays agree in length, and each face's indices name that
/// face's own four vertices.
pub proof fn lemma_mesh_of_faces_shape(faces: Seq<FaceQuad>, atlas: AtlasView)
    requires
        4 * faces.len() <= u32::MAX,
    ensures
        mesh_of_faces(faces, atlas).vertex_count() == 4 * faces.len(),
        mesh_of_faces(faces, atlas).indices.len() == 6 * faces.len(),
        mesh_of_faces(faces, atlas).aligned(),
        mesh_of_faces(faces, atlas).indices_in_range(),
        forall|i: int|
            0 <= i < 6 * faces.len() ==> 4 * (i / 6) <= (#[trigger] mesh_of_faces(faces, atlas).indices[i]) < 4 * (i
                / 6) + 4,
    decreases faces.len(),
{
    if faces.len() > 0 {
        let rest = faces.drop_last();
        lemma_mesh_of_faces_shape(rest, atlas);
        let before = mesh_of_faces(rest, atlas);
        let after = mesh_of_faces(faces, atlas);
        let quad = faces.last();
        let added = face_indices(quad.face);
        assert(added.len() == 6);
        assert forall|i: int| 0 <= i < 6 * faces.len() implies 4 * (i / 6) <= (#[trigger] after.indices[i]) < 4 * (i
            / 6) + 4 by {
            if i < 6 * rest.len() {
                assert(after.indices[i] == before.indices[i]);
            } else {
                let j = i - 6 * rest.len();
                assert(i / 6 == rest.len());
                assert(after.indices[i] == (added[j] + 4 * rest.len()) as u32);
                assert(added[j] < 4);
            }
        }
        assert forall|i: int| 0 <= i < after.indices.len() implies (#[trigger] after.indices[i])
            < after.positions.len() by {
            assert(4 * (i / 6) <= after.indices[i] < 4 * (i / 6) + 4);
            assert(i / 6 < faces.len());
        }
    }
}

/// The `corner`-th vertex of the `i`-th face of a mesh of faces: it lies at
/// that corner of the face, moved to the face's tile, and carries the face's
/// normal and the matching corner of the face's atlas region.
pub proof fn lemma_mesh_of_faces_vertex(faces: Seq<FaceQuad>, atlas: AtlasView, i: int, corner: int)
    requires
        0 <= i < faces.len(),
        0 <= corner < 4,
        4 * faces.len() <= u32::MAX,
    ensures
        mesh_of_faces(faces, atlas).positions[4 * i + corner] == moved_corner(
            face_corners(faces[i].face)[corner],
            quad_offset(faces[i]),
        ),
        mesh_of_faces(faces, atlas).normals[4 * i + corner] == face_normal(faces[i].face),
        mesh_of_faces(faces, atlas).uv[4 * i + corner] == atlas.uvs(faces[i].index as int)[corner],
    decreases faces.len(),
{
    let rest = faces.drop_last();
    lemma_mesh_of_faces_shape(rest, atlas);
    if i < rest.len() {
        lemma_mesh_of_faces_vertex(rest, atlas, i, corner);
    }
}

/// The `k`-th index of the `i`-th face of a mesh of faces: the face's own
/// `k`-th corner number, counted from the face's first vertex. So each face
/// repeats the pattern of its winding, four further than the face before.
pub proof fn lemma_mesh_of_faces_index(faces: Seq<FaceQuad>, atlas: AtlasView, i: int, k: int)
    requires
        0 <= i < faces.len(),
        0 <= k < 6,
        4 * faces.len() <= u32::MAX,
    ensures
        mesh_of_faces(faces, atlas).indices[6 * i + k] == 4 * i + face_indices(faces[i].face)[k],
    decreases faces.len(),
{
    let rest = faces.drop_last();
    lemma_mesh_of_faces_shape(rest, atlas);
    if i < rest.len() {
        lemma_mesh_of_faces_index(rest, atlas, i, k);
    } else {
        let added = face_indices(faces[i].face);
        assert(added.len() == 6);
        assert(added[k] < 4);
    }
}

/// Adding one face at the end of a list of faces adds its quad at the end of
/// the mesh.
proof fn lemma_mesh_of_faces_push(faces: Seq<FaceQuad>, quad: FaceQuad, atlas: AtlasView)
    ensures
        mesh_of_faces(faces.push(quad), atlas) == with_quad(
            mesh_of_faces(faces, atlas),
            quad.face,
            quad_offset(quad),
            atlas.uvs(quad.index as int),
        ),
{
    assert(faces.push(quad).drop_last() =~= faces);
}

/// Considering one more candidate adds it to the picked faces if the
/// predicate holds of it, and changes nothing otherwise.
proof fn lemma_filter_next<A>(candidates: Seq<A>, k: int, pick: spec_fn(A) -> bool)
    requires
        0 <= k < candidates.len(),
    ensures
        candidates.take(k + 1).filter(pick) == if pick(candidates[k]) {
            candidates.take(k).filter(pick).push(candidates[k])
        } else {
            candidates.take(k).filter(pick)
        },
{
    reveal(Seq::filter);
    assert(candidates.take(k + 1).drop_last() =~= candidates.take(k));
}

/// What one step of a scan does to a mesh: with the faces picked among the
/// first `k` candidates in `before`, and the `k`-th added if it is picked,
/// `after` holds the faces picked among the first `k + 1`.
proof fn lemma_scan_step(
    candidates: Seq<FaceQuad>,
    k: int,
    pick: spec_fn(FaceQuad) -> bool,
    atlas: AtlasView,
    before: MeshView,
    after: MeshView,
)
    requires
        0 <= k < candidates.len(),
        before == mesh_of_faces(candidates.take(k).filter(pick), atlas),
        after == if pick(candidates[k]) {
            with_quad(
                before,
                candidates[k].face,
                quad_offset(candidates[k]),
                atlas.uvs(candidates[k].index as int),
            )
        } else {
            before
        },
    ensures
        after == mesh_of_faces(candidates.take(k + 1).filter(pick), atlas),
{
    lemma_filter_next(candidates, k, pick);
    if pick(candidates[k]) {
        lemma_mesh_of_faces_push(candidates.take(k).filter(pick), candidates[k], atlas);
    }
}

/// A mesh of faces picked among the first `k` candidates has at most `4 * k`
/// vertices.
proof fn lemma_scan_size(candidates: Seq<FaceQuad>, k: int, pick: spec_fn(FaceQuad) -> bool, atlas: AtlasView)
    requires
        0 <= k <= candidates.len(),
        4 * k <= u32::MAX,
    ensures
        mesh_of_faces(candidates.take(k).filter(pick), atlas).vertex_count() <= 4 * k,
{
    candidates.take(k).lemma_filter_len(pick);
    lemma_mesh_of_faces_shape(candidates.take(k).filter(pick), atlas);
}

fn visibility_at(chunk: &ChunkData, x: usize, y: usize, z: usize) -> (found: TileVisibility)
    requires
        in_chunk(x as int, y as int, z as int),
    ensures
        found == chunk.tile(x as int, y as int, z as int).visibility,
{
    chunk.get_tile_local(Coord3 { x: x as u32, y: y as u32, z: z as u32 }).visibility
}

fn boundary_at(chunk: Option<&ChunkData>, x: usize, y: usize, z: usize) -> (found: TileVisibility)
    requires
        in_chunk(x as int, y as int, z as int),
    ensures
        found == boundary_visibility(chunk, x as int, y as int, z as int),
{
    match chunk {
        Some(chunk) => visibility_at(chunk, x, y, z),
        None => TileVisibility::Empty,
    }
}

impl ChunkData {
    /// The visibility classes of the six tiles around the tile `(x, y, z)`,
    /// in the order above, below, right, left, front, back. Across a side of
    /// the chunk the neighbouring chunk is asked; where there is none, the
    /// answer is empty.
    pub fn neighbor_visibilities(&self, around: &Neighbors, x: usize, y: usize, z: usize) -> (found:
        [TileVisibility; 6])
        requires
            in_chunk(x as int, y as int, z as int),
        ensures
            forall|k: int|
                0 <= k < TILE_FACES ==> #[trigger] found@[k] == neighbor_visibility(
                    self,
                    *around,
                    scan_face(k),
                    x as int,
                    y as int,
                    z as int,
                ),
    {
        let last: usize = CHUNK_SIZE - 1;
        let above: TileVisibility = if y < last {
            visibility_at(self, x, y + 1, z)
        } else {
            boundary_at(around.top, x, 0, z)
        };
        let below: TileVisibility = if y > 0 {
            visibility_at(self, x, y - 1, z)
        } else {
            boundary_at(around.bottom, x, last, z)
        };
        let right: TileVisibility = if x < last {
            visibility_at(self, x + 1, y, z)
        } else {
            boundary_at(around.right, 0, y, z)
        };
        let left: TileVisibility = if x > 0 {
            visibility_at(self, x - 1, y, z)
        } else {
            boundary_at(around.left, last, y, z)
        };
        let front: TileVisibility = if z > 0 {
            visibility_at(self, x, y, z - 1)
        } else {
            boundary_at(around.front, x, y, last)
        };
        let back: TileVisibility = if z < last {
            visibility_at(self, x, y, z + 1)
        } else {
            boundary_at(around.back, x, y, 0)
        };
        [above, below, right, left, front, back]
    }
}

/// Scans one tile of a layer: appends its drawn ceiling to `ceiling` and its
/// other drawn faces to `floor_wall`.
fn mesh_tile(
    chunk: &ChunkData,
    around: &Neighbors,
    layer_index: usize,
    x: usize,
    z: usize,
    atlas: &TileAtlas,
    floor_wall: &mut TempMesh,
    ceiling: &mut TempMesh,
)
    requires
        in_chunk(x as int, layer_index as int, z as int),
        layer_textured(chunk, *around, layer_index as int, atlas@),
        old(floor_wall).wf(),
        old(ceiling).wf(),
        old(floor_wall)@ == mesh_of_faces(
            scan_candidates(chunk, layer_index as int).take(6 * (16 * x + z)).filter(
                is_drawn_floor_wall(chunk, *around, layer_index as int),
            ),
            atlas@,
        ),
        old(ceiling)@ == mesh_of_faces(
            scan_candidates(chunk, layer_index as int).take(6 * (16 * x + z)).filter(
                is_drawn_ceiling(chunk, *around, layer_index as int),
            ),
            atlas@,
        ),
    ensures
        final(floor_wall).wf(),
        final(ceiling).wf(),
        final(floor_wall)@ == mesh_of_faces(
            scan_candidates(chunk, layer_index as int).take(6 * (16 * x + z) + 6).filter(
                is_drawn_floor_wall(chunk, *around, layer_index as int),
            ),
            atlas@,
        ),
        final(ceiling)@ == mesh_of_faces(
            scan_candidates(chunk, layer_index as int).take(6 * (16 * x + z) + 6).filter(
                is_drawn_ceiling(chunk, *around, layer_index as int),
            ),
            atlas@,
        ),
{
    let ghost y = layer_index as int;
    let ghost candidates = scan_candidates(chunk, y);
    let ghost walls = is_drawn_floor_wall(chunk, *around, y);
    let ghost tops = is_drawn_ceiling(chunk, *around, y);
    let ghost first = 6 * (16 * x + z);
    let tile: Tile = *chunk.get_tile_local(Coord3 { x: x as u32, y: layer_index as u32, z: z as u32 });
    let vis: TileVisibility = tile.visibility;
    let index: usize = tile.index;
    let neighbors: [TileVisibility; 6] = chunk.neighbor_visibilities(around, x, layer_index, z);
    let offset: Vec3i = Vec3i { x: x as i32, y: 0, z: z as i32 };
    proof {
        lemma_scan_size(candidates, first, walls, atlas@);
        lemma_scan_size(candidates, first, tops, atlas@);
        assert forall|k: int| 0 <= k < 6 implies (#[trigger] candidates[first + k]) == (FaceQuad {
            face: scan_face(k),
            x: x as int,
            z: z as int,
            index,
        }) by {
            assert((first + k) / 6 == 16 * x + z);
            assert((first + k) % 6 == k);
            assert((16 * x + z) / 16 == x);
            assert((16 * x + z) % 16 == z);
        }
        assert(forall|k: int| 0 <= k < 6 ==> quad_offset(#[trigger] candidates[first + k]) == offset);
        assert(forall|k: int|
            0 <= k < 6 ==> (#[trigger] neighbors@[k]) == neighbor_visibility(chunk, *around, scan_face(k), x as int, y, z as int));
    }

    let ghost walls_before = floor_wall@;
    let ghost tops_before = ceiling@;
    if vis.visible(&neighbors[0]) {
        assert(face_drawn(chunk, *around, scan_face(0), x as int, y, z as int));
        add_ceiling(ceiling, &offset, atlas.get_uvs(index));
    }
    proof {
        assert(candidates[first + 0].face == CubeFace::Ceiling);
        lemma_scan_step(candidates, first, walls, atlas@, walls_before, floor_wall@);
        lemma_scan_step(candidates, first, tops, atlas@, tops_before, ceiling@);
    }

    let ghost walls_before = floor_wall@;
    if vis.visible(&neighbors[1]) {
        assert(face_drawn(chunk, *around, scan_face(1), x as int, y, z as int));
        add_bottom(floor_wall, &offset, atlas.get_uvs(index));
    }
    proof {
        assert(candidates[first + 1].face == CubeFace::Bottom);
        lemma_scan_step(candidates, first + 1, walls, atlas@, walls_before, floor_wall@);
        lemma_scan_step(candidates, first + 1, tops, atlas@, ceiling@, ceiling@);
    }

    let ghost walls_before = floor_wall@;
    if vis.visible(&neighbors[2]) {
        assert(face_drawn(chunk, *around, scan_face(2), x as int, y, z as int));
        add_right(floor_wall, &offset, atlas.get_uvs(index));
    }
    proof {
        assert(candidates[first + 2].face == CubeFace::Right);
        lemma_scan_step(candidates, first + 2, walls, atlas@, walls_before, floor_wall@);
        lemma_scan_step(candidates, first + 2, tops, atlas@, ceiling@, ceiling@);
    }

    let ghost walls_before = floor_wall@;
    if vis.visible(&neighbors[3]) {
        assert(face_drawn(chunk, *around, scan_face(3), x as int, y, z as int));
        add_left(floor_wall, &offset, atlas.get_uvs(index));
    }
    proof {
        assert(candidates[first + 3].face == CubeFace::Left);
        lemma_scan_step(candidates, first + 3, walls, atlas@, walls_before, floor_wall@);
        lemma_scan_step(candidates, first + 3, tops, atlas@, ceiling@, ceiling@);
    }

    let ghost walls_before = floor_wall@;
    if vis.visible(&neighbors[4]) {
        assert(face_drawn(chunk, *around, scan_face(4), x as int, y, z as int));
        add_front(floor_wall, &offset, atlas.get_uvs(index));
    }
    proof {
        assert(candidates[first + 4].face == CubeFace::Front);
        lemma_scan_step(candidates, first + 4, walls, atlas@, walls_before, floor_wall@);
        lemma_scan_step(candidates, first + 4, tops, atlas@, ceiling@, ceiling@);
    }

    let ghost walls_before = floor_wall@;
    if vis.visible(&neighbors[5]) {
        assert(face_drawn(chunk, *around, scan_face(5), x as int, y, z as int));
        add_back(floor_wall, &offset, atlas.get_uvs(index));
    }
    proof {
        assert(candidates[first + 5].face == CubeFace::Back);
        lemma_scan_step(candidates, first + 5, walls, atlas@, walls_before, floor_wall@);
        lemma_scan_step(candidates, first + 5, tops, atlas@, ceiling@, ceiling@);
    }
}

/// Meshes layer `layer_index` of `chunk`: the first mesh holds the drawn
/// floors and walls, the second the drawn ceilings.
pub fn generate_mesh(chunk: &ChunkData, around: &Neighbors, layer_index: usize, atlas: &TileAtlas) -> (meshes: (
    TriangleMesh,
    TriangleMesh,
))
    requires
        layer_index < CHUNK_SIZE,
        layer_textured(chunk, *around, layer_index as int, atlas@),
    ensures
        meshes.0@ == mesh_of_faces(floor_wall_faces(chunk, *around, layer_index as int), atlas@),
        meshes.1@ == mesh_of_faces(ceiling_faces(chunk, *around, layer_index as int), atlas@),
        meshes.0@.aligned() && meshes.0@.indices_in_range(),
        meshes.1@.aligned() && meshes.1@.indices_in_range(),
{
    let mut floor_wall_mesh: TempMesh = TempMesh::new();
    let mut ceiling_mesh: TempMesh = TempMesh::new();
    let ghost candidates = scan_candidates(chunk, layer_index as int);
    let ghost walls = is_drawn_floor_wall(chunk, *around, layer_index as int);
    let ghost tops = is_drawn_ceiling(chunk, *around, layer_index as int);
    proof {
        reveal(Seq::filter);
        assert(candidates.take(0) =~= Seq::empty());
    }
    let mut x: usize = 0;
    while x < CHUNK_SIZE
        invariant
            x <= CHUNK_SIZE,
            layer_index < CHUNK_SIZE,
            layer_textured(chunk, *around, layer_index as int, atlas@),
            candidates == scan_candidates(chunk, layer_index as int),
            walls == is_drawn_floor_wall(chunk, *around, layer_index as int),
            tops == is_drawn_ceiling(chunk, *around, layer_index as int),
            floor_wall_mesh.wf(),
            ceiling_mesh.wf(),
            floor_wall_mesh@ == mesh_of_faces(candidates.take(6 * (16 * x)).filter(walls), atlas@),
            ceiling_mesh@ == mesh_of_faces(candidates.take(6 * (16 * x)).filter(tops), atlas@),
        decreases CHUNK_SIZE - x,
    {
        let mut z: usize = 0;
        while z < CHUNK_SIZE
            invariant
                x < CHUNK_SIZE,
                z <= CHUNK_SIZE,
                layer_index < CHUNK_SIZE,
                layer_textured(chunk, *around, layer_index as int, atlas@),
                candidates == scan_candidates(chunk, layer_index as int),
                walls == is_drawn_floor_wall(chunk, *around, layer_index as int),
                tops == is_drawn_ceiling(chunk, *around, layer_index as int),
                floor_wall_mesh.wf(),
                ceiling_mesh.wf(),
                floor_wall_mesh@ == mesh_of_faces(candidates.take(6 * (16 * x + z)).filter(walls), atlas@),
                ceiling_mesh@ == mesh_of_faces(candidates.take(6 * (16 * x + z)).filter(tops), atlas@),
            decreases CHUNK_SIZE - z,
        {
            mesh_tile(chunk, around, layer_index, x, z, atlas, &mut floor_wall_mesh, &mut ceiling_mesh);
            z += 1;
        }
        x += 1;
    }
    proof {
        assert(candidates.take(LAYER_FACES as int) =~= candidates);
        candidates.lemma_filter_len(walls);
        candidates.lemma_filter_len(tops);
        lemma_mesh_of_faces_shape(candidates.filter(walls), atlas@);
        lemma_mesh_of_faces_shape(candidates.filter(tops), atlas@);
    }
    (floor_wall_mesh.into_mesh(), ceiling_mesh.into_mesh())
}

/// Whether the atlas has a region for every drawn face of the chunk.
pub open spec fn chunk_textured(chunk: &ChunkData, around: Neighbors, atlas: AtlasView) -> bool {
    forall|y: int| 0 <= y < CHUNK_SIZE ==> #[trigger] layer_textured(chunk, around, y, atlas)
}

impl ChunkData {
    /// Whether the atlas has a region for every face that layer
    /// `layer_index` draws: whether `generate_mesh` can mesh the layer.
    pub fn layer_textured_by(&self, around: &Neighbors, layer_index: usize, atlas: &TileAtlas) -> (ok: bool)
        requires
            layer_index < CHUNK_SIZE,
        ensures
            ok == layer_textured(self, *around, layer_index as int, atlas@),
    {
        let ghost y = layer_index as int;
        let regions: usize = atlas.len();
        let mut x: usize = 0;
        while x < CHUNK_SIZE
            invariant
                x <= CHUNK_SIZE,
                layer_index < CHUNK_SIZE,
                y == layer_index,
                regions == atlas@.regions.len(),
                forall|i: int, j: int, k: int|
                    0 <= i < x && 0 <= j < CHUNK_SIZE && 0 <= k < TILE_FACES && #[trigger] face_drawn(
                        self,
                        *around,
                        scan_face(k),
                        i,
                        y,
                        j,
                    ) ==> self.tile(i, y, j).index < regions,
            decreases CHUNK_SIZE - x,
        {
            let mut z: usize = 0;
            while z < CHUNK_SIZE
                invariant
                    x < CHUNK_SIZE,
                    z <= CHUNK_SIZE,
                    layer_index < CHUNK_SIZE,
                    y == layer_index,
                    regions == atlas@.regions.len(),
                    forall|i: int, j: int, k: int|
                        (0 <= i < x && 0 <= j < CHUNK_SIZE || i == x && 0 <= j < z) && 0 <= k < TILE_FACES
                            && #[trigger] face_drawn(self, *around, scan_face(k), i, y, j) ==> self.tile(
                            i,
                            y,
                            j,
                        ).index < regions,
                decreases CHUNK_SIZE - z,
            {
                let tile: Tile = *self.get_tile_local(Coord3 { x: x as u32, y: layer_index as u32, z: z as u32 });
                let vis: TileVisibility = tile.visibility;
                let neighbors: [TileVisibility; 6] = self.neighbor_visibilities(around, x, layer_index, z);
                let draws: bool = vis.visible(&neighbors[0]) || vis.visible(&neighbors[1]) || vis.visible(
                    &neighbors[2],
                ) || vis.visible(&neighbors[3]) || vis.visible(&neighbors[4]) || vis.visible(&neighbors[5]);
                proof {
                    assert(forall|k: int|
                        0 <= k < 6 ==> (#[trigger] neighbors@[k]) == neighbor_visibility(
                            self,
                            *around,
                            scan_face(k),
                            x as int,
                            y,
                            z as int,
                        ));
                    assert(forall|k: int|
                        0 <= k < 6 ==> (#[trigger] face_drawn(self, *around, scan_face(k), x as int, y, z as int))
                            == spec_visible(vis, neighbors@[k]));
                }
                if draws && tile.index >= regions {
                    proof {
                        let k: int = if spec_visible(vis, neighbors@[0]) {
                            0
                        } else if spec_visible(vis, neighbors@[1]) {
                            1
                        } else if spec_visible(vis, neighbors@[2]) {
                            2
                        } else if spec_visible(vis, neighbors@[3]) {
                            3
                        } else if spec_visible(vis, neighbors@[4]) {
                            4
                        } else {
                            5
                        };
                        assert(spec_visible(vis, neighbors@[k]));
                        assert(face_drawn(self, *around, scan_face(k), x as int, y, z as int));
                    }
                    return false;
                }
                z += 1;
            }
            x += 1;
        }
        true
    }

    /// Whether the atlas has a region for every face that the chunk draws:
    /// whether `gen_meshes` can mesh it.
    pub fn textured_by(
        &self,
        chunk_right: Option<&ChunkData>,
        chunk_left: Option<&ChunkData>,
        chunk_front: Option<&ChunkData>,
        chunk_back: Option<&ChunkData>,
        chunk_top: Option<&ChunkData>,
        chunk_bottom: Option<&ChunkData>,
        atlas: &TileAtlas,
    ) -> (ok: bool)
        ensures
            ok == chunk_textured(
                self,
                Neighbors {
                    right: chunk_right,
                    left: chunk_left,
                    front: chunk_front,
                    back: chunk_back,
                    top: chunk_top,
                    bottom: chunk_bottom,
                },
                atlas@,
            ),
    {
        let around: Neighbors = Neighbors {
            right: chunk_right,
            left: chunk_left,
            front: chunk_front,
            back: chunk_back,
            top: chunk_top,
            bottom: chunk_bottom,
        };
        let mut layer_index: usize = 0;
        while layer_index < CHUNK_SIZE
            invariant
                layer_index <= CHUNK_SIZE,
                around == (Neighbors {
                    right: chunk_right,
                    left: chunk_left,
                    front: chunk_front,
                    back: chunk_back,
                    top: chunk_top,
                    bottom: chunk_bottom,
                }),
                forall|y: int| 0 <= y < layer_index ==> #[trigger] layer_textured(self, around, y, atlas@),
            decreases CHUNK_SIZE - layer_index,
        {
            if !self.layer_textured_by(&around, layer_index, atlas) {
                return false;
            }
            layer_index += 1;
        }
        true
    }

    /// Meshes the whole chunk, bottom layer first, and appends one pair of
    /// meshes per layer to `meshes`: the layer's floors and walls, then its
    /// ceilings. Each neighbour is the chunk that touches the side named, if
    /// there is one.
    pub fn gen_meshes(
        &self,
        chunk_right: Option<&ChunkData>,
        chunk_left: Option<&ChunkData>,
        chunk_front: Option<&ChunkData>,
        chunk_back: Option<&ChunkData>,
        chunk_top: Option<&ChunkData>,
        chunk_bottom: Option<&ChunkData>,
        atlas: &TileAtlas,
        meshes: &mut Vec<(TriangleMesh, TriangleMesh)>,
    )
        requires
            chunk_textured(
                self,
                Neighbors {
                    right: chunk_right,
                    left: chunk_left,
                    front: chunk_front,
                    back: chunk_back,
                    top: chunk_top,
                    bottom: chunk_bottom,
                },
                atlas@,
            ),
        ensures
            final(meshes)@.len() == old(meshes)@.len() + CHUNK_SIZE,
            forall|i: int| 0 <= i < old(meshes)@.len() ==> final(meshes)@[i] == old(meshes)@[i],
            forall|y: int|
                0 <= y < CHUNK_SIZE ==> {
                    let around = Neighbors {
                        right: chunk_right,
                        left: chunk_left,
                        front: chunk_front,
                        back: chunk_back,
                        top: chunk_top,
                        bottom: chunk_bottom,
                    };
                    let pair = #[trigger] final(meshes)@[old(meshes)@.len() + y];
                    &&& pair.0@ == mesh_of_faces(floor_wall_faces(self, around, y), atlas@)
                    &&& pair.1@ == mesh_of_faces(ceiling_faces(self, around, y), atlas@)
                    &&& pair.0@.aligned() && pair.0@.indices_in_range()
                    &&& pair.1@.aligned() && pair.1@.indices_in_range()
                },
    {
        let around: Neighbors = Neighbors {
            right: chunk_right,
            left: chunk_left,
            front: chunk_front,
            back: chunk_back,
            top: chunk_top,
            bottom: chunk_bottom,
        };
        let ghost before = meshes@;
        let mut layer_index: usize = 0;
        while layer_index < CHUNK_SIZE
            invariant
                layer_index <= CHUNK_SIZE,
                chunk_textured(self, around, atlas@),
                meshes@.len() == before.len() + layer_index,
                forall|i: int| 0 <= i < before.len() ==> meshes@[i] == before[i],
                forall|y: int|
                    0 <= y < layer_index ==> {
                        let pair = #[trigger] meshes@[before.len() + y];
                        &&& pair.0@ == mesh_of_faces(floor_wall_faces(self, around, y), atlas@)
                        &&& pair.1@ == mesh_of_faces(ceiling_faces(self, around, y), atlas@)
                        &&& pair.0@.aligned() && pair.0@.indices_in_range()
                        &&& pair.1@.aligned() && pair.1@.indices_in_range()
                    },
            decreases CHUNK_SIZE - layer_index,
        {
            assert(layer_textured(self, around, layer_index as int, atlas@));
            let pair: (TriangleMesh, TriangleMesh) = generate_mesh(self, &around, layer_index, atlas);
            meshes.push(pair);
            layer_index += 1;
        }
    }
}

} // verus!
