//! The faces of a unit cube: where their corners lie, which way they look,
//! how their two triangles wind, and how one of them is appended to a mesh.
//!
//! A tile's cube is centred on the tile's offset, so its corners lie half a
//! tile away from it. Positions are therefore kept in half tiles: the corner
//! `(-1, 1, -1)` of the tile at offset `(x, y, z)` is stored as
//! `(2x - 1, 2y + 1, 2z - 1)`.

use vstd::prelude::*;
use crate::temp_mesh::{MeshView, TempMesh};
use crate::vector::{Uv, Vec3i};

verus! {

/// The largest tile offset, in either direction along each axis, whose cube
/// corners still fit the position type.
pub const MAX_TILE_OFFSET: i32 = 0x3fff_ffff;

/// A face of a tile's cube. `Floor` and `Bottom` are the same quad below the
/// tile: `Floor` winds to be seen from above, `Bottom` from below.
#[derive(Debug, Clone, Copy, PartialEq, Eq, Structural)]
pub enum CubeFace {
    /// The quad above the tile, looking up (+Y).
    Ceiling,
    /// The quad below the tile, seen from inside the tile.
    Floor,
    /// The quad below the tile, looking down (-Y).
    Bottom,
    /// The quad toward lower z, looking at -Z.
    Front,
    /// The quad toward higher z, looking at +Z.
    Back,
    /// The quad toward higher x, looking at +X.
    Right,
    /// The quad toward lower x, looking at -X.
    Left,
}

/// The four corners of a face, in half tiles from the cube's centre.
pub open spec fn face_corners(face: CubeFace) -> Seq<Vec3i> {
    match face {
        CubeFace::Ceiling => seq![
            Vec3i { x: -1i32, y: 1, z: -1i32 },
            Vec3i { x: 1, y: 1, z: -1i32 },
            Vec3i { x: 1, y: 1, z: 1 },
            Vec3i { x: -1i32, y: 1, z: 1 },
        ],
        CubeFace::Floor | CubeFace::Bottom => seq![
            Vec3i { x: -1i32, y: -1i32, z: -1i32 },
            Vec3i { x: 1, y: -1i32, z: -1i32 },
            Vec3i { x: 1, y: -1i32, z: 1 },
            Vec3i { x: -1i32, y: -1i32, z: 1 },
        ],
        CubeFace::Right => seq![
            Vec3i { x: 1, y: -1i32, z: -1i32 },
            Vec3i { x: 1, y: -1i32, z: 1 },
            Vec3i { x: 1, y: 1, z: 1 },
            Vec3i { x: 1, y: 1, z: -1i32 },
        ],
        CubeFace::Left => seq![
            Vec3i { x: -1i32, y: -1i32, z: -1i32 },
            Vec3i { x: -1i32, y: -1i32, z: 1 },
            Vec3i { x: -1i32, y: 1, z: 1 },
            Vec3i { x: -1i32, y: 1, z: -1i32 },
        ],
        CubeFace::Back => seq![
            Vec3i { x: -1i32, y: -1i32, z: 1 },
            Vec3i { x: -1i32, y: 1, z: 1 },
            Vec3i { x: 1, y: 1, z: 1 },
            Vec3i { x: 1, y: -1i32, z: 1 },
        ],
        CubeFace::Front => seq![
            Vec3i { x: -1i32, y: -1i32, z: -1i32 },
            Vec3i { x: -1i32, y: 1, z: -1i32 },
            Vec3i { x: 1, y: 1, z: -1i32 },
            Vec3i { x: 1, y: -1i32, z: -1i32 },
        ],
    }
}

/// The unit vector that a face's vertices carry as their normal.
pub open spec fn face_normal(face: CubeFace) -> Vec3i {
    match face {
        CubeFace::Ceiling => Vec3i { x: 0, y: 1, z: 0 },
        CubeFace::Floor | CubeFace::Bottom => Vec3i { x: 0, y: -1i32, z: 0 },
        CubeFace::Right => Vec3i { x: 1, y: 0, z: 0 },
        CubeFace::Left => Vec3i { x: -1i32, y: 0, z: 0 },
        CubeFace::Back => Vec3i { x: 0, y: 0, z: 1 },
        CubeFace::Front => Vec3i { x: 0, y: 0, z: -1i32 },
    }
}

/// The first of the two ways to cut a quad into triangles.
pub open spec fn winding_indices() -> Seq<u32> {
    seq![0u32, 3u32, 1u32, 1u32, 3u32, 2u32]
}

/// The same two triangles, each turned the other way round.
pub open spec fn reversed_winding_indices() -> Seq<u32> {
    seq![0u32, 1u32, 3u32, 1u32, 2u32, 3u32]
}

/// Whether a face takes the reversed winding.
pub open spec fn face_reversed(face: CubeFace) -> bool {
    face == CubeFace::Bottom || face == CubeFace::Front || face == CubeFace::Left
}

/// The six corner numbers of a face's two triangles.
pub open spec fn face_indices(face: CubeFace) -> Seq<u32> {
    if face_reversed(face) {
        reversed_winding_indices()
    } else {
        winding_indices()
    }
}

/// Whether the cube around `offset` has all its corners inside the position
/// type.
pub open spec fn offset_in_range(offset: Vec3i) -> bool {
    &&& -MAX_TILE_OFFSET <= offset.x <= MAX_TILE_OFFSET
    &&& -MAX_TILE_OFFSET <= offset.y <= MAX_TILE_OFFSET
    &&& -MAX_TILE_OFFSET <= offset.z <= MAX_TILE_OFFSET
}

/// A corner moved to the tile at `offset`, in half tiles.
pub open spec fn moved_corner(corner: Vec3i, offset: Vec3i) -> Vec3i {
    Vec3i {
        x: (corner.x + 2 * offset.x) as i32,
        y: (corner.y + 2 * offset.y) as i32,
        z: (corner.z + 2 * offset.z) as i32,
    }
}

/// The four vertex positions of a face of the tile at `offset`.
pub open spec fn quad_positions(face: CubeFace, offset: Vec3i) -> Seq<Vec3i> {
    Seq::new(4, |j: int| moved_corner(face_corners(face)[j], offset))
}

/// The four vertex normals of a face: its normal, four times.
pub open spec fn quad_normals(face: CubeFace) -> Seq<Vec3i> {
    Seq::new(4, |j: int| face_normal(face))
}

/// `mesh` with one more face of the tile at `offset`, textured by `uv`.
pub open spec fn with_quad(mesh: MeshView, face: CubeFace, offset: Vec3i, uv: Seq<Uv>) -> MeshView {
    mesh.extended(uv, quad_normals(face), quad_positions(face, offset), face_indices(face))
}

/// Whether `mesh` has room for one more face.
pub open spec fn quad_fits(mesh: MeshView) -> bool {
    mesh.vertex_count() + 3 <= u32::MAX
}

/// Twice the area vector of the triangle `a`, `b`, `c`: the cross product of
/// its edges `b - a` and `c - a`. By the right-hand rule it points at the
/// side from which the triangle is seen to run counter-clockwise.
pub open spec fn triangle_cross(a: Vec3i, b: Vec3i, c: Vec3i) -> (int, int, int) {
    let ux = b.x - a.x;
    let uy = b.y - a.y;
    let uz = b.z - a.z;
    let vx = c.x - a.x;
    let vy = c.y - a.y;
    let vz = c.z - a.z;
    (uy * vz - uz * vy, uz * vx - ux * vz, ux * vy - uy * vx)
}

/// Every face but `Floor` is wound to be seen from outside the cube: each of
/// its two triangles runs counter-clockwise around the face's normal. (Its
/// edges are two half tiles long, so the cross product is four normals.)
/// `Floor` is the one face wound the other way.
pub proof fn lemma_faces_wind_outward(face: CubeFace, triangle: int)
    requires
        0 <= triangle < 2,
    ensures
        ({
            let corners = face_corners(face);
            let indices = face_indices(face);
            let normal = face_normal(face);
            let cross = triangle_cross(
                corners[indices[3 * triangle] as int],
                corners[indices[3 * triangle + 1] as int],
                corners[indices[3 * triangle + 2] as int],
            );
            if face == CubeFace::Floor {
                cross == (-4 * normal.x, -4 * normal.y, -4 * normal.z)
            } else {
                cross == (4 * normal.x, 4 * normal.y, 4 * normal.z)
            }
        }),
{
    let corners = face_corners(face);
    let indices = face_indices(face);
    let a = corners[indices[3 * triangle] as int];
    let b = corners[indices[3 * triangle + 1] as int];
    let c = corners[indices[3 * triangle + 2] as int];
    if face_reversed(face) {
        if triangle == 0 {
            assert(a == corners[0] && b == corners[1] && c == corners[3]);
        } else {
            assert(a == corners[1] && b == corners[2] && c == corners[3]);
        }
    } else {
        if triangle == 0 {
            assert(a == corners[0] && b == corners[3] && c == corners[1]);
        } else {
            assert(a == corners[1] && b == corners[3] && c == corners[2]);
        }
    }
    let expected: (int, int, int) = match face {
        CubeFace::Ceiling | CubeFace::Floor => (0, 4, 0),
        CubeFace::Bottom => (0, -4, 0),
        CubeFace::Right => (4, 0, 0),
        CubeFace::Left => (-4, 0, 0),
        CubeFace::Back => (0, 0, 4),
        CubeFace::Front => (0, 0, -4),
    };
    let ux = b.x - a.x;
    let uy = b.y - a.y;
    let uz = b.z - a.z;
    let vx = c.x - a.x;
    let vy = c.y - a.y;
    let vz = c.z - a.z;
    assert(ux == 0 || ux == 2 || ux == -2);
    assert(uy == 0 || uy == 2 || uy == -2);
    assert(uz == 0 || uz == 2 || uz == -2);
    lemma_edge_product(uy, vz);
    lemma_edge_product(uz, vy);
    lemma_edge_product(uz, vx);
    lemma_edge_product(ux, vz);
    lemma_edge_product(ux, vy);
    lemma_edge_product(uy, vx);
    assert(triangle_cross(a, b, c) == (uy * vz - uz * vy, uz * vx - ux * vz, ux * vy - uy * vx));
    assert(triangle_cross(a, b, c) == expected);
}

/// Products with an edge component of a face: such a component is zero or
/// two half tiles, one way or the other.
proof fn lemma_edge_product(p: int, q: int)
    ensures
        p == 0 ==> p * q == 0,
        p == 2 ==> p * q == 2 * q,
        p == -2 ==> p * q == -2 * q,
{
    assert(p == 0 ==> p * q == 0) by (nonlinear_arith);
    assert(p == 2 ==> p * q == 2 * q) by (nonlinear_arith);
    assert(p == -2 ==> p * q == -2 * q) by (nonlinear_arith);
}

fn corners_of(face: CubeFace) -> (corners: [Vec3i; 4])
    ensures
        corners@ == face_corners(face),
{
    let corners: [Vec3i; 4] = match face {
        CubeFace::Ceiling => [
            Vec3i { x: -1i32, y: 1, z: -1i32 },
            Vec3i { x: 1, y: 1, z: -1i32 },
            Vec3i { x: 1, y: 1, z: 1 },
            Vec3i { x: -1i32, y: 1, z: 1 },
        ],
        CubeFace::Floor | CubeFace::Bottom => [
            Vec3i { x: -1i32, y: -1i32, z: -1i32 },
            Vec3i { x: 1, y: -1i32, z: -1i32 },
            Vec3i { x: 1, y: -1i32, z: 1 },
            Vec3i { x: -1i32, y: -1i32, z: 1 },
        ],
        CubeFace::Right => [
            Vec3i { x: 1, y: -1i32, z: -1i32 },
            Vec3i { x: 1, y: -1i32, z: 1 },
            Vec3i { x: 1, y: 1, z: 1 },
            Vec3i { x: 1, y: 1, z: -1i32 },
        ],
        CubeFace::Left => [
            Vec3i { x: -1i32, y: -1i32, z: -1i32 },
            Vec3i { x: -1i32, y: -1i32, z: 1 },
            Vec3i { x: -1i32, y: 1, z: 1 },
            Vec3i { x: -1i32, y: 1, z: -1i32 },
        ],
        CubeFace::Back => [
            Vec3i { x: -1i32, y: -1i32, z: 1 },
            Vec3i { x: -1i32, y: 1, z: 1 },
            Vec3i { x: 1, y: 1, z: 1 },
            Vec3i { x: 1, y: -1i32, z: 1 },
        ],
        CubeFace::Front => [
            Vec3i { x: -1i32, y: -1i32, z: -1i32 },
            Vec3i { x: -1i32, y: 1, z: -1i32 },
            Vec3i { x: 1, y: 1, z: -1i32 },
            Vec3i { x: 1, y: -1i32, z: -1i32 },
        ],
    };
    assert(corners@ =~= face_corners(face));
    corners
}

fn normals_of(face: CubeFace) -> (normals: [Vec3i; 4])
    ensures
        normals@ == quad_normals(face),
{
    let normal: Vec3i = match face {
        CubeFace::Ceiling => Vec3i { x: 0, y: 1, z: 0 },
        CubeFace::Floor | CubeFace::Bottom => Vec3i { x: 0, y: -1i32, z: 0 },
        CubeFace::Right => Vec3i { x: 1, y: 0, z: 0 },
        CubeFace::Left => Vec3i { x: -1i32, y: 0, z: 0 },
        CubeFace::Back => Vec3i { x: 0, y: 0, z: 1 },
        CubeFace::Front => Vec3i { x: 0, y: 0, z: -1i32 },
    };
    let normals: [Vec3i; 4] = [normal, normal, normal, normal];
    assert(normals@ =~= quad_normals(face));
    normals
}

fn indices_of(face: CubeFace) -> (indices: [u32; 6])
    ensures
        indices@ == face_indices(face),
{
    let indices: [u32; 6] = match face {
        CubeFace::Bottom | CubeFace::Front | CubeFace::Left => [0, 1, 3, 1, 2, 3],
        _ => [0, 3, 1, 1, 3, 2],
    };
    assert(indices@ =~= face_indices(face));
    indices
}

fn offset_vertex(vertex: Vec3i, offset: &Vec3i) -> (moved: Vec3i)
    requires
        offset_in_range(*offset),
        -1 <= vertex.x <= 1,
        -1 <= vertex.y <= 1,
        -1 <= vertex.z <= 1,
    ensures
        moved == moved_corner(vertex, *offset),
{
    Vec3i {
        x: vertex.x + 2 * offset.x,
        y: vertex.y + 2 * offset.y,
        z: vertex.z + 2 * offset.z,
    }
}

fn offset_vertices(vertices: &[Vec3i; 4], offset: &Vec3i) -> (moved: [Vec3i; 4])
    requires
        offset_in_range(*offset),
        forall|j: int|
            0 <= j < 4 ==> {
                &&& -1 <= (#[trigger] vertices@[j]).x <= 1
                &&& -1 <= vertices@[j].y <= 1
                &&& -1 <= vertices@[j].z <= 1
            },
    ensures
        moved@ == Seq::new(4, |j: int| moved_corner(vertices@[j], *offset)),
{
    let moved: [Vec3i; 4] = [
        offset_vertex(vertices[0], offset),
        offset_vertex(vertices[1], offset),
        offset_vertex(vertices[2], offset),
        offset_vertex(vertices[3], offset),
    ];
    assert(moved@ =~= Seq::new(4, |j: int| moved_corner(vertices@[j], *offset)));
    moved
}

/// Appends `face` of the tile at `offset` to `mesh`: four vertices with the
/// texture coordinates `uv`, and the face's two triangles.
pub fn add_face(mesh: &mut TempMesh, face: CubeFace, offset: &Vec3i, uv: [Uv; 4])
    requires
        old(mesh).wf(),
        offset_in_range(*offset),
        quad_fits(old(mesh)@),
    ensures
        final(mesh)@ == with_quad(old(mesh)@, face, *offset, uv@),
        final(mesh).wf(),
        old(mesh)@.indices_in_range() ==> final(mesh)@.indices_in_range(),
{
    let corners: [Vec3i; 4] = corners_of(face);
    let positions: [Vec3i; 4] = offset_vertices(&corners, offset);
    let normals: [Vec3i; 4] = normals_of(face);
    let indices: [u32; 6] = indices_of(face);
    assert(positions@ =~= quad_positions(face, *offset));
    mesh.extend(&uv, &normals, &positions, &indices);
}

/// Appends the face above the tile at `offset`.
pub fn add_ceiling(mesh: &mut TempMesh, offset: &Vec3i, uv: [Uv; 4])
    requires
        old(mesh).wf(),
        offset_in_range(*offset),
        quad_fits(old(mesh)@),
    ensures
        final(mesh)@ == with_quad(old(mesh)@, CubeFace::Ceiling, *offset, uv@),
        final(mesh).wf(),
        old(mesh)@.indices_in_range() ==> final(mesh)@.indices_in_range(),
{
    add_face(mesh, CubeFace::Ceiling, offset, uv);
}

/// Appends the face below the tile at `offset`, wound to be seen from above.
pub fn add_floor(mesh: &mut TempMesh, offset: &Vec3i, uv: [Uv; 4])
    requires
        old(mesh).wf(),
        offset_in_range(*offset),
        quad_fits(old(mesh)@),
    ensures
        final(mesh)@ == with_quad(old(mesh)@, CubeFace::Floor, *offset, uv@),
        final(mesh).wf(),
        old(mesh)@.indices_in_range() ==> final(mesh)@.indices_in_range(),
{
    add_face(mesh, CubeFace::Floor, offset, uv);
}

/// Appends the face below the tile at `offset`, wound to be seen from below.
pub fn add_bottom(mesh: &mut TempMesh, offset: &Vec3i, uv: [Uv; 4])
    requires
        old(mesh).wf(),
        offset_in_range(*offset),
        quad_fits(old(mesh)@),
    ensures
        final(mesh)@ == with_quad(old(mesh)@, CubeFace::Bottom, *offset, uv@),
        final(mesh).wf(),
        old(mesh)@.indices_in_range() ==> final(mesh)@.indices_in_range(),
{
    add_face(mesh, CubeFace::Bottom, offset, uv);
}

/// Appends the face of the tile at `offset` that looks toward lower z.
pub fn add_front(mesh: &mut TempMesh, offset: &Vec3i, uv: [Uv; 4])
    requires
        old(mesh).wf(),
        offset_in_range(*offset),
        quad_fits(old(mesh)@),
    ensures
        final(mesh)@ == with_quad(old(mesh)@, CubeFace::Front, *offset, uv@),
        final(mesh).wf(),
        old(mesh)@.indices_in_range() ==> final(mesh)@.indices_in_range(),
{
    add_face(mesh, CubeFace::Front, offset, uv);
}

/// Appends the face of the tile at `offset` that looks toward higher z.
pub fn add_back(mesh: &mut TempMesh, offset: &Vec3i, uv: [Uv; 4])
    requires
        old(mesh).wf(),
        offset_in_range(*offset),
        quad_fits(old(mesh)@),
    ensures
        final(mesh)@ == with_quad(old(mesh)@, CubeFace::Back, *offset, uv@),
        final(mesh).wf(),
        old(mesh)@.indices_in_range() ==> final(mesh)@.indices_in_range(),
{
    add_face(mesh, CubeFace::Back, offset, uv);
}

/// Appends the face of the tile at `offset` that looks toward higher x.
pub fn add_right(mesh: &mut TempMesh, offset: &Vec3i, uv: [Uv; 4])
    requires
        old(mesh).wf(),
        offset_in_range(*offset),
        quad_fits(old(mesh)@),
    ensures
        final(mesh)@ == with_quad(old(mesh)@, CubeFace::Right, *offset, uv@),
        final(mesh).wf(),
        old(mesh)@.indices_in_range() ==> final(mesh)@.indices_in_range(),
{
    add_face(mesh, CubeFace::Right, offset, uv);
}

/// Appends the face of the tile at `offset` that looks toward lower x.
pub fn add_left(mesh: &mut TempMesh, offset: &Vec3i, uv: [Uv; 4])
    requires
        old(mesh).wf(),
        offset_in_range(*offset),
        quad_fits(old(mesh)@),
    ensures
        final(mesh)@ == with_quad(old(mesh)@, CubeFace::Left, *offset, uv@),
        final(mesh).wf(),
        old(mesh)@.indices_in_range() ==> final(mesh)@.indices_in_range(),
{
    add_face(mesh, CubeFace::Left, offset, uv);
}

} // verus!
