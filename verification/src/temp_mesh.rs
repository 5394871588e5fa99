//! The append-only geometry buffer that a meshing pass fills, and the
//! finished mesh it turns into.

use vstd::prelude::*;
use crate::vector::{Uv, Vec3i};

verus! {

/// What a mesh holds: one texture coordinate, normal and position per vertex,
/// and a list of vertex indices, three per triangle.
pub struct MeshView {
    pub uv: Seq<Uv>,
    pub normals: Seq<Vec3i>,
    pub positions: Seq<Vec3i>,
    pub indices: Seq<u32>,
}

/// `indices`, each moved up by `by`.
pub open spec fn shift_indices(indices: Seq<u32>, by: nat) -> Seq<u32> {
    Seq::new(indices.len(), |i: int| (indices[i] + by) as u32)
}

impl MeshView {
    /// The mesh without any vertex.
    pub open spec fn empty() -> MeshView {
        MeshView { uv: Seq::empty(), normals: Seq::empty(), positions: Seq::empty(), indices: Seq::empty() }
    }

    /// Number of vertices.
    pub open spec fn vertex_count(self) -> nat {
        self.positions.len()
    }

    /// The three per-vertex arrays have one length.
    pub open spec fn aligned(self) -> bool {
        self.uv.len() == self.positions.len() && self.normals.len() == self.positions.len()
    }

    /// Every index names a vertex of this mesh.
    pub open spec fn indices_in_range(self) -> bool {
        forall|i: int| 0 <= i < self.indices.len() ==> (#[trigger] self.indices[i]) < self.positions.len()
    }

    /// This mesh followed by another batch of vertices, whose indices count
    /// from the batch's own first vertex.
    pub open spec fn extended(
        self,
        uv: Seq<Uv>,
        normals: Seq<Vec3i>,
        positions: Seq<Vec3i>,
        indices: Seq<u32>,
    ) -> MeshView {
        MeshView {
            uv: self.uv + uv,
            normals: self.normals + normals,
            positions: self.positions + positions,
            indices: self.indices + shift_indices(indices, self.positions.len()),
        }
    }
}

/// Whether the per-vertex arrays of a batch agree in length.
pub open spec fn batch_aligned(uv: Seq<Uv>, normals: Seq<Vec3i>, positions: Seq<Vec3i>) -> bool {
    uv.len() == normals.len() && uv.len() == positions.len()
}

/// Whether every index of a batch, moved up by `vertex_count`, still fits the
/// index type.
pub open spec fn batch_indices_fit(vertex_count: nat, indices: Seq<u32>) -> bool {
    forall|i: int| 0 <= i < indices.len() ==> vertex_count + (#[trigger] indices[i]) <= u32::MAX
}

/// Why a batch was not appended.
#[derive(Debug, Clone, Copy, PartialEq, Eq, Structural)]
pub enum ExtendError {
    /// The per-vertex arrays of the batch differ in length.
    LengthMismatch,
    /// An index of the batch cannot be moved up without leaving `u32`.
    IndexOverflow,
}

/// Geometry under construction.
pub struct TempMesh {
    uv: Vec<Uv>,
    normals: Vec<Vec3i>,
    vertices: Vec<Vec3i>,
    indices: Vec<u32>,
}

impl View for TempMesh {
    type V = MeshView;

    closed spec fn view(&self) -> MeshView {
        MeshView { uv: self.uv@, normals: self.normals@, positions: self.vertices@, indices: self.indices@ }
    }
}

impl TempMesh {
    /// The per-vertex arrays have one length. Holds of every buffer that
    /// `new` made and `extend` filled.
    pub open spec fn wf(&self) -> bool {
        self@.aligned()
    }

    /// An empty buffer.
    pub fn new() -> (mesh: Self)
        ensures
            mesh@ == MeshView::empty(),
            mesh.wf(),
    {
        TempMesh { uv: Vec::new(), normals: Vec::new(), vertices: Vec::new(), indices: Vec::new() }
    }

    /// Number of vertices appended so far.
    pub fn vertex_count(&self) -> (n: usize)
        ensures
            n == self@.vertex_count(),
    {
        self.vertices.len()
    }

    /// Number of indices appended so far.
    pub fn index_count(&self) -> (n: usize)
        ensures
            n == self@.indices.len(),
    {
        self.indices.len()
    }

    /// Appends a batch of vertices and the triangles over them. The batch's
    /// indices count from its own first vertex; they are stored moved up by
    /// the number of vertices already present.
    pub fn extend(&mut self, uv: &[Uv], normals: &[Vec3i], vertices: &[Vec3i], indices: &[u32])
        requires
            old(self).wf(),
            batch_aligned(uv@, normals@, vertices@),
            batch_indices_fit(old(self)@.vertex_count(), indices@),
        ensures
            final(self)@ == old(self)@.extended(uv@, normals@, vertices@, indices@),
            final(self).wf(),
            old(self)@.indices_in_range() && (forall|i: int|
                0 <= i < indices@.len() ==> (#[trigger] indices@[i]) < vertices@.len())
                ==> final(self)@.indices_in_range(),
    {
        let old_length: usize = self.vertices.len();
        let count: usize = uv.len();
        let mut i: usize = 0;
        while i < count
            invariant
                i <= count,
                count == uv@.len(),
                count == normals@.len(),
                count == vertices@.len(),
                self.indices@ == old(self).indices@,
                self.uv@ == old(self).uv@ + uv@.take(i as int),
                self.normals@ == old(self).normals@ + normals@.take(i as int),
                self.vertices@ == old(self).vertices@ + vertices@.take(i as int),
            decreases count - i,
        {
            self.uv.push(uv[i]);
            self.normals.push(normals[i]);
            self.vertices.push(vertices[i]);
            proof {
                assert(uv@.take(i + 1) == uv@.take(i as int).push(uv@[i as int]));
                assert(normals@.take(i + 1) == normals@.take(i as int).push(normals@[i as int]));
                assert(vertices@.take(i + 1) == vertices@.take(i as int).push(vertices@[i as int]));
            }
            i += 1;
        }
        proof {
            assert(uv@.take(count as int) == uv@);
            assert(normals@.take(count as int) == normals@);
            assert(vertices@.take(count as int) == vertices@);
        }
        let index_count: usize = indices.len();
        let ghost shifted = shift_indices(indices@, old_length as nat);
        let mut k: usize = 0;
        while k < index_count
            invariant
                k <= index_count,
                index_count == indices@.len(),
                old_length == old(self).vertices@.len(),
                batch_indices_fit(old_length as nat, indices@),
                shifted == shift_indices(indices@, old_length as nat),
                self.uv@ == old(self).uv@ + uv@,
                self.normals@ == old(self).normals@ + normals@,
                self.vertices@ == old(self).vertices@ + vertices@,
                self.indices@ == old(self).indices@ + shifted.take(k as int),
            decreases index_count - k,
        {
            let index: u32 = indices[k];
            assert(old_length + indices@[k as int] <= u32::MAX);
            let moved: u32 = index + (old_length as u32);
            self.indices.push(moved);
            proof {
                assert(shifted.take(k + 1) == shifted.take(k as int).push(shifted[k as int]));
            }
            k += 1;
        }
        proof {
            assert(shifted.take(index_count as int) == shifted);
            if old(self)@.indices_in_range() && (forall|i: int|
                0 <= i < indices@.len() ==> (#[trigger] indices@[i]) < vertices@.len()) {
                assert forall|i: int| 0 <= i < self@.indices.len() implies (#[trigger] self@.indices[i])
                    < self@.positions.len() by {
                    let before = old(self)@.indices.len() as int;
                    if i < before {
                        assert(self@.indices[i] == old(self)@.indices[i]);
                    } else {
                        assert(self@.indices[i] == shifted[i - before]);
                        assert(indices@[i - before] < vertices@.len());
                    }
                }
            }
        }
    }

    /// Appends the batch if `extend` accepts it, and says why not otherwise.
    pub fn try_extend(
        &mut self,
        uv: &[Uv],
        normals: &[Vec3i],
        vertices: &[Vec3i],
        indices: &[u32],
    ) -> (outcome: Result<(), ExtendError>)
        requires
            old(self).wf(),
        ensures
            final(self).wf(),
            outcome is Ok <==> batch_aligned(uv@, normals@, vertices@) && batch_indices_fit(
                old(self)@.vertex_count(),
                indices@,
            ),
            outcome is Ok ==> final(self)@ == old(self)@.extended(uv@, normals@, vertices@, indices@),
            outcome is Err ==> final(self)@ == old(self)@,
            outcome == Err::<(), ExtendError>(ExtendError::LengthMismatch) <==> !batch_aligned(
                uv@,
                normals@,
                vertices@,
            ),
            outcome == Err::<(), ExtendError>(ExtendError::IndexOverflow) <==> batch_aligned(
                uv@,
                normals@,
                vertices@,
            ) && !batch_indices_fit(old(self)@.vertex_count(), indices@),
    {
        if uv.len() != normals.len() || uv.len() != vertices.len() {
            return Err(ExtendError::LengthMismatch);
        }
        let old_length: usize = self.vertices.len();
        let index_count: usize = indices.len();
        let mut k: usize = 0;
        while k < index_count
            invariant
                k <= index_count,
                index_count == indices@.len(),
                old_length == self@.vertex_count(),
                self@ == old(self)@,
                self.wf(),
                batch_aligned(uv@, normals@, vertices@),
                forall|i: int| 0 <= i < k ==> old_length + (#[trigger] indices@[i]) <= u32::MAX,
            decreases index_count - k,
        {
            let index: u32 = indices[k];
            if old_length > 0xffff_ffff || index > 0xffff_ffff - (old_length as u32) {
                assert(!(old_length + indices@[k as int] <= u32::MAX));
                return Err(ExtendError::IndexOverflow);
            }
            k += 1;
        }
        self.extend(uv, normals, vertices, indices);
        Ok(())
    }

    /// Ends construction: the finished mesh holds exactly what was appended.
    pub fn into_mesh(self) -> (mesh: TriangleMesh)
        ensures
            mesh@ == self@,
    {
        TriangleMesh { uv: self.uv, normals: self.normals, positions: self.vertices, indices: self.indices }
    }
}

/// A finished triangle-list mesh. It offers no way to change it.
pub struct TriangleMesh {
    uv: Vec<Uv>,
    normals: Vec<Vec3i>,
    positions: Vec<Vec3i>,
    indices: Vec<u32>,
}

impl View for TriangleMesh {
    type V = MeshView;

    closed spec fn view(&self) -> MeshView {
        MeshView { uv: self.uv@, normals: self.normals@, positions: self.positions@, indices: self.indices@ }
    }
}

impl TriangleMesh {
    /// Texture coordinates, one per vertex.
    pub fn uv(&self) -> (uv: &Vec<Uv>)
        ensures
            uv@ == self@.uv,
    {
        &self.uv
    }

    /// Normals, one per vertex.
    pub fn normals(&self) -> (normals: &Vec<Vec3i>)
        ensures
            normals@ == self@.normals,
    {
        &self.normals
    }

    /// Vertex positions in half tiles.
    pub fn positions(&self) -> (positions: &Vec<Vec3i>)
        ensures
            positions@ == self@.positions,
    {
        &self.positions
    }

    /// Vertex indices, three per triangle.
    pub fn indices(&self) -> (indices: &Vec<u32>)
        ensures
            indices@ == self@.indices,
    {
        &self.indices
    }
}

} // verus!
