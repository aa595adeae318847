//! Assembling one drawable mesh from the sub-meshes of a model file.
//!
//! A parsed model file is a list of sub-meshes, each with its own flat
//! position and texture-coordinate arrays and its own indices. Drawing
//! wants a single interleaved vertex array (`x y z u v` per vertex) and a
//! single index array. [`load_mesh`] builds both, shifting the indices of
//! each sub-mesh by the number of vertices that precede it, so that every
//! index keeps designating the vertex it designated in its sub-mesh.
//!
//! Nothing here computes with the scalars; they are only moved. The code
//! is therefore generic in the scalar type.

use vstd::prelude::*;

verus! {

/// Scalars per position.
pub const POSITION_SIZE: usize = 3;

/// Scalars per texture coordinate.
pub const TEXCOORD_SIZE: usize = 2;

/// Scalars per interleaved vertex.
pub const VERTEX_SIZE: usize = 5;

/// One sub-mesh as a model file's parser hands it out.
#[derive(Debug, PartialEq)]
pub struct SubMesh<T> {
    /// `x y z` of each vertex, one vertex after the other.
    pub positions: Vec<T>,
    /// `u v` of each vertex, one vertex after the other.
    pub texcoords: Vec<T>,
    /// Vertex numbers, three per triangle, counted within this sub-mesh.
    pub indices: Vec<u32>,
}

/// Why a list of sub-meshes could not be assembled.
#[derive(Clone, Copy, Debug, PartialEq, Eq)]
pub enum MeshError {
    /// The sub-mesh at this place in the list has fewer texture coordinates
    /// than vertices.
    MissingTexcoords { submesh: usize },
    /// An index of the sub-mesh at this place in the list, shifted by the
    /// number of vertices before it, does not fit in 32 bits.
    IndexOverflow { submesh: usize },
}

impl<T> SubMesh<T> {
    /// The number of whole vertices among the positions.
    pub open spec fn vertex_count(self) -> nat {
        self.positions@.len() / 3
    }

    /// Whether every vertex has its texture coordinate.
    pub open spec fn has_texcoords(self) -> bool {
        self.texcoords@.len() >= 2 * self.vertex_count()
    }

    /// The vertices of this sub-mesh, interleaved: scalar `c` of vertex `v`
    /// is a position component for `c < 3` and a texture coordinate
    /// component otherwise.
    pub open spec fn interleaved(self) -> Seq<T> {
        Seq::new(
            5 * self.vertex_count(),
            |k: int|
                if k % 5 < 3 {
                    self.positions@[3 * (k / 5) + k % 5]
                } else {
                    self.texcoords@[2 * (k / 5) + (k % 5 - 3)]
                },
        )
    }

    /// The indices of this sub-mesh, each shifted by `offset`.
    pub open spec fn shifted_indices(self, offset: nat) -> Seq<int> {
        Seq::new(self.indices@.len(), |j: int| offset + self.indices@[j])
    }

    /// Whether every index, shifted by `offset`, fits in 32 bits.
    pub open spec fn indices_fit(self, offset: nat) -> bool {
        forall|j: int| 0 <= j < self.indices@.len() ==> offset + #[trigger] self.indices@[j] <= u32::MAX
    }

    /// Whether every index designates a vertex of this sub-mesh.
    pub open spec fn indices_in_range(self) -> bool {
        forall|j: int| 0 <= j < self.indices@.len() ==> #[trigger] self.indices@[j] < self.vertex_count()
    }
}

/// The number of vertices in all of `meshes`.
pub open spec fn total_vertices<T>(meshes: Seq<SubMesh<T>>) -> nat
    decreases meshes.len(),
{
    if meshes.len() == 0 {
        0
    } else {
        total_vertices(meshes.drop_last()) + meshes.last().vertex_count()
    }
}

/// The number of indices in all of `meshes`.
pub open spec fn total_indices<T>(meshes: Seq<SubMesh<T>>) -> nat
    decreases meshes.len(),
{
    if meshes.len() == 0 {
        0
    } else {
        total_indices(meshes.drop_last()) + meshes.last().indices@.len()
    }
}

/// The interleaved vertices of all of `meshes`, one sub-mesh after the
/// other.
pub open spec fn flat_vertices<T>(meshes: Seq<SubMesh<T>>) -> Seq<T>
    decreases meshes.len(),
{
    if meshes.len() == 0 {
        Seq::empty()
    } else {
        flat_vertices(meshes.drop_last()) + meshes.last().interleaved()
    }
}

/// The indices of all of `meshes`, one sub-mesh after the other, those of
/// each sub-mesh shifted by the number of vertices before it.
pub open spec fn flat_indices<T>(meshes: Seq<SubMesh<T>>) -> Seq<int>
    decreases meshes.len(),
{
    if meshes.len() == 0 {
        Seq::empty()
    } else {
        flat_indices(meshes.drop_last()) + meshes.last().shifted_indices(
            total_vertices(meshes.drop_last()),
        )
    }
}

/// Whether the sub-mesh at place `k` can be assembled: it has its texture
/// coordinates, and its shifted indices fit in 32 bits.
pub open spec fn assembles<T>(meshes: Seq<SubMesh<T>>, k: int) -> bool {
    meshes[k].has_texcoords() && meshes[k].indices_fit(total_vertices(meshes.take(k)))
}

/// The numbers of a sequence of indices.
pub open spec fn index_values(indices: Seq<u32>) -> Seq<int> {
    indices.map_values(|x: u32| x as int)
}

/// Appends the interleaved vertices of `mesh` to `out`.
fn push_interleaved<T: Copy>(mesh: &SubMesh<T>, out: &mut Vec<T>)
    requires
        mesh.has_texcoords(),
    ensures
        final(out)@ == old(out)@ + mesh.interleaved(),
{
    let count: usize = mesh.positions.len() / POSITION_SIZE;
    let ghost before = out@;
    let mut v: usize = 0;
    while v < count
        invariant
            v <= count,
            count == mesh.vertex_count(),
            3 * count <= mesh.positions@.len() <= usize::MAX,
            2 * count <= mesh.texcoords@.len(),
            out@ == before + mesh.interleaved().take(5 * v),
        decreases count - v,
    {
        let ghost so_far = out@;
        out.push(mesh.positions[v * POSITION_SIZE]);
        out.push(mesh.positions[v * POSITION_SIZE + 1]);
        out.push(mesh.positions[v * POSITION_SIZE + 2]);
        out.push(mesh.texcoords[v * TEXCOORD_SIZE]);
        out.push(mesh.texcoords[v * TEXCOORD_SIZE + 1]);
        proof {
            let whole = mesh.interleaved();
            let block = whole.subrange(5 * v, 5 * v + 5);
            assert(whole.take(5 * v + 5) == whole.take(5 * v) + block);
            assert(out@ == so_far + block);
        }
        v += 1;
    }
    proof {
        assert(mesh.interleaved().take(5 * count) == mesh.interleaved());
    }
}

/// Appends the indices of `mesh`, each shifted by `offset`, to `out`, and
/// says whether all of them fit. Where one does not, `out` is left with
/// the indices before it appended.
fn push_shifted<T>(mesh: &SubMesh<T>, offset: usize, out: &mut Vec<u32>) -> (fit: bool)
    ensures
        fit == mesh.indices_fit(offset as nat),
        fit ==> index_values(final(out)@) == index_values(old(out)@) + mesh.shifted_indices(
            offset as nat,
        ),
{
    let ghost before = out@;
    let count: usize = mesh.indices.len();
    let mut j: usize = 0;
    while j < count
        invariant
            j <= count,
            count == mesh.indices@.len(),
            forall|i: int| 0 <= i < j ==> offset + #[trigger] mesh.indices@[i] <= u32::MAX,
            index_values(out@) == index_values(before) + mesh.shifted_indices(offset as nat).take(
                j as int,
            ),
        decreases count - j,
    {
        let index: u32 = mesh.indices[j];
        let room: u32 = u32::MAX - index;
        if offset > room as usize {
            return false;
        }
        let ghost so_far = out@;
        out.push(index + offset as u32);
        proof {
            let whole = mesh.shifted_indices(offset as nat);
            assert(whole.take(j + 1) == whole.take(j as int).push(whole[j as int]));
            assert(index_values(out@) == index_values(so_far).push(offset + index));
        }
        j += 1;
    }
    proof {
        let whole = mesh.shifted_indices(offset as nat);
        assert(whole.take(count as int) == whole);
    }
    true
}

/// Assembles the sub-meshes of a model into one vertex array and one index
/// array.
///
/// Succeeds exactly when every sub-mesh has a texture coordinate for each
/// of its vertices and every shifted index fits in 32 bits. Otherwise the
/// error names the first sub-mesh at fault, and says which of the two it
/// lacks; a sub-mesh that lacks both is reported for its texture
/// coordinates.
pub fn load_mesh<T: Copy>(models: &[SubMesh<T>]) -> (r: Result<(Vec<T>, Vec<u32>), MeshError>)
    ensures
        match r {
            Ok((vertices, indices)) => {
                &&& forall|k: int| 0 <= k < models@.len() ==> assembles(models@, k)
                &&& vertices@ == flat_vertices(models@)
                &&& indices@.len() == flat_indices(models@).len()
                &&& forall|i: int|
                    0 <= i < indices@.len() ==> #[trigger] indices@[i] == flat_indices(models@)[i]
            },
            Err(MeshError::MissingTexcoords { submesh }) => {
                &&& submesh < models@.len()
                &&& forall|k: int| 0 <= k < submesh ==> assembles(models@, k)
                &&& !models@[submesh as int].has_texcoords()
            },
            Err(MeshError::IndexOverflow { submesh }) => {
                &&& submesh < models@.len()
                &&& forall|k: int| 0 <= k < submesh ==> assembles(models@, k)
                &&& models@[submesh as int].has_texcoords()
                &&& !models@[submesh as int].indices_fit(
                    total_vertices(models@.take(submesh as int)),
                )
            },
        },
{
    let mut vertices: Vec<T> = Vec::new();
    let mut indices: Vec<u32> = Vec::new();
    let mut k: usize = 0;
    while k < models.len()
        invariant
            k <= models@.len(),
            forall|i: int| 0 <= i < k ==> assembles(models@, i),
            vertices@ == flat_vertices(models@.take(k as int)),
            index_values(indices@) == flat_indices(models@.take(k as int)),
        decreases models@.len() - k,
    {
        let mesh = &models[k];
        let ghost done = models@.take(k as int);
        let ghost next = models@.take(k + 1);
        proof {
            assert(next.drop_last() == done);
            assert(next.last() == models@[k as int]);
            lemma_vertex_array_length(done);
        }
        if mesh.texcoords.len() / TEXCOORD_SIZE < mesh.positions.len() / POSITION_SIZE {
            return Err(MeshError::MissingTexcoords { submesh: k });
        }
        let offset: usize = vertices.len() / VERTEX_SIZE;
        push_interleaved(mesh, &mut vertices);
        if !push_shifted(mesh, offset, &mut indices) {
            return Err(MeshError::IndexOverflow { submesh: k });
        }
        k += 1;
    }
    proof {
        assert(models@.take(k as int) == models@);
        assert(index_values(indices@).len() == indices@.len());
        assert forall|i: int| 0 <= i < indices@.len() implies #[trigger] indices@[i] == flat_indices(
            models@,
        )[i] by {
            assert(index_values(indices@)[i] == indices@[i]);
        }
    }
    Ok((vertices, indices))
}

/// The assembled vertex array holds five scalars for each vertex.
pub proof fn lemma_vertex_array_length<T>(meshes: Seq<SubMesh<T>>)
    ensures
        flat_vertices(meshes).len() == 5 * total_vertices(meshes),
    decreases meshes.len(),
{
    if meshes.len() > 0 {
        lemma_vertex_array_length(meshes.drop_last());
    }
}

/// The assembled index array holds every index of every sub-mesh.
pub proof fn lemma_index_array_length<T>(meshes: Seq<SubMesh<T>>)
    ensures
        flat_indices(meshes).len() == total_indices(meshes),
    decreases meshes.len(),
{
    if meshes.len() > 0 {
        lemma_index_array_length(meshes.drop_last());
    }
}

/// Where an index ends up: index `j` of the sub-mesh at place `k` stands
/// after all indices of the sub-meshes before it, and is shifted by the
/// number of their vertices.
pub proof fn lemma_flat_index_at<T>(meshes: Seq<SubMesh<T>>, k: int, j: int)
    requires
        0 <= k < meshes.len(),
        0 <= j < meshes[k].indices@.len(),
    ensures
        total_indices(meshes.take(k)) + j < flat_indices(meshes).len(),
        flat_indices(meshes)[total_indices(meshes.take(k)) + j] == total_vertices(meshes.take(k))
            + meshes[k].indices@[j],
    decreases meshes.len(),
{
    let shorter = meshes.drop_last();
    lemma_index_array_length(shorter);
    if k == meshes.len() - 1 {
        assert(meshes.take(k) == shorter);
    } else {
        lemma_flat_index_at(shorter, k, j);
        assert(shorter.take(k) == meshes.take(k));
    }
}

/// Where a vertex ends up: scalar `c` of vertex `v` of the sub-mesh at
/// place `k` stands in the record of vertex number `v` plus the number of
/// vertices before that sub-mesh, positions first, unchanged.
pub proof fn lemma_flat_vertex_at<T>(meshes: Seq<SubMesh<T>>, k: int, v: int, c: int)
    requires
        0 <= k < meshes.len(),
        0 <= v < meshes[k].vertex_count(),
        0 <= c < 5,
    ensures
        5 * (total_vertices(meshes.take(k)) + v) + c < flat_vertices(meshes).len(),
        flat_vertices(meshes)[5 * (total_vertices(meshes.take(k)) + v) + c] == (if c < 3 {
            meshes[k].positions@[3 * v + c]
        } else {
            meshes[k].texcoords@[2 * v + (c - 3)]
        }),
    decreases meshes.len(),
{
    let shorter = meshes.drop_last();
    lemma_vertex_array_length(shorter);
    if k == meshes.len() - 1 {
        assert(meshes.take(k) == shorter);
        let at = 5 * v + c;
        assert(at / 5 == v && at % 5 == c);
        assert(meshes[k].interleaved()[at] == (if c < 3 {
            meshes[k].positions@[3 * v + c]
        } else {
            meshes[k].texcoords@[2 * v + (c - 3)]
        }));
    } else {
        lemma_flat_vertex_at(shorter, k, v, c);
        assert(shorter.take(k) == meshes.take(k));
    }
}

/// Shifting keeps every index on its vertex: index `j` of the sub-mesh at
/// place `k`, if it designates a vertex of that sub-mesh, designates after
/// assembly a record that holds that vertex's position and texture
/// coordinate.
pub proof fn lemma_index_keeps_its_vertex<T>(meshes: Seq<SubMesh<T>>, k: int, j: int, c: int)
    requires
        0 <= k < meshes.len(),
        0 <= j < meshes[k].indices@.len(),
        meshes[k].indices@[j] < meshes[k].vertex_count(),
        0 <= c < 5,
    ensures
        ({
            let local = meshes[k].indices@[j] as int;
            let global = flat_indices(meshes)[total_indices(meshes.take(k)) + j];
            &&& 0 <= global < total_vertices(meshes)
            &&& flat_vertices(meshes)[5 * global + c] == (if c < 3 {
                meshes[k].positions@[3 * local + c]
            } else {
                meshes[k].texcoords@[2 * local + (c - 3)]
            })
        }),
{
    lemma_flat_index_at(meshes, k, j);
    lemma_flat_vertex_at(meshes, k, meshes[k].indices@[j] as int, c);
    lemma_vertex_array_length(meshes);
}

/// The invariant that drawing relies on: if every index of every sub-mesh
/// designates a vertex of its sub-mesh, every assembled index designates a
/// vertex of the assembled array.
pub proof fn lemma_indices_stay_in_range<T>(meshes: Seq<SubMesh<T>>)
    requires
        forall|k: int| 0 <= k < meshes.len() ==> (#[trigger] meshes[k]).indices_in_range(),
    ensures
        forall|i: int|
            0 <= i < flat_indices(meshes).len() ==> 0 <= #[trigger] flat_indices(meshes)[i]
                < total_vertices(meshes),
    decreases meshes.len(),
{
    if meshes.len() > 0 {
        let shorter = meshes.drop_last();
        assert forall|k: int| 0 <= k < shorter.len() implies (#[trigger] shorter[k]).indices_in_range() by {
            assert(shorter[k] == meshes[k]);
        }
        lemma_indices_stay_in_range(shorter);
        let last = meshes.last();
        assert(last == meshes[meshes.len() - 1]);
        let offset = total_vertices(shorter);
        assert forall|i: int| 0 <= i < flat_indices(meshes).len() implies 0 <= #[trigger] flat_indices(
            meshes,
        )[i] < total_vertices(meshes) by {
            let head = flat_indices(shorter);
            if i >= head.len() {
                let j = i - head.len();
                assert(flat_indices(meshes)[i] == offset + last.indices@[j]);
                assert(last.indices@[j] < last.vertex_count());
            } else {
                assert(flat_indices(meshes)[i] == head[i]);
            }
        }
    }
}

/// A model of a single sub-mesh keeps its indices as they are, and its
/// vertex array is that sub-mesh interleaved.
pub proof fn lemma_single_submesh<T>(meshes: Seq<SubMesh<T>>)
    requires
        meshes.len() == 1,
    ensures
        flat_vertices(meshes) == meshes[0].interleaved(),
        flat_indices(meshes) == index_values(meshes[0].indices@),
        flat_vertices(meshes).len() == 5 * (meshes[0].positions@.len() / 3),
{
    let none = meshes.drop_last();
    assert(none.len() == 0);
    assert(flat_vertices(none) == Seq::<T>::empty());
    assert(flat_indices(none) == Seq::<int>::empty());
    assert(total_vertices(none) == 0);
    assert(meshes.last() == meshes[0]);
    assert(flat_vertices(meshes) == meshes[0].interleaved());
    assert(meshes[0].shifted_indices(0) == index_values(meshes[0].indices@));
    assert(flat_indices(meshes) == index_values(meshes[0].indices@));
}

} // verus!
