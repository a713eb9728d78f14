//! Meshes as they come out of an asset file, merged into one index list
//! and one vertex list per mesh.

use crate::vk_types::gpu_mesh_buffers::GPUMeshBuffers;
use vstd::prelude::*;

verus! {

/// A run of indices of a mesh that is drawn in one call.
#[derive(Clone, Copy, Debug, PartialEq, Eq, Structural)]
pub struct GeoSurface {
    pub start_index: u32,
    pub count: u32,
}

impl Default for GeoSurface {
    fn default() -> (s: GeoSurface)
        ensures
            s == (GeoSurface { start_index: 0, count: 0 }),
    {
        GeoSurface { start_index: 0, count: 0 }
    }
}

/// A mesh on the device, with the surfaces it is drawn in.
#[derive(Debug)]
pub struct MeshAsset {
    pub name: String,
    pub surfaces: Vec<GeoSurface>,
    pub mesh_buffers: GPUMeshBuffers,
}

/// One primitive of a mesh as read from the asset: its indices, counted
/// from its own first vertex, and the number of its vertices.
#[derive(Clone, Debug, PartialEq, Eq)]
pub struct PrimitiveData {
    pub indices: Vec<u32>,
    pub vertex_count: usize,
}

/// The primitives of one mesh merged: one index list over one vertex list,
/// and one surface per primitive.
#[derive(Clone, Debug, PartialEq, Eq)]
pub struct MeshGeometry {
    pub indices: Vec<u32>,
    pub surfaces: Vec<GeoSurface>,
    pub vertex_count: usize,
}

/// Indices of all `primitives` together.
pub open spec fn total_indices(primitives: Seq<PrimitiveData>) -> int
    decreases primitives.len(),
{
    if primitives.len() == 0 {
        0
    } else {
        total_indices(primitives.drop_last()) + primitives.last().indices@.len()
    }
}

/// Vertices of all `primitives` together.
pub open spec fn total_vertices(primitives: Seq<PrimitiveData>) -> int
    decreases primitives.len(),
{
    if primitives.len() == 0 {
        0
    } else {
        total_vertices(primitives.drop_last()) + primitives.last().vertex_count
    }
}

/// The indices of a primitive, each moved up by `base`.
pub open spec fn shifted(indices: Seq<u32>, base: int) -> Seq<int> {
    Seq::new(indices.len(), |j: int| indices[j] + base)
}

/// The index list of the merged mesh: the indices of each primitive in
/// turn, counted from the first vertex of the mesh.
pub open spec fn merged_indices(primitives: Seq<PrimitiveData>) -> Seq<int>
    decreases primitives.len(),
{
    if primitives.len() == 0 {
        Seq::empty()
    } else {
        merged_indices(primitives.drop_last()) + shifted(
            primitives.last().indices@,
            total_vertices(primitives.drop_last()),
        )
    }
}

/// Whether the merged mesh can be written with 32-bit indices: every
/// surface starts and ends within 32 bits, and so does every index once it
/// counts from the first vertex of the mesh.
pub open spec fn mergeable(primitives: Seq<PrimitiveData>) -> bool
    decreases primitives.len(),
{
    if primitives.len() == 0 {
        true
    } else {
        let before = primitives.drop_last();
        let last = primitives.last();
        &&& mergeable(before)
        &&& total_indices(primitives) <= u32::MAX
        &&& total_vertices(primitives) <= usize::MAX
        &&& forall|j: int|
            0 <= j < last.indices@.len() ==> #[trigger] last.indices@[j] + total_vertices(before)
                <= u32::MAX
    }
}

/// Whether `g` is the merge of `primitives`.
pub open spec fn is_merge_of(g: MeshGeometry, primitives: Seq<PrimitiveData>) -> bool {
    &&& g.vertex_count == total_vertices(primitives)
    &&& g.indices@.len() == total_indices(primitives)
    &&& g.indices@.map_values(|x: u32| x as int) =~= merged_indices(primitives)
    &&& g.surfaces@.len() == primitives.len()
    &&& forall|k: int|
        0 <= k < primitives.len() ==> (#[trigger] g.surfaces@[k]).start_index == total_indices(
            primitives.take(k),
        ) && g.surfaces@[k].count == primitives[k].indices@.len()
}

proof fn lemma_mergeable_prefix(primitives: Seq<PrimitiveData>, k: int)
    requires
        0 <= k <= primitives.len(),
        mergeable(primitives),
    ensures
        mergeable(primitives.take(k)),
    decreases primitives.len(),
{
    if k == primitives.len() {
        assert(primitives.take(k) =~= primitives);
    } else {
        lemma_mergeable_prefix(primitives.drop_last(), k);
        assert(primitives.drop_last().take(k) =~= primitives.take(k));
    }
}

/// Merges the primitives of one mesh. Each primitive becomes one surface
/// that starts where the indices of the primitives before it end; its
/// indices are moved up by the number of vertices before it.
///
/// Returns `None` exactly when the merged mesh cannot be written with
/// 32-bit indices.
pub fn merge_primitives(primitives: &Vec<PrimitiveData>) -> (merged: Option<MeshGeometry>)
    ensures
        merged is Some <==> mergeable(primitives@),
        merged is Some ==> is_merge_of(merged->Some_0, primitives@),
{
    let mut indices: Vec<u32> = Vec::new();
    let mut surfaces: Vec<GeoSurface> = Vec::new();
    let mut vertex_count: usize = 0;
    let mut k: usize = 0;
    proof {
        assert(primitives@.take(0).len() == 0);
        assert(indices@.map_values(|x: u32| x as int) =~= merged_indices(primitives@.take(0)));
    }
    while k < primitives.len()
        invariant
            k <= primitives@.len(),
            mergeable(primitives@.take(k as int)),
            is_merge_of(MeshGeometry { indices, surfaces, vertex_count }, primitives@.take(k as int)),
        decreases primitives@.len() - k,
    {
        let ghost before = primitives@.take(k as int);
        let ghost upto = primitives@.take(k + 1);
        proof {
            assert(upto.drop_last() =~= before);
            assert(upto.last() == primitives@[k as int]);
            if mergeable(primitives@) {
                lemma_mergeable_prefix(primitives@, k + 1);
            }
        }
        let primitive = &primitives[k];
        let count = primitive.indices.len();
        if indices.len() > 0xFFFF_FFFF || count > 0xFFFF_FFFF - indices.len() {
            assert(!mergeable(upto));
            return None;
        }
        if primitive.vertex_count > usize::MAX - vertex_count {
            assert(!mergeable(upto));
            return None;
        }
        let new_surface = GeoSurface { start_index: indices.len() as u32, count: count as u32 };
        let ghost old_indices = indices@;
        let mut j: usize = 0;
        while j < count
            invariant
                j <= count,
                k < primitives@.len(),
                count == primitive.indices@.len(),
                *primitive == primitives@[k as int],
                upto.len() == k + 1,
                upto.last() == primitives@[k as int],
                upto.drop_last() == before,
                mergeable(primitives@) ==> mergeable(upto),
                vertex_count == total_vertices(before),
                indices@.len() == old_indices.len() + j,
                indices@.take(old_indices.len() as int) =~= old_indices,
                forall|i: int|
                    0 <= i < j ==> #[trigger] indices@[old_indices.len() + i]
                        == primitive.indices@[i] + vertex_count,
            decreases count - j,
        {
            let index = primitive.indices[j];
            if vertex_count > 0xFFFF_FFFF || index > 0xFFFF_FFFF - (vertex_count as u32) {
                proof {
                    let last = upto.last();
                    assert(last.indices@[j as int] + total_vertices(upto.drop_last()) > u32::MAX);
                    assert(!mergeable(upto));
                }
                return None;
            }
            indices.push(index + (vertex_count as u32));
            j += 1;
        }
        surfaces.push(new_surface);
        let ghost base = vertex_count as int;
        vertex_count = vertex_count + primitive.vertex_count;
        proof {
            let g = MeshGeometry { indices, surfaces, vertex_count };
            let mapped = g.indices@.map_values(|x: u32| x as int);
            let tail = shifted(upto.last().indices@, total_vertices(upto.drop_last()));
            assert(merged_indices(before) == old_indices.map_values(|x: u32| x as int));
            assert(merged_indices(upto) == merged_indices(before) + tail);
            assert(mapped.len() == merged_indices(upto).len());
            assert forall|i: int| 0 <= i < mapped.len() implies mapped[i] == merged_indices(
                upto,
            )[i] by {
                if i < old_indices.len() {
                    assert(indices@.take(old_indices.len() as int)[i] == old_indices[i]);
                } else {
                    let d = i - old_indices.len();
                    assert(indices@[old_indices.len() + d] == primitive.indices@[d] + base);
                }
            }
            assert(mapped =~= merged_indices(upto));
            assert forall|m: int| 0 <= m < upto.len() implies (#[trigger] g.surfaces@[m]).start_index
                == total_indices(upto.take(m)) && g.surfaces@[m].count == upto[m].indices@.len() by {
                if m < k {
                    assert(upto.take(m) =~= before.take(m));
                    assert(upto[m] == before[m]);
                } else {
                    assert(upto.take(m) =~= before);
                }
            }
            assert forall|i: int| 0 <= i < upto.last().indices@.len() implies
                #[trigger] upto.last().indices@[i] + total_vertices(upto.drop_last()) <= u32::MAX by {
                assert(indices@[old_indices.len() + i] == primitive.indices@[i] + base);
            }
            assert(mergeable(upto));
        }
        k += 1;
    }
    proof {
        assert(primitives@.take(k as int) =~= primitives@);
    }
    Some(MeshGeometry { indices, surfaces, vertex_count })
}

/// Merges the primitives of every mesh of an asset, mesh by mesh.
///
/// Returns `None` exactly when a mesh of the asset cannot be written with
/// 32-bit indices.
pub fn load_gltf_meshes(meshes: &Vec<Vec<PrimitiveData>>) -> (loaded: Option<Vec<MeshGeometry>>)
    ensures
        loaded is Some <==> forall|m: int|
            0 <= m < meshes@.len() ==> mergeable((#[trigger] meshes@[m])@),
        loaded is Some ==> loaded->Some_0@.len() == meshes@.len() && forall|m: int|
            0 <= m < meshes@.len() ==> is_merge_of(
                #[trigger] loaded->Some_0@[m],
                meshes@[m]@,
            ),
{
    let mut loaded: Vec<MeshGeometry> = Vec::new();
    let mut m: usize = 0;
    while m < meshes.len()
        invariant
            m <= meshes@.len(),
            loaded@.len() == m,
            forall|j: int| 0 <= j < m ==> mergeable((#[trigger] meshes@[j])@),
            forall|j: int| 0 <= j < m ==> is_merge_of(#[trigger] loaded@[j], meshes@[j]@),
        decreases meshes@.len() - m,
    {
        match merge_primitives(&meshes[m]) {
            Some(geometry) => {
                loaded.push(geometry);
            },
            None => {
                return None;
            },
        }
        m += 1;
    }
    Some(loaded)
}

} // verus!
