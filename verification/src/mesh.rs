//! Mesh surface layout: where each primitive's indices land inside the
//! mesh's single merged index buffer.
//!
//! Asset import hands over one index stream per primitive; the merged buffer
//! concatenates them, and each surface records its start offset and length.
//! Vertex indices of a primitive are rebased by the number of vertices
//! already merged.

use vstd::prelude::*;

verus! {

/// One drawable surface of a mesh: a range of the mesh's index buffer.
#[derive(Clone, Copy, Debug, PartialEq, Eq, Structural)]
pub struct GeoSurface {
    start_index: u32,
    count: u32,
}

impl GeoSurface {
    /// Offset of this surface's first index in the merged index buffer.
    pub closed spec fn spec_start_index(&self) -> u32 {
        self.start_index
    }

    /// Number of indices in this surface.
    pub closed spec fn spec_count(&self) -> u32 {
        self.count
    }

    pub fn new(start_index: u32, count: u32) -> (r: Self)
        ensures
            r.spec_start_index() == start_index,
            r.spec_count() == count,
    {
        Self { start_index, count }
    }

    pub fn start_index(&self) -> (r: u32)
        ensures
            r == self.spec_start_index(),
    {
        self.start_index
    }

    pub fn count(&self) -> (r: u32)
        ensures
            r == self.spec_count(),
    {
        self.count
    }
}

/// Total number of indices over the given per-primitive counts.
pub open spec fn index_total(counts: Seq<u32>) -> int
    decreases counts.len(),
{
    if counts.len() == 0 {
        0
    } else {
        index_total(counts.drop_last()) + counts.last()
    }
}

/// The total over one more primitive is the previous total plus its count.
pub proof fn lemma_index_total_take_succ(counts: Seq<u32>, i: int)
    requires
        0 <= i < counts.len(),
    ensures
        index_total(counts.take(i + 1)) == index_total(counts.take(i)) + counts[i],
{
    assert(counts.take(i + 1).drop_last() =~= counts.take(i));
    assert(counts.take(i + 1).last() == counts[i]);
}

/// A prefix never holds more indices than the whole stream.
pub proof fn lemma_index_total_take_le(counts: Seq<u32>, i: int)
    requires
        0 <= i <= counts.len(),
    ensures
        index_total(counts.take(i)) <= index_total(counts),
    decreases counts.len() - i,
{
    if i == counts.len() {
        assert(counts.take(i) =~= counts);
    } else {
        lemma_index_total_take_succ(counts, i);
        lemma_index_total_take_le(counts, i + 1);
    }
}

/// Lay the primitives' index ranges out back to back: surface `i` starts
/// where the first `i` primitives end and is as long as primitive `i`'s
/// index stream.
pub fn build_surfaces(prim_index_counts: &Vec<u32>) -> (r: Vec<GeoSurface>)
    requires
        index_total(prim_index_counts@) <= u32::MAX,
    ensures
        r@.len() == prim_index_counts@.len(),
        forall|i: int|
            0 <= i < r@.len() ==> (#[trigger] r@[i]).spec_start_index() == index_total(
                prim_index_counts@.take(i),
            ) && r@[i].spec_count() == prim_index_counts@[i],
{
    let mut surfaces: Vec<GeoSurface> = Vec::new();
    let mut total: u32 = 0;
    let mut i: usize = 0;
    while i < prim_index_counts.len()
        invariant
            i <= prim_index_counts@.len(),
            surfaces@.len() == i,
            index_total(prim_index_counts@) <= u32::MAX,
            total == index_total(prim_index_counts@.take(i as int)),
            forall|k: int|
                0 <= k < i as int ==> (#[trigger] surfaces@[k]).spec_start_index() == index_total(
                    prim_index_counts@.take(k),
                ) && surfaces@[k].spec_count() == prim_index_counts@[k],
        decreases prim_index_counts@.len() - i,
    {
        let c = prim_index_counts[i];
        surfaces.push(GeoSurface { start_index: total, count: c });
        proof {
            lemma_index_total_take_succ(prim_index_counts@, i as int);
            lemma_index_total_take_le(prim_index_counts@, i as int + 1);
        }
        total = total + c;
        i += 1;
    }
    surfaces
}

/// Layout of the one staging buffer an upload uses for both mesh buffers:
/// vertex bytes first, index bytes right after. Returns the staging buffer's
/// total size and the offset the index data is copied from.
pub fn staging_buffer_layout(vertex_buffer_size: u64, index_buffer_size: u64) -> (r: (u64, u64))
    requires
        vertex_buffer_size + index_buffer_size <= u64::MAX,
    ensures
        r.0 == vertex_buffer_size + index_buffer_size,
        r.1 == vertex_buffer_size,
{
    (vertex_buffer_size + index_buffer_size, vertex_buffer_size)
}

/// Rebase a primitive's vertex indices by the number of vertices already
/// merged into the mesh's vertex buffer.
pub fn rebase_indices(indices: &Vec<u32>, base: u32) -> (r: Vec<u32>)
    requires
        forall|i: int| 0 <= i < indices@.len() ==> base + #[trigger] indices@[i] <= u32::MAX,
    ensures
        r@.len() == indices@.len(),
        forall|i: int| 0 <= i < r@.len() ==> #[trigger] r@[i] == base + indices@[i],
{
    let mut rebased: Vec<u32> = Vec::new();
    let mut i: usize = 0;
    while i < indices.len()
        invariant
            i <= indices@.len(),
            rebased@.len() == i,
            forall|k: int| 0 <= k < indices@.len() ==> base + #[trigger] indices@[k] <= u32::MAX,
            forall|k: int| 0 <= k < i as int ==> #[trigger] rebased@[k] == base + indices@[k],
        decreases indices@.len() - i,
    {
        rebased.push(base + indices[i]);
        i += 1;
    }
    rebased
}

} // verus!
