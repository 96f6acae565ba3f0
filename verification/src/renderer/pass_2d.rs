use crate::renderer::texture;
use vstd::prelude::*;

verus! {

/// Vertices waiting to be drawn with one texture.
pub struct PendingBatch<V> {
    pub vertices: Vec<V>,
    pub texture_id: texture::Id,
}

impl<V> PendingBatch<V> {
    /// An empty batch for `texture_id`.
    pub fn new(texture_id: texture::Id) -> (b: Self)
        ensures
            b.vertices@ == Seq::<V>::empty(),
            b.texture_id == texture_id,
    {
        Self { vertices: Vec::new(), texture_id }
    }
}

/// Adds the vertices of a quad drawn with `texture_id`: to the last batch when it has that
/// texture, otherwise to a new batch after the others.
pub fn queue_quad<V: Copy>(pending: &mut Vec<PendingBatch<V>>, texture_id: texture::Id, quad: [V; 6])
    ensures
        old(pending)@.len() > 0 && old(pending)@.last().texture_id == texture_id ==> {
            &&& final(pending)@.len() == old(pending)@.len()
            &&& final(pending)@.take(old(pending)@.len() - 1) == old(pending)@.take(old(pending)@.len() - 1)
            &&& final(pending)@.last().texture_id == texture_id
            &&& final(pending)@.last().vertices@ == old(pending)@.last().vertices@ + quad@
        },
        !(old(pending)@.len() > 0 && old(pending)@.last().texture_id == texture_id) ==> {
            &&& final(pending)@.len() == old(pending)@.len() + 1
            &&& final(pending)@.take(old(pending)@.len() as int) == old(pending)@
            &&& final(pending)@.last().texture_id == texture_id
            &&& final(pending)@.last().vertices@ == quad@
        },
{
    let n = pending.len();
    if n == 0 || pending[n - 1].texture_id != texture_id {
        pending.push(PendingBatch::new(texture_id));
    }
    let m = pending.len();
    let ghost before = pending@;
    let mut i: usize = 0;
    while i < 6
        invariant
            m == pending@.len(),
            m > 0,
            pending@.take(m - 1) == before.take(m - 1),
            pending@.last().texture_id == before.last().texture_id,
            pending@.last().vertices@ == before.last().vertices@ + quad@.take(i as int),
            i <= 6,
        decreases 6 - i,
    {
        pending[m - 1].vertices.push(quad[i]);
        proof {
            assert(pending@.take(m - 1) =~= before.take(m - 1));
            assert(quad@.take(i + 1) =~= quad@.take(i as int).push(quad@[i as int]));
        }
        i = i + 1;
    }
    proof {
        assert(quad@.take(6) =~= quad@);
        if n == 0 || old(pending)@.last().texture_id != texture_id {
            assert(pending@.take(n as int) =~= old(pending)@);
        } else {
            assert(pending@.take(n - 1) =~= old(pending)@.take(n - 1));
        }
    }
}

/// Where a batch's vertices lie in the vertex buffer, and the texture to draw them with.
#[derive(Clone, Copy)]
pub struct BatchMetadata {
    pub start_vertex_index: u32,
    pub end_vertex_index: u32,
    pub texture_id: texture::Id,
}

/// Number of vertices in the first `k` batches.
pub open spec fn vertices_before<V>(pending: Seq<PendingBatch<V>>, k: int) -> int
    decreases k,
{
    if k <= 0 {
        0
    } else {
        vertices_before(pending, k - 1) + pending[k - 1].vertices@.len()
    }
}

proof fn lemma_vertices_before_monotonic<V>(pending: Seq<PendingBatch<V>>, j: int, k: int)
    requires
        0 <= j <= k <= pending.len(),
    ensures
        vertices_before(pending, j) <= vertices_before(pending, k),
    decreases k - j,
{
    if j < k {
        lemma_vertices_before_monotonic(pending, j, k - 1);
    }
}

/// The vertex ranges of the batches written one after the other into the vertex buffer:
/// batch `i` covers the vertices from the total of the batches before it to that total plus
/// its own.
pub fn batches_metadata<V>(pending: &Vec<PendingBatch<V>>) -> (metadata: Vec<BatchMetadata>)
    requires
        vertices_before(pending@, pending@.len() as int) <= u32::MAX,
    ensures
        metadata@.len() == pending@.len(),
        forall|i: int|
            0 <= i < metadata@.len() ==> {
                &&& #[trigger] metadata@[i].start_vertex_index == vertices_before(pending@, i)
                &&& metadata@[i].end_vertex_index == vertices_before(pending@, i + 1)
                &&& metadata@[i].texture_id == pending@[i].texture_id
            },
{
    let mut metadata: Vec<BatchMetadata> = Vec::new();
    let mut vertex_count: u32 = 0;
    let mut i: usize = 0;
    while i < pending.len()
        invariant
            i <= pending@.len(),
            metadata@.len() == i,
            vertex_count == vertices_before(pending@, i as int),
            vertices_before(pending@, pending@.len() as int) <= u32::MAX,
            forall|k: int|
                0 <= k < i ==> {
                    &&& #[trigger] metadata@[k].start_vertex_index == vertices_before(pending@, k)
                    &&& metadata@[k].end_vertex_index == vertices_before(pending@, k + 1)
                    &&& metadata@[k].texture_id == pending@[k].texture_id
                },
        decreases pending@.len() - i,
    {
        proof {
            lemma_vertices_before_monotonic(pending@, i + 1, pending@.len() as int);
        }
        let start_vertex_index = vertex_count;
        vertex_count = vertex_count + pending[i].vertices.len() as u32;
        metadata.push(BatchMetadata { start_vertex_index, end_vertex_index: vertex_count, texture_id: pending[i].texture_id });
        i = i + 1;
    }
    metadata
}

} // verus!
