use crate::renderer::texture;
use vstd::prelude::*;

verus! {

/// A run of vertices drawn with one texture: from `start_vertex_offset` up to, not
/// including, `end_vertex_offset`.
#[derive(Clone, Copy)]
pub struct QuadBatch {
    start_vertex_offset: u32,
    end_vertex_offset: u32,
    texture_id: texture::Id,
}

impl QuadBatch {
    pub closed spec fn spec_start(&self) -> u32 {
        self.start_vertex_offset
    }

    pub closed spec fn spec_end(&self) -> u32 {
        self.end_vertex_offset
    }

    pub closed spec fn spec_texture(&self) -> texture::Id {
        self.texture_id
    }

    /// An empty batch starting at `start_vertex_offset`.
    pub fn new(start_vertex_offset: u32, texture: texture::Id) -> (b: Self)
        ensures
            b.spec_start() == start_vertex_offset,
            b.spec_end() == start_vertex_offset,
            b.spec_texture() == texture,
    {
        Self { start_vertex_offset, end_vertex_offset: start_vertex_offset, texture_id: texture }
    }

    pub fn start_vertex_offset(&self) -> (s: u32)
        ensures
            s == self.spec_start(),
    {
        self.start_vertex_offset
    }

    pub fn end_vertex_offset(&self) -> (e: u32)
        ensures
            e == self.spec_end(),
    {
        self.end_vertex_offset
    }

    pub fn texture_id(&self) -> (t: texture::Id)
        ensures
            t == self.spec_texture(),
    {
        self.texture_id
    }
}

/// The vertex offset after the last batch: where the next quad goes.
pub open spec fn batches_end(batches: Seq<QuadBatch>) -> u32 {
    if batches.len() == 0 {
        0
    } else {
        batches.last().spec_end()
    }
}

/// Whether the batches cover the vertices from 0 on without gap or overlap, in order.
pub open spec fn batches_contiguous(batches: Seq<QuadBatch>) -> bool {
    &&& batches.len() > 0 ==> batches[0].spec_start() == 0
    &&& forall|i: int| 0 <= i < batches.len() ==> #[trigger] batches[i].spec_start() <= batches[i].spec_end()
    &&& forall|i: int| 0 <= i < batches.len() - 1 ==> #[trigger] batches[i].spec_end() == batches[i + 1].spec_start()
}

/// Whether `after` is `before` with a quad of `texture_id` added at vertex `offset`: the last
/// batch grown by six vertices when it has that texture, otherwise a new batch of six
/// vertices with that texture after the others.
pub open spec fn quad_pushed(before: Seq<QuadBatch>, after: Seq<QuadBatch>, texture_id: texture::Id, offset: u32) -> bool {
    &&& after.last().spec_end() == offset + 6
    &&& after.last().spec_texture() == texture_id
    &&& if before.len() > 0 && before.last().spec_texture() == texture_id {
        &&& after.len() == before.len()
        &&& after.take(before.len() - 1) == before.take(before.len() - 1)
        &&& after.last().spec_start() == before.last().spec_start()
    } else {
        &&& after.len() == before.len() + 1
        &&& after.take(before.len() as int) == before
        &&& after.last().spec_start() == offset
    }
}

/// Makes room for the six vertices of a quad drawn with `texture_id`: the last batch grows
/// when it has that texture, otherwise a batch with that texture starts where the last one
/// ends. Returns the offset of the quad's first vertex.
pub fn push_quad(batches: &mut Vec<QuadBatch>, texture_id: texture::Id) -> (offset: u32)
    requires
        batches_end(old(batches)@) + 6 <= u32::MAX,
    ensures
        offset == batches_end(old(batches)@),
        quad_pushed(old(batches)@, final(batches)@, texture_id, offset),
{
    let n = batches.len();
    if n > 0 && batches[n - 1].texture_id == texture_id {
        let last = batches[n - 1];
        let offset = last.end_vertex_offset;
        batches.set(n - 1, QuadBatch { end_vertex_offset: offset + 6, ..last });
        assert(batches@.take(n - 1) =~= old(batches)@.take(n - 1));
        offset
    } else {
        let offset = if n > 0 {
            batches[n - 1].end_vertex_offset
        } else {
            0
        };
        batches.push(QuadBatch { start_vertex_offset: offset, end_vertex_offset: offset + 6, texture_id });
        assert(batches@.take(n as int) =~= old(batches)@);
        offset
    }
}

/// Law: adding a quad keeps the batches contiguous from vertex 0, puts the quad's six
/// vertices after every vertex drawn before, and leaves it in a batch of its texture.
pub proof fn lemma_push_quad_keeps_batches_contiguous(
    before: Seq<QuadBatch>,
    after: Seq<QuadBatch>,
    texture_id: texture::Id,
    offset: u32,
)
    requires
        batches_contiguous(before),
        offset == batches_end(before),
        quad_pushed(before, after, texture_id, offset),
    ensures
        batches_contiguous(after),
        batches_end(after) == offset + 6,
        after.last().spec_texture() == texture_id,
{
    let n = before.len() as int;
    if n > 0 && before.last().spec_texture() == texture_id {
        assert forall|i: int| 0 <= i < n - 1 implies after[i] == before[i] by {
            assert(after.take(n - 1)[i] == before.take(n - 1)[i]);
        }
        assert forall|i: int| 0 <= i < after.len() - 1 implies #[trigger] after[i].spec_end() == after[i + 1].spec_start() by {
            assert(after[i] == before[i]);
            if i + 1 < n - 1 {
                assert(after[i + 1] == before[i + 1]);
            }
        }
        assert forall|i: int| 0 <= i < after.len() implies #[trigger] after[i].spec_start() <= after[i].spec_end() by {
            if i < n - 1 {
                assert(after[i] == before[i]);
            }
        }
        if n - 1 > 0 {
            assert(after[0] == before[0]);
        }
    } else {
        assert forall|i: int| 0 <= i < n implies after[i] == before[i] by {
            assert(after.take(n)[i] == before[i]);
        }
        assert forall|i: int| 0 <= i < after.len() - 1 implies #[trigger] after[i].spec_end() == after[i + 1].spec_start() by {
            assert(after[i] == before[i]);
            if i + 1 < n {
                assert(after[i + 1] == before[i + 1]);
            }
        }
        assert forall|i: int| 0 <= i < after.len() implies #[trigger] after[i].spec_start() <= after[i].spec_end() by {
            if i < n {
                assert(after[i] == before[i]);
            }
        }
        if n > 0 {
            assert(after[0] == before[0]);
        }
    }
}

} // verus!
