use vstd::prelude::*;

use crate::command::{GfxError, GraphicsMethod, RenderApi, Vertex};
use crate::ids::GfxBufferId;

verus! {

/// One published generation of a drawable: the two buffers it draws from
/// and how many elements the draw call covers. A value, freely copied; the
/// identifiers it carries are references to table entries, not ownership of
/// the underlying device memory.
#[derive(Clone, Copy, Debug, PartialEq, Eq, Structural)]
pub struct MeshInfo {
    pub vertex_buffer: GfxBufferId,
    pub index_buffer: GfxBufferId,
    pub num_elements: i32,
}

/// The two deletion commands owed for a superseded generation, in the
/// order the protocol queues them: vertex buffer first, then index buffer.
pub open spec fn delete_cmds(m: MeshInfo) -> Seq<GraphicsMethod> {
    seq![
        GraphicsMethod::DeleteBuffer(m.vertex_buffer),
        GraphicsMethod::DeleteBuffer(m.index_buffer),
    ]
}

/// The deletion commands owed for the previous content of a slot: none if
/// the slot was empty, otherwise the two of `delete_cmds`.
pub open spec fn retired_cmds(prev: Option<MeshInfo>) -> Seq<GraphicsMethod> {
    match prev {
        Some(m) => delete_cmds(m),
        None => Seq::<GraphicsMethod>::empty(),
    }
}

/// A named "current generation" cell, starting empty. In a running system
/// each slot sits behind its own lock; the exchange below is the whole
/// critical section, so a slot is replaced atomically with respect to its
/// readers and no two slots are ever locked together.
pub struct Slot {
    content: Option<MeshInfo>,
}

impl View for Slot {
    type V = Option<MeshInfo>;

    closed spec fn view(&self) -> Option<MeshInfo> {
        self.content
    }
}

impl Slot {
    pub fn new() -> (s: Self)
        ensures
            s@ is None,
    {
        Slot { content: None }
    }

    /// Exchange the slot's content for `m` and return what was there. The
    /// caller owes deletion of both buffers of the returned generation,
    /// strictly after this exchange; on a first publish nothing is owed.
    pub fn publish(&mut self, m: MeshInfo) -> (prev: Option<MeshInfo>)
        ensures
            final(self)@ == Some(m),
            prev == old(self)@,
    {
        let prev = self.content;
        self.content = Some(m);
        prev
    }

    /// What the slot currently holds.
    pub fn current(&self) -> (r: Option<MeshInfo>)
        ensures
            r == self@,
    {
        self.content
    }
}

/// A slot that is never empty once the system is ready: its first
/// generation is published synchronously at construction, so a reader
/// always finds something to draw.
pub struct FilledSlot {
    content: MeshInfo,
}

impl View for FilledSlot {
    type V = MeshInfo;

    closed spec fn view(&self) -> MeshInfo {
        self.content
    }
}

impl FilledSlot {
    pub fn new(first: MeshInfo) -> (s: Self)
        ensures
            s@ == first,
    {
        FilledSlot { content: first }
    }

    /// Exchange the slot's content for `m` and return the superseded
    /// generation, whose buffers the caller now owes for deletion.
    pub fn publish(&mut self, m: MeshInfo) -> (prev: MeshInfo)
        ensures
            final(self)@ == m,
            prev == old(self)@,
    {
        let prev = self.content;
        self.content = m;
        prev
    }

    /// What the slot currently holds.
    pub fn current(&self) -> (r: MeshInfo)
        ensures
            r == self@,
    {
        self.content
    }
}

/// Build one drawable generation: validate both payloads, allocate a
/// vertex buffer and an index buffer, enqueue their `Create` commands in
/// that order, and describe the pair. On a malformed payload nothing is
/// allocated or enqueued.
pub fn create_mesh(api: &mut RenderApi, verts: Vec<Vertex>, indices: Vec<u16>) -> (r: Result<
    MeshInfo,
    GfxError,
>)
    requires
        old(api).alloc.next_id() < u32::MAX - 1,
        indices@.len() <= i32::MAX,
    ensures
        (verts@.len() % 4 != 0 || indices@.len() % 6 != 0) ==> r == Err::<MeshInfo, GfxError>(
            GfxError::InvalidPayloadShape,
        ) && *final(api) == *old(api),
        (verts@.len() % 4 == 0 && indices@.len() % 6 == 0) ==> {
            &&& r == Ok::<MeshInfo, GfxError>(
                MeshInfo {
                    vertex_buffer: old(api).alloc.next_id(),
                    index_buffer: (old(api).alloc.next_id() + 1) as u32,
                    num_elements: indices@.len() as i32,
                },
            )
            &&& final(api).alloc.next_id() == old(api).alloc.next_id() + 2
            &&& final(api).queue.is_open() == old(api).queue.is_open()
            &&& old(api).queue.is_open() ==> final(api).queue.commands() == old(
                api,
            ).queue.commands().push(
                GraphicsMethod::NewVertexBuffer(verts, old(api).alloc.next_id()),
            ).push(GraphicsMethod::NewIndexBuffer(indices, (old(api).alloc.next_id() + 1) as u32))
            &&& !old(api).queue.is_open() ==> final(api).queue.commands() == old(
                api,
            ).queue.commands()
        },
{
    if verts.len() % 4 != 0 || indices.len() % 6 != 0 {
        return Err(GfxError::InvalidPayloadShape);
    }
    let num_elements = indices.len() as i32;
    let vertex_buffer = match api.new_vertex_buffer(verts) {
        Ok(id) => id,
        Err(e) => {
            proof {
                assert(false);
            }
            return Err(e);
        },
    };
    let index_buffer = match api.new_index_buffer(indices) {
        Ok(id) => id,
        Err(e) => {
            proof {
                assert(false);
            }
            return Err(e);
        },
    };
    Ok(MeshInfo { vertex_buffer, index_buffer, num_elements })
}

/// Queue deletion of both buffers of a superseded generation, vertex
/// buffer first. To be called only after the generation has been swapped
/// out of its slot, and only once per returned generation.
pub fn retire_mesh(api: &mut RenderApi, superseded: MeshInfo)
    ensures
        final(api).alloc == old(api).alloc,
        final(api).queue.is_open() == old(api).queue.is_open(),
        old(api).queue.is_open() ==> final(api).queue.commands() == old(api).queue.commands()
            + delete_cmds(superseded),
        !old(api).queue.is_open() ==> final(api).queue.commands() == old(api).queue.commands(),
{
    api.delete_buffer(superseded.vertex_buffer);
    api.delete_buffer(superseded.index_buffer);
    proof {
        if old(api).queue.is_open() {
            assert(api.queue.commands() =~= old(api).queue.commands() + delete_cmds(superseded));
        }
    }
}

/// One whole redraw cycle over the three drawable slots: publish the new
/// generations, then — strictly after every slot has been swapped — queue
/// deletion of every superseded generation's buffers, batched in slot
/// order. The always-present slot is swapped first, as it was first to be
/// filled at startup.
pub fn draw_update(
    api: &mut RenderApi,
    always: &mut FilledSlot,
    second: &mut Slot,
    third: &mut Slot,
    m_always: MeshInfo,
    m_second: MeshInfo,
    m_third: MeshInfo,
)
    ensures
        final(always)@ == m_always,
        final(second)@ == Some(m_second),
        final(third)@ == Some(m_third),
        final(api).alloc == old(api).alloc,
        final(api).queue.is_open() == old(api).queue.is_open(),
        old(api).queue.is_open() ==> final(api).queue.commands() == old(api).queue.commands()
            + delete_cmds(old(always)@) + retired_cmds(old(second)@) + retired_cmds(old(third)@),
        !old(api).queue.is_open() ==> final(api).queue.commands() == old(api).queue.commands(),
{
    let prev_always = always.publish(m_always);
    let prev_second = second.publish(m_second);
    let prev_third = third.publish(m_third);

    retire_mesh(api, prev_always);
    if let Some(prev) = prev_second {
        retire_mesh(api, prev);
    }
    if let Some(prev) = prev_third {
        retire_mesh(api, prev);
    }
    proof {
        if old(api).queue.is_open() {
            assert(api.queue.commands() =~= old(api).queue.commands() + delete_cmds(old(always)@)
                + retired_cmds(old(second)@) + retired_cmds(old(third)@));
        }
    }
}

} // verus!
