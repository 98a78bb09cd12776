use vstd::prelude::*;

use crate::ids::{GfxBufferId, IdAllocator};

verus! {

/// One vertex as the core sees it: raw 32-bit lanes for position, colour
/// and texture coordinates. Geometry content is opaque payload here; the
/// presentation layer decides how the lanes are interpreted by the device.
#[derive(Clone, Copy, Debug)]
pub struct Vertex {
    pub pos: [u32; 2],
    pub color: [u32; 4],
    pub uv: [u32; 2],
}

/// Faults of the core, split as the design splits them: a validation fault
/// is reported synchronously to the submitting caller and is recoverable;
/// the other variants are protocol faults, which mark a broken cross-thread
/// invariant and are fatal to the subsystem that observes them.
#[derive(Clone, Copy, Debug, PartialEq, Eq, Structural)]
pub enum GfxError {
    /// A vertex payload was not a whole number of quads, or an index
    /// payload was not a whole number of triangle pairs.
    InvalidPayloadShape,
    /// A `Create` named an identifier that is still live in the table
    /// (double create: the producer's view of lifetimes is corrupted).
    DuplicateBufferId,
    /// A `Delete` named an identifier that is not live in the table
    /// (double free or fabricated identifier).
    UnknownBufferId,
    /// A resize notification found the logic task permanently gone, so no
    /// redraw can ever be requested again.
    ResizeReceiverGone,
}

/// A resource-lifecycle request travelling from the logic side to the
/// presentation side. Immutable once enqueued.
#[derive(Clone, Debug)]
pub enum GraphicsMethod {
    NewVertexBuffer(Vec<Vertex>, GfxBufferId),
    NewIndexBuffer(Vec<u16>, GfxBufferId),
    DeleteBuffer(GfxBufferId),
}

/// Ordered, unbounded, single-consumer queue of pending commands, together
/// with the liveness of its consumer end. Pushing onto a closed queue is a
/// best-effort no-op: during teardown producers must neither block nor
/// fault, so the race is deliberately swallowed.
pub struct CommandQueue {
    cmds: Vec<GraphicsMethod>,
    open: bool,
}

impl CommandQueue {
    /// The pending commands, oldest first.
    pub closed spec fn commands(self) -> Seq<GraphicsMethod> {
        self.cmds@
    }

    /// Whether the consumer end is still there.
    pub closed spec fn is_open(self) -> bool {
        self.open
    }

    pub fn new() -> (q: Self)
        ensures
            q.commands() == Seq::<GraphicsMethod>::empty(),
            q.is_open(),
    {
        CommandQueue { cmds: Vec::new(), open: true }
    }

    /// Producer side: append `cmd` in submission order, unless the consumer
    /// has already shut down, in which case nothing happens.
    pub fn push_command(&mut self, cmd: GraphicsMethod)
        ensures
            final(self).is_open() == old(self).is_open(),
            old(self).is_open() ==> final(self).commands() == old(self).commands().push(cmd),
            !old(self).is_open() ==> final(self).commands() == old(self).commands(),
    {
        if self.open {
            self.cmds.push(cmd);
        }
    }

    /// Consumer side: take the oldest pending command without waiting;
    /// `None` when nothing is pending right now.
    pub fn pop_command(&mut self) -> (r: Option<GraphicsMethod>)
        ensures
            final(self).is_open() == old(self).is_open(),
            old(self).commands().len() == 0 ==> r is None && final(self).commands()
                == old(self).commands(),
            old(self).commands().len() > 0 ==> r == Some(old(self).commands()[0]) && final(self).commands() == old(self).commands().drop_first(),
    {
        if self.cmds.len() == 0 {
            None
        } else {
            let cmd = self.cmds.remove(0);
            proof {
                assert(self.cmds@ =~= old(self).cmds@.drop_first());
            }
            Some(cmd)
        }
    }

    /// Consumer side: record that the consumer is gone for good; commands
    /// pushed from now on are dropped.
    pub fn close(&mut self)
        ensures
            !final(self).is_open(),
            final(self).commands() == old(self).commands(),
    {
        self.open = false;
    }

    /// How many commands are pending.
    pub fn len(&self) -> (n: usize)
        ensures
            n == self.commands().len(),
    {
        self.cmds.len()
    }
}

/// Producer-side handle of the command channel: validates payload shape,
/// allocates identifiers, and enqueues lifecycle commands. Submission never
/// blocks and never waits for the command to be applied.
pub struct RenderApi {
    pub alloc: IdAllocator,
    pub queue: CommandQueue,
}

impl RenderApi {
    pub fn new() -> (api: Self)
        ensures
            api.alloc.next_id() == 0,
            api.queue.commands() == Seq::<GraphicsMethod>::empty(),
            api.queue.is_open(),
    {
        RenderApi { alloc: IdAllocator::new(), queue: CommandQueue::new() }
    }

    /// Submit creation of a vertex buffer. The payload must describe whole
    /// quads (a multiple of 4 vertices); a malformed payload is rejected
    /// synchronously and nothing is allocated or enqueued. On success the
    /// identifier is returned at once; if the consumer has already shut
    /// down the command is dropped but the identifier is still unique.
    pub fn new_vertex_buffer(&mut self, verts: Vec<Vertex>) -> (r: Result<GfxBufferId, GfxError>)
        requires
            old(self).alloc.next_id() < u32::MAX,
        ensures
            verts@.len() % 4 != 0 ==> r == Err::<GfxBufferId, GfxError>(
                GfxError::InvalidPayloadShape,
            ) && *final(self) == *old(self),
            verts@.len() % 4 == 0 ==> {
                &&& r == Ok::<GfxBufferId, GfxError>(old(self).alloc.next_id())
                &&& final(self).alloc.next_id() == old(self).alloc.next_id() + 1
                &&& final(self).queue.is_open() == old(self).queue.is_open()
                &&& old(self).queue.is_open() ==> final(self).queue.commands() == old(self).queue.commands().push(
                    GraphicsMethod::NewVertexBuffer(verts, old(self).alloc.next_id()),
                )
                &&& !old(self).queue.is_open() ==> final(self).queue.commands() == old(self).queue.commands()
            },
    {
        if verts.len() % 4 != 0 {
            return Err(GfxError::InvalidPayloadShape);
        }
        let id = self.alloc.allocate();
        self.queue.push_command(GraphicsMethod::NewVertexBuffer(verts, id));
        Ok(id)
    }

    /// Submit creation of an index buffer. The payload must describe whole
    /// triangle pairs (a multiple of 6 indices); otherwise as for
    /// `new_vertex_buffer`.
    pub fn new_index_buffer(&mut self, indices: Vec<u16>) -> (r: Result<GfxBufferId, GfxError>)
        requires
            old(self).alloc.next_id() < u32::MAX,
        ensures
            indices@.len() % 6 != 0 ==> r == Err::<GfxBufferId, GfxError>(
                GfxError::InvalidPayloadShape,
            ) && *final(self) == *old(self),
            indices@.len() % 6 == 0 ==> {
                &&& r == Ok::<GfxBufferId, GfxError>(old(self).alloc.next_id())
                &&& final(self).alloc.next_id() == old(self).alloc.next_id() + 1
                &&& final(self).queue.is_open() == old(self).queue.is_open()
                &&& old(self).queue.is_open() ==> final(self).queue.commands() == old(self).queue.commands().push(
                    GraphicsMethod::NewIndexBuffer(indices, old(self).alloc.next_id()),
                )
                &&& !old(self).queue.is_open() ==> final(self).queue.commands() == old(self).queue.commands()
            },
    {
        if indices.len() % 6 != 0 {
            return Err(GfxError::InvalidPayloadShape);
        }
        let id = self.alloc.allocate();
        self.queue.push_command(GraphicsMethod::NewIndexBuffer(indices, id));
        Ok(id)
    }

    /// Submit deletion of a buffer. No validation happens here: whether the
    /// identifier is live is only known to the consumer, which treats an
    /// unknown identifier as a fatal protocol fault when it applies the
    /// command.
    pub fn delete_buffer(&mut self, buffer: GfxBufferId)
        ensures
            final(self).alloc == old(self).alloc,
            final(self).queue.is_open() == old(self).queue.is_open(),
            old(self).queue.is_open() ==> final(self).queue.commands() == old(self).queue.commands().push(GraphicsMethod::DeleteBuffer(buffer)),
            !old(self).queue.is_open() ==> final(self).queue.commands() == old(self).queue.commands(),
    {
        self.queue.push_command(GraphicsMethod::DeleteBuffer(buffer));
    }
}

} // verus!
