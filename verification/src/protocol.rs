use vstd::prelude::*;

use crate::command::GraphicsMethod;
use crate::ids::GfxBufferId;
use crate::mesh::{delete_cmds, MeshInfo};

verus! {

/// The identifier a command is about.
pub open spec fn cmd_id(c: GraphicsMethod) -> GfxBufferId {
    match c {
        GraphicsMethod::NewVertexBuffer(_, id) => id,
        GraphicsMethod::NewIndexBuffer(_, id) => id,
        GraphicsMethod::DeleteBuffer(id) => id,
    }
}

/// Whether a command creates a resource (as opposed to deleting one).
pub open spec fn is_create(c: GraphicsMethod) -> bool {
    !(c matches GraphicsMethod::DeleteBuffer(_))
}

/// The set of live identifiers after the consumer applies one command.
pub open spec fn apply_cmd(live: Set<GfxBufferId>, c: GraphicsMethod) -> Set<GfxBufferId> {
    if is_create(c) {
        live.insert(cmd_id(c))
    } else {
        live.remove(cmd_id(c))
    }
}

/// Whether one command applies without a protocol fault: a create must
/// name an identifier that is not yet live, a delete one that is.
pub open spec fn cmd_applies(live: Set<GfxBufferId>, c: GraphicsMethod) -> bool {
    if is_create(c) {
        !live.contains(cmd_id(c))
    } else {
        live.contains(cmd_id(c))
    }
}

/// Whether a whole pending queue, drained front to back, applies without
/// any protocol fault.
pub open spec fn drains_cleanly(live: Set<GfxBufferId>, q: Seq<GraphicsMethod>) -> bool
    decreases q.len(),
{
    q.len() == 0 || (cmd_applies(live, q[0]) && drains_cleanly(
        apply_cmd(live, q[0]),
        q.drop_first(),
    ))
}

/// A pending delete has a source: the identifier is either already live in
/// the table (its create was drained earlier) or a create for it sits
/// earlier in the queue — never neither, so the consumer can never observe
/// a delete out of order with its create.
pub open spec fn delete_has_source(
    live: Set<GfxBufferId>,
    q: Seq<GraphicsMethod>,
    i: int,
) -> bool {
    live.contains(cmd_id(q[i])) || exists|j: int|
        0 <= j < i && is_create(q[j]) && #[trigger] cmd_id(q[j]) == cmd_id(q[i])
}

/// Well-formedness of the pending state shared by producer and consumer:
/// the live set of the consumer's table together with the queued commands.
/// This is the invariant the publish protocol maintains: creates carry
/// identifiers never used before, and deletes are only queued for a
/// superseded generation, once, after its create.
pub open spec fn wf_pending(live: Set<GfxBufferId>, q: Seq<GraphicsMethod>) -> bool {
    &&& forall|i: int, j: int|
        0 <= i < j < q.len() && is_create(q[i]) && is_create(q[j]) ==> #[trigger] cmd_id(q[i])
            != #[trigger] cmd_id(q[j])
    &&& forall|i: int|
        0 <= i < q.len() && is_create(q[i]) ==> !live.contains(#[trigger] cmd_id(q[i]))
    &&& forall|i: int, j: int|
        0 <= i < j < q.len() && !is_create(q[i]) && !is_create(q[j]) ==> #[trigger] cmd_id(q[i])
            != #[trigger] cmd_id(q[j])
    &&& forall|i: int| 0 <= i < q.len() && !is_create(#[trigger] q[i]) ==> delete_has_source(
        live,
        q,
        i,
    )
}

/// Law (ordering at the consumer): in a well-formed pending state, the
/// front command applies without a protocol fault, and applying it leaves
/// the state well-formed again.
pub proof fn lemma_wf_drain_step(live: Set<GfxBufferId>, q: Seq<GraphicsMethod>)
    requires
        wf_pending(live, q),
        q.len() > 0,
    ensures
        cmd_applies(live, q[0]),
        wf_pending(apply_cmd(live, q[0]), q.drop_first()),
{
    let c = q[0];
    let live2 = apply_cmd(live, c);
    let q2 = q.drop_first();
    assert(forall|i: int| 0 <= i < q2.len() ==> q2[i] == q[i + 1]);
    if !is_create(c) {
        assert(delete_has_source(live, q, 0));
        assert(cmd_applies(live, c));
    }
    assert forall|i: int| 0 <= i < q2.len() && !is_create(#[trigger] q2[i]) implies
        delete_has_source(live2, q2, i) by {
        assert(q2[i] == q[i + 1]);
        assert(delete_has_source(live, q, i + 1));
        if is_create(c) {
            if cmd_id(c) == cmd_id(q2[i]) {
                // Its source can only be the create just drained: the
                // identifier is now live.
                assert(live2.contains(cmd_id(q2[i])));
            } else {
                if live.contains(cmd_id(q2[i])) {
                    assert(live2.contains(cmd_id(q2[i])));
                } else {
                    let j = choose|j: int|
                        0 <= j < i + 1 && is_create(q[j]) && #[trigger] cmd_id(q[j]) == cmd_id(
                            q[i + 1],
                        );
                    assert(j != 0);
                    assert(is_create(q2[j - 1]) && cmd_id(q2[j - 1]) == cmd_id(q2[i]));
                }
            }
        } else {
            // The drained command was a delete of a different identifier
            // (pending deletes are pairwise distinct), and no create for
            // an identifier that is live can be pending, so the source of
            // this delete is untouched.
            assert(cmd_id(c) != cmd_id(q[i + 1]));
            if live.contains(cmd_id(q2[i])) {
                assert(live2.contains(cmd_id(q2[i])));
            } else {
                let j = choose|j: int|
                    0 <= j < i + 1 && is_create(q[j]) && #[trigger] cmd_id(q[j]) == cmd_id(
                        q[i + 1],
                    );
                assert(j != 0);
                assert(is_create(q2[j - 1]) && cmd_id(q2[j - 1]) == cmd_id(q2[i]));
            }
        }
    }
}

/// Law (no fatal fault under the protocol): a well-formed pending state
/// drains to the end without ever tripping the consumer's protocol
/// faults — no delete of an unknown identifier, no create over a live one.
pub proof fn lemma_wf_drains_cleanly(live: Set<GfxBufferId>, q: Seq<GraphicsMethod>)
    requires
        wf_pending(live, q),
    ensures
        drains_cleanly(live, q),
    decreases q.len(),
{
    if q.len() > 0 {
        lemma_wf_drain_step(live, q);
        lemma_wf_drains_cleanly(apply_cmd(live, q[0]), q.drop_first());
    }
}

/// An identifier nothing in the system has seen: not live, and named by no
/// pending command. The allocator guarantees this for every identifier it
/// hands out, since everything seen so far lies strictly below its counter.
pub open spec fn id_fresh(live: Set<GfxBufferId>, q: Seq<GraphicsMethod>, id: GfxBufferId) -> bool {
    &&& !live.contains(id)
    &&& forall|i: int| 0 <= i < q.len() ==> #[trigger] cmd_id(q[i]) != id
}

/// Everything the system has seen lies strictly below `bound` — the shape
/// in which the allocator's counter keeps identifiers fresh.
pub open spec fn ids_bounded(
    live: Set<GfxBufferId>,
    q: Seq<GraphicsMethod>,
    bound: GfxBufferId,
) -> bool {
    &&& forall|id: GfxBufferId| live.contains(id) ==> id < bound
    &&& forall|i: int| 0 <= i < q.len() ==> #[trigger] cmd_id(q[i]) < bound
}

/// The allocator's counter is fresh for the state it bounds.
pub proof fn lemma_bounded_id_is_fresh(
    live: Set<GfxBufferId>,
    q: Seq<GraphicsMethod>,
    bound: GfxBufferId,
)
    requires
        ids_bounded(live, q, bound),
    ensures
        id_fresh(live, q, bound),
{
}

/// The initial state — empty table, empty queue, counter at zero — is
/// well-formed and bounded by the allocator's counter, the base case of
/// the whole protocol: every producer and consumer step above preserves
/// both from here.
pub proof fn lemma_initial_state_wf()
    ensures
        wf_pending(Set::<GfxBufferId>::empty(), Seq::<GraphicsMethod>::empty()),
        ids_bounded(Set::<GfxBufferId>::empty(), Seq::<GraphicsMethod>::empty(), 0),
{
}

/// Queueing any command about an already-seen identifier keeps the state
/// bounded — in particular every delete the retirement protocol queues.
pub proof fn lemma_bounded_push(
    live: Set<GfxBufferId>,
    q: Seq<GraphicsMethod>,
    bound: GfxBufferId,
    c: GraphicsMethod,
)
    requires
        ids_bounded(live, q, bound),
        cmd_id(c) < bound,
    ensures
        ids_bounded(live, q.push(c), bound),
{
    let q2 = q.push(c);
    assert(forall|i: int| 0 <= i < q.len() ==> q2[i] == q[i]);
    assert(forall|i: int| 0 <= i < q2.len() ==> #[trigger] cmd_id(q2[i]) < bound);
}

/// Draining one command keeps the state bounded: the counter never has to
/// move for the consumer's sake.
pub proof fn lemma_bounded_drain_step(
    live: Set<GfxBufferId>,
    q: Seq<GraphicsMethod>,
    bound: GfxBufferId,
)
    requires
        ids_bounded(live, q, bound),
        q.len() > 0,
    ensures
        ids_bounded(apply_cmd(live, q[0]), q.drop_first(), bound),
{
    let q2 = q.drop_first();
    assert(forall|i: int| 0 <= i < q2.len() ==> q2[i] == q[i + 1]);
}

/// Submitting a create under the allocator's counter, and stepping the
/// counter past it, keeps every identifier the system has seen below the
/// counter — so the next allocation is fresh again.
pub proof fn lemma_bounded_after_create(
    live: Set<GfxBufferId>,
    q: Seq<GraphicsMethod>,
    bound: GfxBufferId,
    c: GraphicsMethod,
)
    requires
        ids_bounded(live, q, bound),
        cmd_id(c) == bound,
        bound < u32::MAX,
    ensures
        ids_bounded(live, q.push(c), (bound + 1) as u32),
{
    let q2 = q.push(c);
    assert(forall|i: int| 0 <= i < q.len() ==> q2[i] == q[i]);
    assert(forall|i: int| 0 <= i < q2.len() ==> #[trigger] cmd_id(q2[i]) < bound + 1);
}

/// The consumer's table steps exactly as the drain model does: on a
/// command the model accepts, a create finds its identifier absent and a
/// delete finds its identifier present, and either way the set of live
/// identifiers afterwards is `apply_cmd` of the set before.
pub proof fn lemma_table_step_matches_model<H>(m: Map<GfxBufferId, H>, c: GraphicsMethod, h: H)
    requires
        cmd_applies(m.dom(), c),
    ensures
        is_create(c) ==> !m.contains_key(cmd_id(c)) && m.insert(cmd_id(c), h).dom() == apply_cmd(
            m.dom(),
            c,
        ),
        !is_create(c) ==> m.contains_key(cmd_id(c)) && m.remove(cmd_id(c)).dom() == apply_cmd(
            m.dom(),
            c,
        ),
{
    if is_create(c) {
        assert(m.insert(cmd_id(c), h).dom() =~= m.dom().insert(cmd_id(c)));
    } else {
        assert(m.remove(cmd_id(c)).dom() =~= m.dom().remove(cmd_id(c)));
    }
}

/// Law (producer step, create): submitting a create under a fresh
/// identifier keeps the pending state well-formed, and keeps it bounded by
/// anything above the identifier.
pub proof fn lemma_wf_push_create(
    live: Set<GfxBufferId>,
    q: Seq<GraphicsMethod>,
    c: GraphicsMethod,
)
    requires
        wf_pending(live, q),
        is_create(c),
        id_fresh(live, q, cmd_id(c)),
    ensures
        wf_pending(live, q.push(c)),
{
    let q2 = q.push(c);
    assert(forall|i: int| 0 <= i < q.len() ==> q2[i] == q[i]);
    assert forall|i: int| 0 <= i < q2.len() && !is_create(#[trigger] q2[i]) implies
        delete_has_source(live, q2, i) by {
        assert(i < q.len());
        assert(delete_has_source(live, q, i));
        if !live.contains(cmd_id(q[i])) {
            let j = choose|j: int|
                0 <= j < i && is_create(q[j]) && #[trigger] cmd_id(q[j]) == cmd_id(q[i]);
            assert(is_create(q2[j]) && cmd_id(q2[j]) == cmd_id(q2[i]));
        }
    }
}

/// A generation's buffer may be retired: its create has been submitted
/// (it is live, or its create is still pending) and no delete for it is
/// pending. The slot protocol guarantees this for whatever `publish`
/// returns, because a delete is queued only once, only for a superseded
/// generation, strictly after the swap.
pub open spec fn deletable(live: Set<GfxBufferId>, q: Seq<GraphicsMethod>, id: GfxBufferId) -> bool {
    &&& live.contains(id) || exists|j: int|
        0 <= j < q.len() && is_create(q[j]) && #[trigger] cmd_id(q[j]) == id
    &&& forall|i: int| 0 <= i < q.len() && !is_create(#[trigger] q[i]) ==> cmd_id(q[i]) != id
}

/// Law (producer step, delete — the ordering guarantee): submitting the
/// delete of a retirable identifier keeps the pending state well-formed:
/// at the consumer the delete can only ever arrive after its create.
pub proof fn lemma_wf_push_delete(live: Set<GfxBufferId>, q: Seq<GraphicsMethod>, id: GfxBufferId)
    requires
        wf_pending(live, q),
        deletable(live, q, id),
    ensures
        wf_pending(live, q.push(GraphicsMethod::DeleteBuffer(id))),
{
    let c = GraphicsMethod::DeleteBuffer(id);
    let q2 = q.push(c);
    assert(forall|i: int| 0 <= i < q.len() ==> q2[i] == q[i]);
    assert forall|i: int| 0 <= i < q2.len() && !is_create(#[trigger] q2[i]) implies
        delete_has_source(live, q2, i) by {
        if i < q.len() {
            assert(delete_has_source(live, q, i));
            if !live.contains(cmd_id(q[i])) {
                let j = choose|j: int|
                    0 <= j < i && is_create(q[j]) && #[trigger] cmd_id(q[j]) == cmd_id(q[i]);
                assert(is_create(q2[j]) && cmd_id(q2[j]) == cmd_id(q2[i]));
            }
        } else {
            assert(q2[i] == c);
            if !live.contains(id) {
                let j = choose|j: int|
                    0 <= j < q.len() && is_create(q[j]) && #[trigger] cmd_id(q[j]) == id;
                assert(is_create(q2[j]) && cmd_id(q2[j]) == cmd_id(q2[i]));
            }
        }
    }
}

/// Queueing the delete of one identifier does not affect whether a
/// different identifier can still be retired.
pub proof fn lemma_deletable_push_delete(
    live: Set<GfxBufferId>,
    q: Seq<GraphicsMethod>,
    id: GfxBufferId,
    other: GfxBufferId,
)
    requires
        deletable(live, q, id),
        id != other,
    ensures
        deletable(live, q.push(GraphicsMethod::DeleteBuffer(other)), id),
{
    let q2 = q.push(GraphicsMethod::DeleteBuffer(other));
    assert(forall|i: int| 0 <= i < q.len() ==> q2[i] == q[i]);
    if !live.contains(id) {
        let j = choose|j: int|
            0 <= j < q.len() && is_create(q[j]) && #[trigger] cmd_id(q[j]) == id;
        assert(is_create(q2[j]) && cmd_id(q2[j]) == id);
    }
}

/// Both buffers of a generation can be retired, and they are two distinct
/// resources — true of every generation the library builds, whose two
/// identifiers come from distinct allocations.
pub open spec fn mesh_deletable(
    live: Set<GfxBufferId>,
    q: Seq<GraphicsMethod>,
    m: MeshInfo,
) -> bool {
    &&& deletable(live, q, m.vertex_buffer)
    &&& deletable(live, q, m.index_buffer)
    &&& m.vertex_buffer != m.index_buffer
}

/// The two generations reference four different buffers — true of any two
/// generations the library builds, whose identifiers come from four
/// distinct allocations.
pub open spec fn buffers_disjoint(m: MeshInfo, n: MeshInfo) -> bool {
    &&& m.vertex_buffer != n.vertex_buffer
    &&& m.vertex_buffer != n.index_buffer
    &&& m.index_buffer != n.vertex_buffer
    &&& m.index_buffer != n.index_buffer
}

/// Retiring one generation leaves any other generation (with disjoint
/// buffers) still retirable.
pub proof fn lemma_mesh_deletable_after_retire(
    live: Set<GfxBufferId>,
    q: Seq<GraphicsMethod>,
    retired: MeshInfo,
    m: MeshInfo,
)
    requires
        mesh_deletable(live, q, m),
        buffers_disjoint(m, retired),
    ensures
        mesh_deletable(live, q + delete_cmds(retired), m),
{
    let q1 = q.push(GraphicsMethod::DeleteBuffer(retired.vertex_buffer));
    let q2 = q1.push(GraphicsMethod::DeleteBuffer(retired.index_buffer));
    lemma_deletable_push_delete(live, q, m.vertex_buffer, retired.vertex_buffer);
    lemma_deletable_push_delete(live, q, m.index_buffer, retired.vertex_buffer);
    lemma_deletable_push_delete(live, q1, m.vertex_buffer, retired.index_buffer);
    lemma_deletable_push_delete(live, q1, m.index_buffer, retired.index_buffer);
    assert(q2 =~= q + delete_cmds(retired));
}

/// Law (slot swap and retirement): retiring a whole superseded generation
/// — both its buffers, vertex then index — keeps the pending state
/// well-formed, provided the generation was deletable and its two buffers
/// are distinct, which holds of every generation the library builds since
/// its two identifiers come from distinct allocations.
pub proof fn lemma_wf_retire_mesh(live: Set<GfxBufferId>, q: Seq<GraphicsMethod>, m: MeshInfo)
    requires
        wf_pending(live, q),
        mesh_deletable(live, q, m),
    ensures
        wf_pending(live, q + delete_cmds(m)),
{
    let q1 = q.push(GraphicsMethod::DeleteBuffer(m.vertex_buffer));
    lemma_wf_push_delete(live, q, m.vertex_buffer);
    assert(forall|i: int| 0 <= i < q.len() ==> q1[i] == q[i]);
    assert(deletable(live, q1, m.index_buffer)) by {
        if !live.contains(m.index_buffer) {
            let j = choose|j: int|
                0 <= j < q.len() && is_create(q[j]) && #[trigger] cmd_id(q[j]) == m.index_buffer;
            assert(is_create(q1[j]) && cmd_id(q1[j]) == m.index_buffer);
        }
    }
    lemma_wf_push_delete(live, q1, m.index_buffer);
    assert(q1.push(GraphicsMethod::DeleteBuffer(m.index_buffer)) =~= q + delete_cmds(m));
}

/// Law (one whole redraw cycle): after every slot of the cycle has been
/// swapped, retiring all the superseded generations — the always-present
/// slot's, then each optional slot's, batched in that order — keeps the
/// pending state well-formed. So across a full redraw, every queued delete
/// still reaches the consumer after its create and no buffer is deleted
/// twice: nothing is used after deletion, nothing is leaked.
pub proof fn lemma_wf_draw_cycle(
    live: Set<GfxBufferId>,
    q: Seq<GraphicsMethod>,
    a: MeshInfo,
    b: Option<MeshInfo>,
    c: Option<MeshInfo>,
)
    requires
        wf_pending(live, q),
        mesh_deletable(live, q, a),
        b matches Some(mb) ==> mesh_deletable(live, q, mb) && buffers_disjoint(mb, a),
        c matches Some(mc) ==> mesh_deletable(live, q, mc) && buffers_disjoint(mc, a) && (
        b matches Some(mb) ==> buffers_disjoint(mc, mb)),
    ensures
        wf_pending(live, q + delete_cmds(a) + crate::mesh::retired_cmds(b)
            + crate::mesh::retired_cmds(c)),
{
    let qa = q + delete_cmds(a);
    lemma_wf_retire_mesh(live, q, a);
    match b {
        Some(mb) => {
            lemma_mesh_deletable_after_retire(live, q, a, mb);
            lemma_wf_retire_mesh(live, qa, mb);
        },
        None => {
            assert(qa + crate::mesh::retired_cmds(b) =~= qa);
        },
    }
    let qb = qa + crate::mesh::retired_cmds(b);
    match c {
        Some(mc) => {
            lemma_mesh_deletable_after_retire(live, q, a, mc);
            match b {
                Some(mb) => {
                    lemma_mesh_deletable_after_retire(live, qa, mb, mc);
                },
                None => {
                    assert(qb =~= qa);
                },
            }
            lemma_wf_retire_mesh(live, qb, mc);
        },
        None => {
            assert(qb + crate::mesh::retired_cmds(c) =~= qb);
        },
    }
}

} // verus!
