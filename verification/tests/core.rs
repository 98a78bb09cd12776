use gfx_relay::command::{GfxError, GraphicsMethod, RenderApi, Vertex};
use gfx_relay::ids::IdAllocator;
use gfx_relay::mesh::{create_mesh, draw_update, retire_mesh, FilledSlot, MeshInfo, Slot};
use gfx_relay::resize::ResizeSignal;
use gfx_relay::table::ResourceTable;

fn vert() -> Vertex {
    Vertex { pos: [0, 0], color: [0, 0, 0, 0], uv: [0, 0] }
}

fn verts(n: usize) -> Vec<Vertex> {
    let mut v = Vec::new();
    for _ in 0..n {
        v.push(vert());
    }
    v
}

fn indices(n: usize) -> Vec<u16> {
    let mut v = Vec::new();
    for i in 0..n {
        v.push(i as u16);
    }
    v
}

#[test]
fn allocator_ids_distinct() {
    let mut alloc = IdAllocator::new();
    let mut ids = Vec::new();
    for _ in 0..16 {
        ids.push(alloc.allocate());
    }
    for i in 0..ids.len() {
        for j in 0..ids.len() {
            if i != j {
                assert_ne!(ids[i], ids[j]);
            }
        }
        if i > 0 {
            assert!(ids[i - 1] < ids[i]);
        }
    }
}

#[test]
fn vertex_payload_must_be_whole_quads() {
    let mut api = RenderApi::new();
    assert_eq!(api.new_vertex_buffer(verts(3)), Err(GfxError::InvalidPayloadShape));
    assert_eq!(api.queue.len(), 0);
    // Nothing was allocated either: the next submission still gets id 0.
    assert_eq!(api.new_vertex_buffer(verts(4)), Ok(0));
}

#[test]
fn index_payload_must_be_whole_triangle_pairs() {
    let mut api = RenderApi::new();
    assert_eq!(api.new_index_buffer(indices(5)), Err(GfxError::InvalidPayloadShape));
    assert_eq!(api.queue.len(), 0);
    assert_eq!(api.new_index_buffer(indices(12)), Ok(0));
}

#[test]
fn submissions_arrive_in_order() {
    let mut api = RenderApi::new();
    assert_eq!(api.new_vertex_buffer(verts(4)), Ok(0));
    assert_eq!(api.new_index_buffer(indices(6)), Ok(1));
    api.delete_buffer(0);
    assert_eq!(api.queue.len(), 3);
    match api.queue.pop_command() {
        Some(GraphicsMethod::NewVertexBuffer(v, id)) => {
            assert_eq!(v.len(), 4);
            assert_eq!(id, 0);
        }
        other => panic!("expected vertex create first, got {:?}", other),
    }
    match api.queue.pop_command() {
        Some(GraphicsMethod::NewIndexBuffer(ix, id)) => {
            assert_eq!(ix.len(), 6);
            assert_eq!(id, 1);
        }
        other => panic!("expected index create second, got {:?}", other),
    }
    match api.queue.pop_command() {
        Some(GraphicsMethod::DeleteBuffer(id)) => assert_eq!(id, 0),
        other => panic!("expected delete third, got {:?}", other),
    }
    assert!(api.queue.pop_command().is_none());
}

#[test]
fn closed_queue_swallows_submissions_but_ids_stay_unique() {
    let mut api = RenderApi::new();
    api.queue.close();
    assert_eq!(api.new_vertex_buffer(verts(4)), Ok(0));
    assert_eq!(api.new_index_buffer(indices(6)), Ok(1));
    api.delete_buffer(0);
    assert_eq!(api.queue.len(), 0);
}

#[test]
fn table_rejects_double_create() {
    let mut table: ResourceTable<u32> = ResourceTable::new();
    assert_eq!(table.insert_created(0, 700), Ok(()));
    assert_eq!(table.insert_created(0, 701), Err(GfxError::DuplicateBufferId));
    assert_eq!(table.len(), 1);
}

#[test]
fn table_rejects_unknown_delete() {
    let mut table: ResourceTable<u32> = ResourceTable::new();
    assert_eq!(table.remove_deleted(42), Err(GfxError::UnknownBufferId));
    assert_eq!(table.insert_created(42, 900), Ok(()));
    assert_eq!(table.remove_deleted(42), Ok(900));
    // Double free is the same fatal fault, never silent success.
    assert_eq!(table.remove_deleted(42), Err(GfxError::UnknownBufferId));
}

#[test]
fn slot_swap_returns_prior_generation_and_owes_two_deletes() {
    let mut api = RenderApi::new();
    let mut slot = Slot::new();
    let first = MeshInfo { vertex_buffer: 0, index_buffer: 1, num_elements: 6 };
    let second = MeshInfo { vertex_buffer: 2, index_buffer: 3, num_elements: 6 };
    assert_eq!(slot.publish(first), None);
    let prior = slot.publish(second);
    assert_eq!(prior, Some(first));
    assert_eq!(slot.current(), Some(second));
    // Retiring the returned generation owes exactly two delete commands.
    retire_mesh(&mut api, prior.unwrap());
    assert_eq!(api.queue.len(), 2);
    assert!(matches!(api.queue.pop_command(), Some(GraphicsMethod::DeleteBuffer(0))));
    assert!(matches!(api.queue.pop_command(), Some(GraphicsMethod::DeleteBuffer(1))));
}

#[test]
fn filled_slot_always_holds_a_generation() {
    let first = MeshInfo { vertex_buffer: 0, index_buffer: 1, num_elements: 36 };
    let next = MeshInfo { vertex_buffer: 2, index_buffer: 3, num_elements: 36 };
    let mut slot = FilledSlot::new(first);
    assert_eq!(slot.current(), first);
    assert_eq!(slot.publish(next), first);
    assert_eq!(slot.current(), next);
}

#[test]
fn notifications_coalesce_to_one_wakeup() {
    let mut signal = ResizeSignal::new();
    for _ in 0..5 {
        assert_eq!(signal.notify(), Ok(()));
    }
    // Five rapid notifies, exactly one resume.
    assert!(signal.take_notification());
    assert!(!signal.take_notification());
}

#[test]
fn notify_after_receiver_gone_is_fatal() {
    let mut signal = ResizeSignal::new();
    signal.close();
    assert_eq!(signal.notify(), Err(GfxError::ResizeReceiverGone));
    assert!(!signal.take_notification());
}

#[test]
fn create_mesh_describes_one_generation() {
    let mut api = RenderApi::new();
    let mesh = create_mesh(&mut api, verts(8), indices(12)).unwrap();
    assert_eq!(mesh, MeshInfo { vertex_buffer: 0, index_buffer: 1, num_elements: 12 });
    assert_eq!(api.queue.len(), 2);
    // A malformed payload allocates and enqueues nothing.
    assert_eq!(create_mesh(&mut api, verts(7), indices(12)), Err(GfxError::InvalidPayloadShape));
    assert_eq!(create_mesh(&mut api, verts(8), indices(11)), Err(GfxError::InvalidPayloadShape));
    assert_eq!(api.queue.len(), 2);
    let mesh2 = create_mesh(&mut api, verts(4), indices(6)).unwrap();
    assert_eq!(mesh2, MeshInfo { vertex_buffer: 2, index_buffer: 3, num_elements: 6 });
}

fn drain<H: Copy>(api: &mut RenderApi, table: &mut ResourceTable<H>, handle: H) {
    while let Some(cmd) = api.queue.pop_command() {
        match cmd {
            GraphicsMethod::NewVertexBuffer(_, id) | GraphicsMethod::NewIndexBuffer(_, id) => {
                table.insert_created(id, handle).expect("double create");
            }
            GraphicsMethod::DeleteBuffer(id) => {
                table.remove_deleted(id).expect("unknown delete");
            }
        }
    }
}

#[test]
fn end_to_end_generation_cycle() {
    let mut api = RenderApi::new();
    let mut table: ResourceTable<u32> = ResourceTable::new();
    let mut slot = Slot::new();

    assert_eq!(api.new_vertex_buffer(verts(4)), Ok(0));
    assert_eq!(api.new_index_buffer(indices(6)), Ok(1));
    drain(&mut api, &mut table, 1000);
    assert!(table.contains_buffer(0));
    assert!(table.contains_buffer(1));

    let first = MeshInfo { vertex_buffer: 0, index_buffer: 1, num_elements: 6 };
    assert_eq!(slot.publish(first), None);

    assert_eq!(api.new_vertex_buffer(verts(4)), Ok(2));
    assert_eq!(api.new_index_buffer(indices(6)), Ok(3));
    let second = MeshInfo { vertex_buffer: 2, index_buffer: 3, num_elements: 6 };
    let prior = slot.publish(second);
    assert_eq!(prior, Some(first));
    retire_mesh(&mut api, prior.unwrap());

    drain(&mut api, &mut table, 1001);
    assert_eq!(table.len(), 2);
    assert!(!table.contains_buffer(0));
    assert!(!table.contains_buffer(1));
    assert!(table.contains_buffer(2));
    assert!(table.contains_buffer(3));
}

#[test]
fn draw_update_swaps_all_slots_then_batches_deletes() {
    let mut api = RenderApi::new();
    let mut table: ResourceTable<u32> = ResourceTable::new();

    let g0 = create_mesh(&mut api, verts(24), indices(36)).unwrap();
    let mut always = FilledSlot::new(g0);
    let mut second = Slot::new();
    let mut third = Slot::new();
    drain(&mut api, &mut table, 2000);
    assert_eq!(table.len(), 2);

    // First cycle: only the always-present slot owes deletes.
    let a1 = create_mesh(&mut api, verts(24), indices(36)).unwrap();
    let b1 = create_mesh(&mut api, verts(8), indices(12)).unwrap();
    let c1 = create_mesh(&mut api, verts(4), indices(6)).unwrap();
    draw_update(&mut api, &mut always, &mut second, &mut third, a1, b1, c1);
    drain(&mut api, &mut table, 2001);
    assert_eq!(table.len(), 6);
    assert!(!table.contains_buffer(g0.vertex_buffer));
    assert!(!table.contains_buffer(g0.index_buffer));
    assert_eq!(always.current(), a1);
    assert_eq!(second.current(), Some(b1));
    assert_eq!(third.current(), Some(c1));

    // Second cycle: every slot held a generation, so all three owe deletes.
    let a2 = create_mesh(&mut api, verts(24), indices(36)).unwrap();
    let b2 = create_mesh(&mut api, verts(8), indices(12)).unwrap();
    let c2 = create_mesh(&mut api, verts(4), indices(6)).unwrap();
    draw_update(&mut api, &mut always, &mut second, &mut third, a2, b2, c2);
    drain(&mut api, &mut table, 2002);
    assert_eq!(table.len(), 6);
    for m in [a2, b2, c2] {
        assert!(table.contains_buffer(m.vertex_buffer));
        assert!(table.contains_buffer(m.index_buffer));
    }
    for m in [a1, b1, c1] {
        assert!(!table.contains_buffer(m.vertex_buffer));
        assert!(!table.contains_buffer(m.index_buffer));
    }
}

#[test]
fn empty_payloads_are_whole_shapes() {
    // Zero vertices is a whole number of quads, zero indices a whole
    // number of triangle pairs: both are accepted and enqueued.
    let mut api = RenderApi::new();
    assert_eq!(api.new_vertex_buffer(Vec::new()), Ok(0));
    assert_eq!(api.new_index_buffer(Vec::new()), Ok(1));
    assert_eq!(api.queue.len(), 2);
}
