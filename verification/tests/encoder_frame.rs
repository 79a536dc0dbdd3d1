use render_core::art::make_square_render;
use render_core::graphics::{
    Encoder, GlFactory, GpuCommand, Mat4, OutColor, OutDepth, Vec4, WORD_ONE, WORD_ZERO,
};
use render_core::render_id::RenderId;
use render_core::render_system::{
    FromRender, RenderSystem, RenderSystemSend, ToRender, DEPTH_CLEAR_WORD,
};
use render_core::window_id::{PerWindow, WindowId};
use render_core::world::initial_world;
use render_core::RenderKey;

fn outs() -> PerWindow<(OutColor, OutDepth)> {
    PerWindow::new(
        (OutColor { handle: 100 }, OutDepth { handle: 101 }),
        (OutColor { handle: 200 }, OutDepth { handle: 201 }),
    )
}

fn draws_of(cmds: &[GpuCommand]) -> Vec<RenderId> {
    cmds.iter()
        .filter_map(|c| match c {
            GpuCommand::Draw { id } => Some(*id),
            _ => None,
        })
        .collect()
}

/// Two windows, one renderable each, one simulation tick: each window's
/// frame carries exactly one draw call, referencing that window's slot 0,
/// and the render thread answers each frame with one empty buffer.
#[test]
fn end_to_end_two_windows_one_renderable_each() {
    let mut sys = RenderSystemSend::new(outs());
    let packet = make_square_render();
    let mut factory_one = GlFactory::new();
    let mut factory_two = GlFactory::new();
    let id_one = sys.add_render(WindowId::First, &mut factory_one, &packet, 11);
    let id_two = sys.add_render(WindowId::Second, &mut factory_two, &packet, 22);

    let table = vec![
        (RenderKey::new(WindowId::First, 0), id_one),
        (RenderKey::new(WindowId::Second, 0), id_two),
    ];
    let mut world = initial_world(&table, Mat4::identity(), Mat4::identity());
    let mut renderer = RenderSystem::new(sys);

    let mut replies = Vec::new();
    for w in [WindowId::First, WindowId::Second] {
        let (reply, more) = renderer.process_event(
            &world.render_ids,
            &world.transforms,
            &mut world.cameras,
            &mut world.render_datas,
            (w, ToRender::Encoder(Encoder::new())),
        );
        assert!(!more);
        replies.push(reply.expect("a frame reply"));
    }

    for (w, own_slot) in [(WindowId::First, id_one), (WindowId::Second, id_two)] {
        let (tag, FromRender::Encoder(enc)) = replies.remove(0);
        assert_eq!(tag, w);
        let draws = draws_of(&enc.commands);
        assert_eq!(draws, vec![own_slot]);
        assert_eq!(draws[0].get_render_id_num(), 0);
        assert_eq!(draws[0].clone_window_id(), w);

        // The render thread submits the frame and hands back one empty buffer.
        let mut thread = render_core::render_thread::RenderThread::new(w);
        let _ = thread.graphics_ready(OutColor { handle: 0 }, OutDepth { handle: 1 });
        // Move the machine to its frame loop through the registry relay.
        let mut f = GlFactory::new();
        let relay = RenderSystemSend::new(outs());
        let acts = thread
            .receive_registry(
                render_core::render_thread::ToRenderThread::RenderSystem(relay),
                &mut f,
                &packet,
                5,
            )
            .unwrap();
        assert_eq!(acts.len(), 3);
        let steps = thread
            .handle_message(
                render_core::render_thread::ToRenderThread::FromRender(FromRender::Encoder(enc)),
                false,
            )
            .unwrap();
        assert_eq!(steps.len(), 2);
        match &steps[1] {
            render_core::render_thread::ThreadAction::Send(
                render_core::render_thread::FromRenderThread::ToRender(ToRender::Encoder(empty)),
            ) => assert!(empty.commands.is_empty()),
            other => panic!("unexpected action: {:?}", action_name(other)),
        }
    }
}

fn action_name(a: &render_core::render_thread::ThreadAction) -> &'static str {
    match a {
        render_core::render_thread::ThreadAction::Send(_) => "Send",
        render_core::render_thread::ThreadAction::SubmitFrame(_) => "SubmitFrame",
        render_core::render_thread::ThreadAction::RecomputeTargets => "RecomputeTargets",
    }
}

fn quiet_world(table: &Vec<(RenderKey, RenderId)>) -> render_core::world::World {
    // A world whose dirty flags are all consumed, so frames carry draws only.
    let mut world = initial_world(table, Mat4::identity(), Mat4::identity());
    for c in world.cameras.iter_mut() {
        let _ = c.take_dirty();
    }
    for d in world.render_datas.iter_mut() {
        let _ = d.take_dirty();
    }
    world
}

fn registry_with_first_window_slots(n: u64) -> (RenderSystemSend, Vec<RenderId>) {
    let mut sys = RenderSystemSend::new(outs());
    let packet = make_square_render();
    let mut factory = GlFactory::new();
    let ids = (0..n)
        .map(|t| sys.add_render(WindowId::First, &mut factory, &packet, 1000 + t))
        .collect();
    (sys, ids)
}

/// The frame opens with the window's two clears, in its palette colour.
#[test]
fn frame_opens_with_clears() {
    let (sys, ids) = registry_with_first_window_slots(1);
    let table = vec![(RenderKey::new(WindowId::First, 0), ids[0])];
    let mut world = quiet_world(&table);
    let renderer = RenderSystem::new(sys);

    let (tag, FromRender::Encoder(enc)) = renderer.render(
        WindowId::First,
        &world.render_ids,
        &world.transforms,
        &mut world.cameras,
        &mut world.render_datas,
        Encoder::new(),
    );
    assert_eq!(tag, WindowId::First);
    assert_eq!(
        enc.commands[0],
        GpuCommand::ClearColor {
            target: OutColor { handle: 100 },
            color: Vec4 { x: WORD_ONE, y: WORD_ZERO, z: WORD_ZERO, w: WORD_ONE },
        }
    );
    assert_eq!(
        enc.commands[1],
        GpuCommand::ClearDepth { target: OutDepth { handle: 101 }, depth: DEPTH_CLEAR_WORD }
    );
}

/// Draw order follows the layer, lowest first, slot index breaking ties.
#[test]
fn draw_order_sorts_by_layer_then_slot() {
    let (sys, ids) = registry_with_first_window_slots(4);
    let table: Vec<_> = ids
        .iter()
        .map(|id| (RenderKey::new(WindowId::First, 0), *id))
        .collect();
    let mut world = quiet_world(&table);
    // Layers: slot 0 at layer 5, slot 1 at layer 0, slot 2 at layer 3,
    // slot 3 at layer 3 again (the tie).
    world.render_datas[0].set_layer(5);
    world.render_datas[1].set_layer(0);
    world.render_datas[2].set_layer(3);
    world.render_datas[3].set_layer(3);
    for d in world.render_datas.iter_mut() {
        let _ = d.take_dirty();
    }

    let renderer = RenderSystem::new(sys);
    let (_, FromRender::Encoder(enc)) = renderer.render(
        WindowId::First,
        &world.render_ids,
        &world.transforms,
        &mut world.cameras,
        &mut world.render_datas,
        Encoder::new(),
    );
    let order: Vec<usize> = draws_of(&enc.commands)
        .iter()
        .map(|id| id.get_render_id_num())
        .collect();
    assert_eq!(order, vec![1, 2, 3, 0]);
}

/// Constant uploads are gated by the dirty flags; draws are not.
#[test]
fn uploads_only_when_dirty() {
    let (sys, ids) = registry_with_first_window_slots(2);
    let table: Vec<_> = ids
        .iter()
        .map(|id| (RenderKey::new(WindowId::First, 0), *id))
        .collect();
    let mut world = initial_world(&table, Mat4::identity(), Mat4::identity());
    let renderer = RenderSystem::new(sys);

    // First frame: everything is fresh, so every slot uploads both kinds.
    let (_, FromRender::Encoder(enc)) = renderer.render(
        WindowId::First,
        &world.render_ids,
        &world.transforms,
        &mut world.cameras,
        &mut world.render_datas,
        Encoder::new(),
    );
    let uploads = enc
        .commands
        .iter()
        .filter(|c| {
            matches!(
                c,
                GpuCommand::UpdateTextureConstants { .. }
                    | GpuCommand::UpdateProjectionConstants { .. }
            )
        })
        .count();
    assert_eq!(uploads, 4);
    assert_eq!(draws_of(&enc.commands).len(), 2);

    // Second frame: nothing changed, so no upload — but both slots draw.
    let (_, FromRender::Encoder(enc)) = renderer.render(
        WindowId::First,
        &world.render_ids,
        &world.transforms,
        &mut world.cameras,
        &mut world.render_datas,
        Encoder::new(),
    );
    assert!(enc.commands.iter().all(|c| !matches!(
        c,
        GpuCommand::UpdateTextureConstants { .. } | GpuCommand::UpdateProjectionConstants { .. }
    )));
    assert_eq!(draws_of(&enc.commands).len(), 2);

    // A tint change re-uploads texture constants for that slot alone.
    world.render_datas[1].set_tint(Vec4 { x: 1, y: 2, z: 3, w: 4 });
    let (_, FromRender::Encoder(enc)) = renderer.render(
        WindowId::First,
        &world.render_ids,
        &world.transforms,
        &mut world.cameras,
        &mut world.render_datas,
        Encoder::new(),
    );
    let tex_slots: Vec<usize> = enc
        .commands
        .iter()
        .filter_map(|c| match c {
            GpuCommand::UpdateTextureConstants { id, .. } => Some(id.get_render_id_num()),
            _ => None,
        })
        .collect();
    assert_eq!(tex_slots, vec![1]);

    // A camera change re-uploads projection constants for every slot.
    world.cameras[0].set_view(Mat4::identity());
    let (_, FromRender::Encoder(enc)) = renderer.render(
        WindowId::First,
        &world.render_ids,
        &world.transforms,
        &mut world.cameras,
        &mut world.render_datas,
        Encoder::new(),
    );
    let proj_slots: Vec<usize> = enc
        .commands
        .iter()
        .filter_map(|c| match c {
            GpuCommand::UpdateProjectionConstants { id, .. } => Some(id.get_render_id_num()),
            _ => None,
        })
        .collect();
    assert_eq!(proj_slots, vec![0, 1]);
}

/// Cross-window isolation: a frame of one window references no resource or
/// target of the other.
#[test]
fn frame_references_own_window_only() {
    let mut sys = RenderSystemSend::new(outs());
    let packet = make_square_render();
    let mut factory = GlFactory::new();
    let a = sys.add_render(WindowId::First, &mut factory, &packet, 1);
    let b = sys.add_render(WindowId::Second, &mut factory, &packet, 2);
    let table = vec![
        (RenderKey::new(WindowId::First, 0), a),
        (RenderKey::new(WindowId::Second, 0), b),
    ];
    let mut world = initial_world(&table, Mat4::identity(), Mat4::identity());
    let renderer = RenderSystem::new(sys);

    let (_, FromRender::Encoder(enc)) = renderer.render(
        WindowId::Second,
        &world.render_ids,
        &world.transforms,
        &mut world.cameras,
        &mut world.render_datas,
        Encoder::new(),
    );
    for c in &enc.commands {
        match c {
            GpuCommand::ClearColor { target, .. } => {
                assert_eq!(*target, OutColor { handle: 200 })
            }
            GpuCommand::ClearDepth { target, .. } => {
                assert_eq!(*target, OutDepth { handle: 201 })
            }
            GpuCommand::UpdateTextureConstants { id, .. }
            | GpuCommand::UpdateProjectionConstants { id, .. }
            | GpuCommand::Draw { id } => {
                assert_eq!(id.clone_window_id(), WindowId::Second);
            }
        }
    }

    // The other window's renderable was left untouched: still dirty.
    assert!(world.render_datas[0].take_dirty());
    assert!(!world.render_datas[1].take_dirty());
}
