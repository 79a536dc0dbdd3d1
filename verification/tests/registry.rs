use render_core::art::make_square_render;
use render_core::graphics::{GlFactory, OutColor, OutDepth};
use render_core::render_system::{RenderSystem, RenderSystemSend};
use render_core::window_id::{PerWindow, WindowId};

fn outs() -> PerWindow<(OutColor, OutDepth)> {
    PerWindow::new(
        (OutColor { handle: 100 }, OutDepth { handle: 101 }),
        (OutColor { handle: 200 }, OutDepth { handle: 201 }),
    )
}

#[test]
fn add_render_appends_slots_in_order() {
    let mut sys = RenderSystemSend::new(outs());
    let mut factory = GlFactory::new();
    let packet = make_square_render();

    let a = sys.add_render(WindowId::First, &mut factory, &packet, 900);
    let b = sys.add_render(WindowId::First, &mut factory, &packet, 901);
    let c = sys.add_render(WindowId::Second, &mut factory, &packet, 902);

    assert_eq!(a.get_render_id_num(), 0);
    assert_eq!(b.get_render_id_num(), 1);
    assert_eq!(c.get_render_id_num(), 0);
    assert_eq!(a.clone_window_id(), WindowId::First);
    assert_eq!(b.clone_window_id(), WindowId::First);
    assert_eq!(c.clone_window_id(), WindowId::Second);
}

#[test]
fn registered_bundles_carry_their_own_window() {
    let mut sys = RenderSystemSend::new(outs());
    let mut factory = GlFactory::new();
    let packet = make_square_render();
    sys.add_render(WindowId::First, &mut factory, &packet, 900);
    sys.add_render(WindowId::Second, &mut factory, &packet, 901);
    sys.add_render(WindowId::Second, &mut factory, &packet, 902);

    for (slot, b) in sys.bundles_map.first.iter().enumerate() {
        assert_eq!(b.id.clone_window_id(), WindowId::First);
        assert_eq!(b.id.get_render_id_num(), slot);
    }
    for (slot, b) in sys.bundles_map.second.iter().enumerate() {
        assert_eq!(b.id.clone_window_id(), WindowId::Second);
        assert_eq!(b.id.get_render_id_num(), slot);
    }
}

#[test]
fn bundles_take_the_window_targets_and_texture() {
    let mut sys = RenderSystemSend::new(outs());
    let mut factory = GlFactory::new();
    let packet = make_square_render();
    sys.add_render(WindowId::Second, &mut factory, &packet, 777);

    let b = &sys.bundles_map.second[0];
    assert_eq!(b.data.out_color, OutColor { handle: 200 });
    assert_eq!(b.data.out_depth, OutDepth { handle: 201 });
    assert_eq!(b.data.spritesheet_texture, 777);
}

#[test]
fn registry_relay_slot_counts_add_up() {
    // Three registration turns, each holder registering a few drawables,
    // as the relay would interleave them: final counts are the sums and
    // slots within one window are exactly 0, 1, ... with no duplicates.
    let mut sys = RenderSystemSend::new(outs());
    let packet = make_square_render();

    let mut factory_one = GlFactory::new();
    for t in 0..2u64 {
        sys.add_render(WindowId::First, &mut factory_one, &packet, 300 + t);
    }
    let mut factory_two = GlFactory::new();
    for t in 0..3u64 {
        sys.add_render(WindowId::Second, &mut factory_two, &packet, 400 + t);
    }
    for t in 0..1u64 {
        sys.add_render(WindowId::First, &mut factory_one, &packet, 500 + t);
    }

    assert_eq!(sys.bundles_map.first.len(), 3);
    assert_eq!(sys.bundles_map.second.len(), 3);
    for w in [WindowId::First, WindowId::Second] {
        let bundles = sys.bundles_map.get(w);
        for (slot, b) in bundles.iter().enumerate() {
            assert_eq!(b.id.get_render_id_num(), slot);
            assert_eq!(b.id.clone_window_id(), w);
        }
        for i in 0..bundles.len() {
            for j in 0..bundles.len() {
                if i != j {
                    assert_ne!(bundles[i].id, bundles[j].id);
                }
            }
        }
    }
}

#[test]
fn resize_updates_targets_and_nothing_else() {
    let mut sys = RenderSystemSend::new(outs());
    let mut factory = GlFactory::new();
    let packet = make_square_render();
    sys.add_render(WindowId::First, &mut factory, &packet, 900);
    sys.add_render(WindowId::First, &mut factory, &packet, 901);
    sys.add_render(WindowId::Second, &mut factory, &packet, 902);

    let before_first = sys.bundles_map.first.clone();
    let before_second = sys.bundles_map.second.clone();

    let mut renderer = RenderSystem::new(sys);
    let new_color = OutColor { handle: 1100 };
    let new_depth = OutDepth { handle: 1101 };
    renderer.set_graphics_data(WindowId::First, new_color, new_depth);

    assert_eq!(*renderer.sys.outs.get(WindowId::First), (new_color, new_depth));
    for (old, new) in before_first.iter().zip(renderer.sys.bundles_map.first.iter()) {
        assert_eq!(new.data.out_color, new_color);
        assert_eq!(new.data.out_depth, new_depth);
        assert_eq!(new.id, old.id);
        assert_eq!(new.pso, old.pso);
        assert_eq!(new.slice, old.slice);
        assert_eq!(new.data.vbuf, old.data.vbuf);
        assert_eq!(new.data.spritesheet_texture, old.data.spritesheet_texture);
        assert_eq!(new.data.spritesheet_sampler, old.data.spritesheet_sampler);
        assert_eq!(new.data.texture_data, old.data.texture_data);
        assert_eq!(new.data.projection_data, old.data.projection_data);
    }
    assert_eq!(renderer.sys.bundles_map.second, before_second);
}
