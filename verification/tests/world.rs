use render_core::control::ControlSystem;
use render_core::graphics::{Mat4, WORD_ONE, WORD_ZERO};
use render_core::render_id::RenderId;
use render_core::window_id::WindowId;
use render_core::world::initial_world;
use render_core::RenderKey;

#[test]
fn render_id_accessors() {
    let id = RenderId::new(WindowId::Second, 5);
    assert_eq!(id.clone_window_id(), WindowId::Second);
    assert_eq!(id.get_render_id_num(), 5);
}

#[test]
fn render_key_accessors() {
    let key = RenderKey::new(WindowId::First, 0);
    assert_eq!(key.clone_window_id(), WindowId::First);
    assert_eq!(*key.get_window_id(), WindowId::First);
}

#[test]
fn initial_world_has_one_main_dirty_camera() {
    let table = vec![(RenderKey::new(WindowId::First, 0), RenderId::new(WindowId::First, 0))];
    let mut w = initial_world(&table, Mat4::identity(), Mat4::identity());
    assert_eq!(w.cameras.len(), 1);
    assert!(w.cameras[0].is_main());
    assert!(w.cameras[0].take_dirty());
}

#[test]
fn initial_world_has_one_renderable_per_handle() {
    let table = vec![
        (RenderKey::new(WindowId::First, 0), RenderId::new(WindowId::First, 0)),
        (RenderKey::new(WindowId::Second, 0), RenderId::new(WindowId::Second, 0)),
    ];
    let w = initial_world(&table, Mat4::identity(), Mat4::identity());
    assert_eq!(w.render_ids.len(), 2);
    assert_eq!(w.transforms.len(), 2);
    assert_eq!(w.render_datas.len(), 2);
    assert_eq!(w.render_ids[0], table[0].1);
    assert_eq!(w.render_ids[1], table[1].1);
    let id_model = Mat4::identity();
    for t in &w.transforms {
        assert_eq!(t.get_model(), id_model);
    }
    for d in &w.render_datas {
        assert_eq!(d.get_layer(), 0);
    }
}

#[test]
fn identity_matrix_words() {
    let m = Mat4::identity();
    assert_eq!((m.r0.x, m.r0.y), (WORD_ONE, WORD_ZERO));
    assert_eq!((m.r1.y, m.r1.z), (WORD_ONE, WORD_ZERO));
    assert_eq!((m.r2.z, m.r2.w), (WORD_ONE, WORD_ZERO));
    assert_eq!((m.r3.w, m.r3.x), (WORD_ONE, WORD_ZERO));
}

#[test]
fn control_system_answers_nothing_yet() {
    let mut control = ControlSystem::new();
    let inbox = vec![(WindowId::First, render_core::control::ToControl::Left(true))];
    let out = control.run(&inbox);
    assert!(out.is_empty());
}
