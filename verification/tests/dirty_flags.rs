use render_core::camera::Camera;
use render_core::graphics::{Mat4, Vec2, Vec4};
use render_core::render_data::RenderData;

fn tint(v: u32) -> Vec4 {
    Vec4 { x: v, y: v, z: v, w: v }
}

fn some_data() -> RenderData {
    RenderData::new(
        3,
        tint(1),
        Vec4 { x: 0, y: 0, z: 2, w: 2 },
        Vec2 { x: 16, y: 16 },
    )
}

#[test]
fn render_data_starts_dirty() {
    let mut d = some_data();
    assert!(d.take_dirty());
}

#[test]
fn render_data_take_dirty_twice_reads_dirty_then_clean() {
    let mut d = some_data();
    assert!(d.take_dirty());
    assert!(!d.take_dirty());
}

#[test]
fn render_data_mutation_always_sets_dirty() {
    let mut d = some_data();
    let _ = d.take_dirty();
    d.set_tint(tint(7));
    assert!(d.take_dirty());
    let _ = d.take_dirty();
    d.set_spritesheet_rect(Vec4 { x: 1, y: 1, z: 3, w: 3 });
    assert!(d.take_dirty());
    d.set_mirror_x(true);
    d.set_layer(9);
    assert!(d.take_dirty());
    assert!(!d.take_dirty());
}

#[test]
fn render_data_mutation_while_dirty_keeps_dirty() {
    let mut d = some_data();
    d.set_mirror_y(true);
    assert!(d.take_dirty());
    assert!(!d.take_dirty());
}

#[test]
fn camera_take_dirty_twice_reads_dirty_then_clean() {
    let mut c = Camera::new(Mat4::identity(), Mat4::identity(), true);
    assert!(c.take_dirty());
    assert!(!c.take_dirty());
}

#[test]
fn camera_mutation_always_sets_dirty() {
    let mut c = Camera::new(Mat4::identity(), Mat4::identity(), true);
    let _ = c.take_dirty();
    c.set_view(Mat4::identity());
    assert!(c.take_dirty());
    c.set_proj(Mat4::identity());
    assert!(c.take_dirty());
    assert!(!c.take_dirty());
}

#[test]
fn take_dirty_leaves_attributes_alone() {
    let mut d = some_data();
    let _ = d.take_dirty();
    assert_eq!(d.get_layer(), 3);
    assert_eq!(d.get_tint(), tint(1));
    assert_eq!(d.get_spritesheet_size(), Vec2 { x: 16, y: 16 });
    assert!(!d.get_mirror_x());
    assert!(!d.get_mirror_y());
}
