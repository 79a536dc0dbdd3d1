use render_core::art::{
    make_square_render, tiles_default_tint, tiles_empty_rect, tiles_size, EMPTY_RECT_HEIGHT_WORD,
    EMPTY_RECT_WIDTH_WORD, TILES_LAYER, TILES_NAME, TILES_SIZE_WORD,
};
use render_core::graphics::{Rasterizer, WORD_HALF, WORD_ONE, WORD_ZERO};

#[test]
fn device_words_encode_the_intended_scalars() {
    assert_eq!(WORD_ZERO, 0.0f32.to_bits());
    assert_eq!(WORD_ONE, 1.0f32.to_bits());
    assert_eq!(WORD_HALF, 0.5f32.to_bits());
    assert_eq!(TILES_SIZE_WORD, 256.0f32.to_bits());
    assert_eq!(EMPTY_RECT_WIDTH_WORD, 32.0f32.to_bits());
    assert_eq!(EMPTY_RECT_HEIGHT_WORD, 31.5f32.to_bits());
}

#[test]
fn square_render_has_expected_mesh() {
    let p = make_square_render();
    let vs = p.get_vertices();
    assert_eq!(vs.len(), 4);

    let expected_pos = [
        [WORD_ZERO, WORD_ZERO, WORD_ZERO],
        [WORD_ZERO, WORD_ONE, WORD_ZERO],
        [WORD_ONE, WORD_ONE, WORD_ZERO],
        [WORD_ONE, WORD_ZERO, WORD_ZERO],
    ];
    let expected_uv = [
        [WORD_ONE, WORD_ONE],
        [WORD_ONE, WORD_ZERO],
        [WORD_ZERO, WORD_ZERO],
        [WORD_ZERO, WORD_ONE],
    ];
    for i in 0..4 {
        assert_eq!([vs[i].pos.x, vs[i].pos.y, vs[i].pos.z], expected_pos[i]);
        assert_eq!([vs[i].uv.x, vs[i].uv.y], expected_uv[i]);
    }

    assert_eq!(p.get_indices().as_slice(), &[0, 3, 2, 2, 1, 0]);
    assert_eq!(p.get_rasterizer(), Rasterizer::Fill);
}

#[test]
fn tile_constants() {
    assert_eq!(TILES_LAYER, 0);
    assert_eq!(TILES_NAME, "tiles.png");
    let size = tiles_size();
    assert_eq!((size.x, size.y), (TILES_SIZE_WORD, TILES_SIZE_WORD));
    let t = tiles_default_tint();
    assert_eq!((t.x, t.y, t.z, t.w), (WORD_HALF, WORD_HALF, WORD_HALF, WORD_ONE));
    let r = tiles_empty_rect();
    assert_eq!(
        (r.x, r.y, r.z, r.w),
        (WORD_ZERO, WORD_ZERO, EMPTY_RECT_WIDTH_WORD, EMPTY_RECT_HEIGHT_WORD)
    );
}
