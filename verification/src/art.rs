//! The one piece of art the game ships: a unit square that carries the tile
//! sprite sheet.

use vstd::prelude::*;

use crate::graphics::{
    Packet, Rasterizer, Vec2, Vec3, Vec4, Vertex, WORD_HALF, WORD_ONE, WORD_ZERO,
};

verus! {

/// Tag distinguishing the kinds of drawables the game registers.
pub type RenderType = u8;

/// Kind tag of the tile-map drawable.
pub const TILES_ID: RenderType = 0;

/// Draw-order layer of the tile map: it is drawn below everything else.
pub const TILES_LAYER: u8 = 0;

/// Asset name of the tile sprite sheet.
pub const TILES_NAME: &'static str = "tiles.png";

/// Side length of the tile sprite sheet in texels, as a device word.
pub const TILES_SIZE_WORD: u32 = 0x4380_0000;

/// Width word of the blank tile's source rectangle.
pub const EMPTY_RECT_WIDTH_WORD: u32 = 0x4200_0000;

/// Height word of the blank tile's source rectangle: half a texel short of
/// the full row, to avoid sampling the neighbouring tile.
pub const EMPTY_RECT_HEIGHT_WORD: u32 = 0x41FC_0000;

/// Dimensions of the tile sprite sheet.
pub open spec fn spec_tiles_size() -> Vec2 {
    Vec2 { x: TILES_SIZE_WORD, y: TILES_SIZE_WORD }
}

pub fn tiles_size() -> (s: Vec2)
    ensures
        s == spec_tiles_size(),
{
    Vec2 { x: TILES_SIZE_WORD, y: TILES_SIZE_WORD }
}

/// Default tint of a tile: half intensity on the colour channels, opaque.
pub open spec fn spec_tiles_default_tint() -> Vec4 {
    Vec4 { x: WORD_HALF, y: WORD_HALF, z: WORD_HALF, w: WORD_ONE }
}

pub fn tiles_default_tint() -> (t: Vec4)
    ensures
        t == spec_tiles_default_tint(),
{
    Vec4 { x: WORD_HALF, y: WORD_HALF, z: WORD_HALF, w: WORD_ONE }
}

/// Source rectangle of the blank tile in the sprite sheet.
pub open spec fn spec_tiles_empty_rect() -> Vec4 {
    Vec4 { x: WORD_ZERO, y: WORD_ZERO, z: EMPTY_RECT_WIDTH_WORD, w: EMPTY_RECT_HEIGHT_WORD }
}

pub fn tiles_empty_rect() -> (r: Vec4)
    ensures
        r == spec_tiles_empty_rect(),
{
    Vec4 { x: WORD_ZERO, y: WORD_ZERO, z: EMPTY_RECT_WIDTH_WORD, w: EMPTY_RECT_HEIGHT_WORD }
}

/// The vertices of the unit square, with texture coordinates mirroring the
/// horizontal axis.
pub open spec fn spec_square_vertices() -> Seq<Vertex> {
    seq![
        Vertex {
            pos: Vec3 { x: WORD_ZERO, y: WORD_ZERO, z: WORD_ZERO },
            uv: Vec2 { x: WORD_ONE, y: WORD_ONE },
        },
        Vertex {
            pos: Vec3 { x: WORD_ZERO, y: WORD_ONE, z: WORD_ZERO },
            uv: Vec2 { x: WORD_ONE, y: WORD_ZERO },
        },
        Vertex {
            pos: Vec3 { x: WORD_ONE, y: WORD_ONE, z: WORD_ZERO },
            uv: Vec2 { x: WORD_ZERO, y: WORD_ZERO },
        },
        Vertex {
            pos: Vec3 { x: WORD_ONE, y: WORD_ZERO, z: WORD_ZERO },
            uv: Vec2 { x: WORD_ZERO, y: WORD_ONE },
        },
    ]
}

/// The two triangles of the unit square, as indices into its vertex list.
pub open spec fn spec_square_indices() -> Seq<u32> {
    seq![0u32, 3u32, 2u32, 2u32, 1u32, 0u32]
}

/// Builds the mesh of the square every tile drawable is rendered with.
pub fn make_square_render() -> (p: Packet)
    ensures
        p.vertices@ == spec_square_vertices(),
        p.indices@ == spec_square_indices(),
        p.rasterizer is Fill,
{
    let mut vertices: Vec<Vertex> = Vec::new();
    vertices.push(Vertex::new(
        Vec3 { x: WORD_ZERO, y: WORD_ZERO, z: WORD_ZERO },
        Vec2 { x: WORD_ONE, y: WORD_ONE },
    ));
    vertices.push(Vertex::new(
        Vec3 { x: WORD_ZERO, y: WORD_ONE, z: WORD_ZERO },
        Vec2 { x: WORD_ONE, y: WORD_ZERO },
    ));
    vertices.push(Vertex::new(
        Vec3 { x: WORD_ONE, y: WORD_ONE, z: WORD_ZERO },
        Vec2 { x: WORD_ZERO, y: WORD_ZERO },
    ));
    vertices.push(Vertex::new(
        Vec3 { x: WORD_ONE, y: WORD_ZERO, z: WORD_ZERO },
        Vec2 { x: WORD_ZERO, y: WORD_ONE },
    ));

    let mut indices: Vec<u32> = Vec::new();
    indices.push(0);
    indices.push(3);
    indices.push(2);
    indices.push(2);
    indices.push(1);
    indices.push(0);

    let rasterizer = Rasterizer::new_fill();

    proof {
        assert(vertices@ =~= spec_square_vertices());
        assert(indices@ =~= spec_square_indices());
    }

    Packet::new(vertices, indices, rasterizer)
}

} // verus!
