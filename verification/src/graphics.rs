//! Plain-value model of the graphics device layer.
//!
//! Scalar scene data (matrix entries, colour channels, texture coordinates,
//! clear values) is carried as opaque 32-bit device words: the encoder moves
//! these words into command buffers and constant-buffer updates but never
//! computes with them. GPU objects (buffers, pipelines, textures, render
//! targets) are carried as opaque 64-bit handles drawn from a per-device
//! factory. The device itself — the collaborator that resolves handles and
//! executes command buffers — lives outside the library.

use vstd::prelude::*;

use crate::render_id::RenderId;

verus! {

/// Device word holding the zero scalar.
pub const WORD_ZERO: u32 = 0x0000_0000;

/// Device word holding the unit scalar (IEEE single-precision encoding).
pub const WORD_ONE: u32 = 0x3F80_0000;

/// Device word holding one half of the unit scalar.
pub const WORD_HALF: u32 = 0x3F00_0000;

/// Two scene scalars, as device words.
#[derive(Clone, Copy, Debug, Hash, PartialEq, Eq, Structural)]
pub struct Vec2 {
    pub x: u32,
    pub y: u32,
}

/// Three scene scalars, as device words.
#[derive(Clone, Copy, Debug, Hash, PartialEq, Eq, Structural)]
pub struct Vec3 {
    pub x: u32,
    pub y: u32,
    pub z: u32,
}

/// Four scene scalars, as device words. Also used for colours (red, green,
/// blue, alpha) and for sprite-sheet rectangles.
#[derive(Clone, Copy, Debug, Hash, PartialEq, Eq, Structural)]
pub struct Vec4 {
    pub x: u32,
    pub y: u32,
    pub z: u32,
    pub w: u32,
}

/// A four-by-four matrix of device words, stored by rows.
#[derive(Clone, Copy, Debug, Hash, PartialEq, Eq, Structural)]
pub struct Mat4 {
    pub r0: Vec4,
    pub r1: Vec4,
    pub r2: Vec4,
    pub r3: Vec4,
}

impl Mat4 {
    /// The identity matrix: unit words on the diagonal, zero elsewhere.
    pub open spec fn spec_identity() -> Mat4 {
        Mat4 {
            r0: Vec4 { x: WORD_ONE, y: WORD_ZERO, z: WORD_ZERO, w: WORD_ZERO },
            r1: Vec4 { x: WORD_ZERO, y: WORD_ONE, z: WORD_ZERO, w: WORD_ZERO },
            r2: Vec4 { x: WORD_ZERO, y: WORD_ZERO, z: WORD_ONE, w: WORD_ZERO },
            r3: Vec4 { x: WORD_ZERO, y: WORD_ZERO, z: WORD_ZERO, w: WORD_ONE },
        }
    }

    pub fn identity() -> (m: Mat4)
        ensures
            m == Mat4::spec_identity(),
    {
        Mat4 {
            r0: Vec4 { x: WORD_ONE, y: WORD_ZERO, z: WORD_ZERO, w: WORD_ZERO },
            r1: Vec4 { x: WORD_ZERO, y: WORD_ONE, z: WORD_ZERO, w: WORD_ZERO },
            r2: Vec4 { x: WORD_ZERO, y: WORD_ZERO, z: WORD_ONE, w: WORD_ZERO },
            r3: Vec4 { x: WORD_ZERO, y: WORD_ZERO, z: WORD_ZERO, w: WORD_ONE },
        }
    }
}

/// Handle of a texture view resident on one window's device.
pub type RlTexture = u64;

/// Handle of one window's colour render target.
#[derive(Clone, Copy, Debug, Hash, PartialEq, Eq, Structural)]
pub struct OutColor {
    pub handle: u64,
}

/// Handle of one window's depth render target.
#[derive(Clone, Copy, Debug, Hash, PartialEq, Eq, Structural)]
pub struct OutDepth {
    pub handle: u64,
}

/// Per-entity constant-buffer contents: draw attributes that change rarely
/// and are uploaded only when the entity's dirty flag was set.
#[derive(Clone, Copy, Debug, PartialEq, Eq, Structural)]
pub struct TextureData {
    pub tint: Vec4,
    pub spritesheet_rect: Vec4,
    pub spritesheet_size: Vec2,
    pub mirror_x: bool,
    pub mirror_y: bool,
}

/// Per-entity projection constants: uploaded only when the camera was dirty.
#[derive(Clone, Copy, Debug, PartialEq, Eq, Structural)]
pub struct ProjectionData {
    pub model: Mat4,
    pub view: Mat4,
    pub proj: Mat4,
}

/// One recorded GPU call. Commands that act on an entity's resources carry
/// that entity's render handle; the owning device resolves it.
#[derive(Clone, Copy, Debug, PartialEq, Eq, Structural)]
pub enum GpuCommand {
    ClearColor { target: OutColor, color: Vec4 },
    ClearDepth { target: OutDepth, depth: u32 },
    UpdateTextureConstants { id: RenderId, data: TextureData },
    UpdateProjectionConstants { id: RenderId, data: ProjectionData },
    Draw { id: RenderId },
}

/// The command buffer for one frame: an exclusively-owned accumulator of GPU
/// calls. Exactly one party holds it at any time; it travels between the
/// scene encoder and the render thread through the channel, and the render
/// thread drains it on submission.
#[derive(Clone, Debug)]
pub struct Encoder {
    pub commands: Vec<GpuCommand>,
}

impl View for Encoder {
    type V = Seq<GpuCommand>;

    open spec fn view(&self) -> Seq<GpuCommand> {
        self.commands@
    }
}

impl Encoder {
    pub fn new() -> (e: Encoder)
        ensures
            e@ == Seq::<GpuCommand>::empty(),
    {
        Encoder { commands: Vec::new() }
    }

    /// A fresh empty command buffer alongside this one; the device layer
    /// hands out reusable encoders this way.
    pub fn clone_empty(&self) -> (e: Encoder)
        ensures
            e@ == Seq::<GpuCommand>::empty(),
    {
        Encoder { commands: Vec::new() }
    }

    pub fn len(&self) -> (n: usize)
        ensures
            n == self@.len(),
    {
        self.commands.len()
    }

    pub fn clear(&mut self, target: &OutColor, color: Vec4)
        ensures
            final(self)@ == old(self)@.push(GpuCommand::ClearColor { target: *target, color }),
    {
        self.commands.push(GpuCommand::ClearColor { target: *target, color });
    }

    pub fn clear_depth(&mut self, target: &OutDepth, depth: u32)
        ensures
            final(self)@ == old(self)@.push(GpuCommand::ClearDepth { target: *target, depth }),
    {
        self.commands.push(GpuCommand::ClearDepth { target: *target, depth });
    }

    pub fn update_texture_constants(&mut self, id: RenderId, data: TextureData)
        ensures
            final(self)@ == old(self)@.push(GpuCommand::UpdateTextureConstants { id, data }),
    {
        self.commands.push(GpuCommand::UpdateTextureConstants { id, data });
    }

    pub fn update_projection_constants(&mut self, id: RenderId, data: ProjectionData)
        ensures
            final(self)@ == old(self)@.push(GpuCommand::UpdateProjectionConstants { id, data }),
    {
        self.commands.push(GpuCommand::UpdateProjectionConstants { id, data });
    }

    pub fn draw(&mut self, id: RenderId)
        ensures
            final(self)@ == old(self)@.push(GpuCommand::Draw { id }),
    {
        self.commands.push(GpuCommand::Draw { id });
    }

    /// Drains the recorded calls for submission to the device, leaving the
    /// buffer empty for reuse.
    pub fn take_commands(&mut self) -> (cmds: Vec<GpuCommand>)
        ensures
            cmds@ == old(self)@,
            final(self)@ == Seq::<GpuCommand>::empty(),
    {
        let mut taken: Vec<GpuCommand> = Vec::new();
        core::mem::swap(&mut taken, &mut self.commands);
        taken
    }
}

/// Stands for one device's resource factory. Resource creation is modeled as
/// drawing fresh handles; the collaborator that owns the real device gives
/// the handles meaning.
#[derive(Clone, Copy, Debug, PartialEq, Eq, Structural)]
pub struct GlFactory {
    pub next_handle: u64,
}

impl GlFactory {
    pub fn new() -> (f: GlFactory)
        ensures
            f.next_handle == 1,
    {
        GlFactory { next_handle: 1 }
    }

    pub fn alloc_handle(&mut self) -> (h: u64)
        requires
            old(self).next_handle < u64::MAX,
        ensures
            h == old(self).next_handle,
            final(self).next_handle == old(self).next_handle + 1,
    {
        let h = self.next_handle;
        self.next_handle = self.next_handle + 1;
        h
    }
}

/// How primitives are rasterized.
#[derive(Clone, Copy, Debug, PartialEq, Eq, Structural)]
pub enum Rasterizer {
    Fill,
}

impl Rasterizer {
    pub fn new_fill() -> (r: Rasterizer)
        ensures
            r is Fill,
    {
        Rasterizer::Fill
    }
}

/// One vertex of a drawable mesh: position and texture coordinates.
#[derive(Clone, Copy, Debug, PartialEq, Eq, Structural)]
pub struct Vertex {
    pub pos: Vec3,
    pub uv: Vec2,
}

impl Vertex {
    pub fn new(pos: Vec3, uv: Vec2) -> (v: Vertex)
        ensures
            v.pos == pos,
            v.uv == uv,
    {
        Vertex { pos, uv }
    }
}

/// Mesh data for one kind of drawable, ready to be turned into GPU buffers.
#[derive(Clone, Debug)]
pub struct Packet {
    pub vertices: Vec<Vertex>,
    pub indices: Vec<u32>,
    pub rasterizer: Rasterizer,
}

impl Packet {
    pub fn new(vertices: Vec<Vertex>, indices: Vec<u32>, rasterizer: Rasterizer) -> (p: Packet)
        ensures
            p.vertices@ == vertices@,
            p.indices@ == indices@,
            p.rasterizer == rasterizer,
    {
        Packet { vertices, indices, rasterizer }
    }

    pub fn get_vertices(&self) -> (r: &Vec<Vertex>)
        ensures
            r@ == self.vertices@,
    {
        &self.vertices
    }

    pub fn get_indices(&self) -> (r: &Vec<u32>)
        ensures
            r@ == self.indices@,
    {
        &self.indices
    }

    pub fn get_rasterizer(&self) -> (r: Rasterizer)
        ensures
            r == self.rasterizer,
    {
        self.rasterizer
    }
}

/// The GPU-side bindings of one registered drawable: buffer, texture and
/// target handles together with the pipeline state object.
#[derive(Clone, Copy, Debug, PartialEq, Eq, Structural)]
pub struct PipeData {
    pub vbuf: u64,
    pub spritesheet_texture: RlTexture,
    pub spritesheet_sampler: u64,
    pub texture_data: u64,
    pub projection_data: u64,
    pub out_color: OutColor,
    pub out_depth: OutDepth,
}

/// One draw-ready resource bundle in a window's registry: the render handle
/// it answers to, its index-buffer slice, its pipeline state and its bindings.
#[derive(Clone, Copy, Debug, PartialEq, Eq, Structural)]
pub struct Bundle {
    pub id: RenderId,
    pub slice: u64,
    pub pso: u64,
    pub data: PipeData,
}

impl Bundle {
    pub fn new(id: RenderId, slice: u64, pso: u64, data: PipeData) -> (b: Bundle)
        ensures
            b == (Bundle { id, slice, pso, data }),
    {
        Bundle { id, slice, pso, data }
    }

    pub fn get_data(&self) -> (r: &PipeData)
        ensures
            *r == self.data,
    {
        &self.data
    }

    pub fn get_mut_data(&mut self) -> (r: &mut PipeData)
        ensures
            *r == old(self).data,
            *final(self) == (Bundle { data: *final(r), ..*old(self) }),
    {
        &mut self.data
    }

    /// Records the draw call for this bundle's resources.
    pub fn encode(&self, encoder: &mut Encoder)
        ensures
            final(encoder)@ == old(encoder)@.push(GpuCommand::Draw { id: self.id }),
    {
        encoder.draw(self.id);
    }
}

} // verus!
