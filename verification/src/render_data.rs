//! The renderable component: per-entity draw attributes with a pull-based
//! dirty flag.

use vstd::prelude::*;

use crate::graphics::{TextureData, Vec2, Vec4};

verus! {

/// Draw attributes of one drawable entity: its draw-order layer, tint,
/// sprite-sheet source rectangle and sheet size, and mirror flags. The dirty
/// flag follows take-and-clear semantics: every mutation sets it, and the
/// scene encoder clears it when it consumes the attributes, so constant
/// data is re-uploaded only after a change. Draw submission itself is never
/// gated by dirtiness — only the upload is.
#[derive(Clone, Copy, Debug, PartialEq, Eq, Structural)]
pub struct RenderData {
    pub layer: u8,
    pub tint: Vec4,
    pub spritesheet_rect: Vec4,
    pub spritesheet_size: Vec2,
    pub mirror_x: bool,
    pub mirror_y: bool,
    pub dirty: bool,
}

impl RenderData {
    /// This renderable after its dirty flag has been consumed.
    pub open spec fn cleared(self) -> RenderData {
        RenderData { dirty: false, ..self }
    }

    /// The constant-buffer contents the encoder uploads for this renderable.
    pub open spec fn texture_data(self) -> TextureData {
        TextureData {
            tint: self.tint,
            spritesheet_rect: self.spritesheet_rect,
            spritesheet_size: self.spritesheet_size,
            mirror_x: self.mirror_x,
            mirror_y: self.mirror_y,
        }
    }

    /// A fresh renderable is dirty: its attributes have never been uploaded.
    pub fn new(layer: u8, tint: Vec4, spritesheet_rect: Vec4, spritesheet_size: Vec2) -> (r:
        RenderData)
        ensures
            r == (RenderData {
                layer,
                tint,
                spritesheet_rect,
                spritesheet_size,
                mirror_x: false,
                mirror_y: false,
                dirty: true,
            }),
    {
        RenderData {
            layer,
            tint,
            spritesheet_rect,
            spritesheet_size,
            mirror_x: false,
            mirror_y: false,
            dirty: true,
        }
    }

    pub fn get_layer(&self) -> (r: u8)
        ensures
            r == self.layer,
    {
        self.layer
    }

    pub fn get_tint(&self) -> (r: Vec4)
        ensures
            r == self.tint,
    {
        self.tint
    }

    pub fn get_spritesheet_rect(&self) -> (r: Vec4)
        ensures
            r == self.spritesheet_rect,
    {
        self.spritesheet_rect
    }

    pub fn get_spritesheet_size(&self) -> (r: Vec2)
        ensures
            r == self.spritesheet_size,
    {
        self.spritesheet_size
    }

    pub fn get_mirror_x(&self) -> (r: bool)
        ensures
            r == self.mirror_x,
    {
        self.mirror_x
    }

    pub fn get_mirror_y(&self) -> (r: bool)
        ensures
            r == self.mirror_y,
    {
        self.mirror_y
    }

    /// Packs the attributes into the constant-buffer layout.
    pub fn make_texture_data(&self) -> (t: TextureData)
        ensures
            t == self.texture_data(),
    {
        TextureData {
            tint: self.tint,
            spritesheet_rect: self.spritesheet_rect,
            spritesheet_size: self.spritesheet_size,
            mirror_x: self.mirror_x,
            mirror_y: self.mirror_y,
        }
    }

    /// Reads and clears the dirty flag in one step.
    pub fn take_dirty(&mut self) -> (r: bool)
        ensures
            r == old(self).dirty,
            *final(self) == old(self).cleared(),
    {
        let r = self.dirty;
        self.dirty = false;
        r
    }

    pub fn set_layer(&mut self, layer: u8)
        ensures
            *final(self) == (RenderData { layer, dirty: true, ..*old(self) }),
    {
        self.layer = layer;
        self.dirty = true;
    }

    pub fn set_tint(&mut self, tint: Vec4)
        ensures
            *final(self) == (RenderData { tint, dirty: true, ..*old(self) }),
    {
        self.tint = tint;
        self.dirty = true;
    }

    pub fn set_spritesheet_rect(&mut self, spritesheet_rect: Vec4)
        ensures
            *final(self) == (RenderData { spritesheet_rect, dirty: true, ..*old(self) }),
    {
        self.spritesheet_rect = spritesheet_rect;
        self.dirty = true;
    }

    pub fn set_mirror_x(&mut self, mirror_x: bool)
        ensures
            *final(self) == (RenderData { mirror_x, dirty: true, ..*old(self) }),
    {
        self.mirror_x = mirror_x;
        self.dirty = true;
    }

    pub fn set_mirror_y(&mut self, mirror_y: bool)
        ensures
            *final(self) == (RenderData { mirror_y, dirty: true, ..*old(self) }),
    {
        self.mirror_y = mirror_y;
        self.dirty = true;
    }
}

/// Dirty-flag idempotence for renderables: consuming the flag twice in a
/// row without an intervening mutation reports the stored state first and
/// "clean" second, and any mutation leaves the flag set no matter what it
/// was before.
pub proof fn lemma_render_data_take_dirty_idempotent(d: RenderData, tint: Vec4)
    ensures
        d.cleared().dirty == false,
        d.cleared().cleared() == d.cleared(),
        (RenderData { tint, dirty: true, ..d.cleared() }).dirty,
{
}

} // verus!
