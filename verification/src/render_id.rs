//! Render handles: the stable address of one drawable entity's GPU resources.

use vstd::prelude::*;

use crate::window_id::WindowId;

verus! {

/// Identifies one drawable entity's GPU-resident resources: the window that
/// holds them and the slot index in that window's ordered resource list. A
/// slot index is the position at which the resources were registered; it is
/// stable for the lifetime of the process and never reused.
#[derive(Clone, Copy, Debug, Hash, PartialEq, Eq, Structural)]
pub struct RenderId {
    pub window_id: WindowId,
    pub render_id_num: usize,
}

impl RenderId {
    pub fn new(window_id: WindowId, render_id_num: usize) -> (r: RenderId)
        ensures
            r.window_id == window_id,
            r.render_id_num == render_id_num,
    {
        RenderId { window_id, render_id_num }
    }

    pub fn clone_window_id(&self) -> (r: WindowId)
        ensures
            r == self.window_id,
    {
        self.window_id
    }

    pub fn get_render_id_num(&self) -> (r: usize)
        ensures
            r == self.render_id_num,
    {
        self.render_id_num
    }
}

} // verus!
