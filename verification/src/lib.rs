//! Core of a multi-window, multi-threaded rendering pipeline.
//!
//! One simulation thread owns the scene state; one render thread per window
//! owns that window's GPU device. The two sides talk only through typed
//! two-way channels, and a shared resource registry is built during startup
//! by handing it from render thread to render thread, one exclusive owner at
//! a time. This crate holds the verified core of that design: the channel
//! ordering discipline, the per-entity dirty-flag bookkeeping, the resource
//! registry, the per-frame scene encoder, the render-thread state machine,
//! and the coordinator's routing rules. The device, window and entity-store
//! collaborators stay outside the library and exchange plain values with it.

use vstd::prelude::*;

pub mod art;
pub mod camera;
pub mod channel;
pub mod control;
pub mod coordinator;
pub mod graphics;
pub mod handle_events;
pub mod render_data;
pub mod render_id;
pub mod render_system;
pub mod render_thread;
pub mod transform;
pub mod window_id;
pub mod world;

use crate::art::RenderType;
use crate::render_id::RenderId;
use crate::window_id::WindowId;

verus! {

/// Key under which the simulation remembers the render handle of one kind of
/// drawable in one window.
#[derive(Clone, Copy, Debug, Hash, PartialEq, Eq, Structural)]
pub struct RenderKey {
    pub window_id: WindowId,
    pub render_const: RenderType,
}

impl RenderKey {
    pub fn new(window_id: WindowId, render_const: RenderType) -> (r: RenderKey)
        ensures
            r.window_id == window_id,
            r.render_const == render_const,
    {
        RenderKey { window_id, render_const }
    }

    pub fn clone_window_id(&self) -> (r: WindowId)
        ensures
            r == self.window_id,
    {
        self.window_id
    }

    pub fn get_window_id(&self) -> (r: &WindowId)
        ensures
            *r == self.window_id,
    {
        &self.window_id
    }
}

/// The simulation's table of render handles, keyed by window and kind.
pub type RenderIds = Vec<(RenderKey, RenderId)>;

} // verus!
