//! The camera component: view and projection matrices with a pull-based
//! dirty flag.

use vstd::prelude::*;

use crate::graphics::Mat4;

verus! {

/// Camera state of one entity. Exactly one camera entity per world is
/// flagged `main`; the scene encoder draws through that one. The dirty flag
/// follows take-and-clear semantics: every mutation sets it, and the
/// consumer clears it by reading it.
#[derive(Clone, Copy, Debug, PartialEq, Eq, Structural)]
pub struct Camera {
    pub view: Mat4,
    pub proj: Mat4,
    pub main: bool,
    pub dirty: bool,
}

impl Camera {
    /// This camera after its dirty flag has been consumed.
    pub open spec fn cleared(self) -> Camera {
        Camera { dirty: false, ..self }
    }

    /// A fresh camera is dirty: its matrices have never been uploaded.
    pub fn new(view: Mat4, proj: Mat4, main: bool) -> (c: Camera)
        ensures
            c == (Camera { view, proj, main, dirty: true }),
    {
        Camera { view, proj, main, dirty: true }
    }

    pub fn is_main(&self) -> (r: bool)
        ensures
            r == self.main,
    {
        self.main
    }

    pub fn get_view(&self) -> (m: Mat4)
        ensures
            m == self.view,
    {
        self.view
    }

    pub fn get_proj(&self) -> (m: Mat4)
        ensures
            m == self.proj,
    {
        self.proj
    }

    /// Reads and clears the dirty flag in one step.
    pub fn take_dirty(&mut self) -> (r: bool)
        ensures
            r == old(self).dirty,
            *final(self) == old(self).cleared(),
    {
        let r = self.dirty;
        self.dirty = false;
        r
    }

    pub fn set_view(&mut self, view: Mat4)
        ensures
            *final(self) == (Camera { view, dirty: true, ..*old(self) }),
    {
        self.view = view;
        self.dirty = true;
    }

    pub fn set_proj(&mut self, proj: Mat4)
        ensures
            *final(self) == (Camera { proj, dirty: true, ..*old(self) }),
    {
        self.proj = proj;
        self.dirty = true;
    }
}

/// Dirty-flag idempotence for cameras: consuming the flag twice in a row
/// without an intervening mutation reports the stored state first and
/// "clean" second, and any mutation leaves the flag set no matter what it
/// was before.
pub proof fn lemma_camera_take_dirty_idempotent(c: Camera, view: Mat4, proj: Mat4)
    ensures
        c.cleared().dirty == false,
        c.cleared().cleared() == c.cleared(),
        (Camera { view, dirty: true, ..c.cleared() }).dirty,
        (Camera { proj, dirty: true, ..c.cleared() }).dirty,
{
}

} // verus!
