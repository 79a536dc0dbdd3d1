//! The transform component: one entity's model matrix.

use vstd::prelude::*;

use crate::graphics::Mat4;

verus! {

/// Placement of one entity in the scene.
#[derive(Clone, Copy, Debug, PartialEq, Eq, Structural)]
pub struct Transform {
    pub model: Mat4,
}

impl Transform {
    pub fn new(model: Mat4) -> (t: Transform)
        ensures
            t.model == model,
    {
        Transform { model }
    }

    pub fn new_identity() -> (t: Transform)
        ensures
            t.model == Mat4::spec_identity(),
    {
        Transform { model: Mat4::identity() }
    }

    pub fn get_model(&self) -> (m: Mat4)
        ensures
            m == self.model,
    {
        self.model
    }
}

} // verus!
