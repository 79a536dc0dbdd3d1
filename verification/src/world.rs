//! The component snapshot the simulation owns.
//!
//! The entity-component storage engine is a collaborator outside the
//! library; what the scene encoder consumes is a snapshot of four aligned
//! component columns. Entity `i` of the snapshot owns the `i`th render
//! handle, transform and draw attributes; cameras are their own small
//! column.

use vstd::prelude::*;

use crate::art::{
    spec_tiles_default_tint, spec_tiles_empty_rect, spec_tiles_size, tiles_default_tint,
    tiles_empty_rect, tiles_size, TILES_LAYER,
};
use crate::camera::Camera;
use crate::graphics::Mat4;
use crate::render_data::RenderData;
use crate::render_id::RenderId;
use crate::render_system::{main_count, main_count_upto};
use crate::transform::Transform;
use crate::RenderIds;

verus! {

/// The simulation's world: camera entities and drawable entities, the
/// latter as three aligned component columns.
pub struct World {
    pub cameras: Vec<Camera>,
    pub render_ids: Vec<RenderId>,
    pub transforms: Vec<Transform>,
    pub render_datas: Vec<RenderData>,
}

impl World {
    /// The drawable columns line up.
    pub open spec fn wf(self) -> bool {
        &&& self.render_ids@.len() == self.transforms@.len()
        &&& self.render_ids@.len() == self.render_datas@.len()
    }

    pub fn new() -> (w: World)
        ensures
            w.wf(),
            w.cameras@ == Seq::<Camera>::empty(),
            w.render_ids@ == Seq::<RenderId>::empty(),
            w.transforms@ == Seq::<Transform>::empty(),
            w.render_datas@ == Seq::<RenderData>::empty(),
    {
        World {
            cameras: Vec::new(),
            render_ids: Vec::new(),
            transforms: Vec::new(),
            render_datas: Vec::new(),
        }
    }

    /// Adds one camera entity.
    pub fn create_camera(&mut self, camera: Camera)
        requires
            old(self).wf(),
        ensures
            final(self).wf(),
            final(self).cameras@ == old(self).cameras@.push(camera),
            final(self).render_ids@ == old(self).render_ids@,
            final(self).transforms@ == old(self).transforms@,
            final(self).render_datas@ == old(self).render_datas@,
    {
        self.cameras.push(camera);
    }

    /// Adds one drawable entity with its three components.
    pub fn create_renderable(&mut self, id: RenderId, transform: Transform, data: RenderData)
        requires
            old(self).wf(),
        ensures
            final(self).wf(),
            final(self).cameras@ == old(self).cameras@,
            final(self).render_ids@ == old(self).render_ids@.push(id),
            final(self).transforms@ == old(self).transforms@.push(transform),
            final(self).render_datas@ == old(self).render_datas@.push(data),
    {
        self.render_ids.push(id);
        self.transforms.push(transform);
        self.render_datas.push(data);
    }
}

/// The draw attributes every tile-map drawable starts with.
pub open spec fn spec_initial_tile_data() -> RenderData {
    RenderData {
        layer: TILES_LAYER,
        tint: spec_tiles_default_tint(),
        spritesheet_rect: spec_tiles_empty_rect(),
        spritesheet_size: spec_tiles_size(),
        mirror_x: false,
        mirror_y: false,
        dirty: true,
    }
}

/// The entity set the game starts with: one main camera carrying the given
/// matrices, and one tile-map drawable per registered render handle, at the
/// identity placement with the default tile attributes. Everything starts
/// dirty, so the first frame uploads everything once.
pub fn initial_world(render_ids: &RenderIds, view: Mat4, proj: Mat4) -> (w: World)
    ensures
        w.wf(),
        w.cameras@ == seq![Camera { view, proj, main: true, dirty: true }],
        main_count(w.cameras@) == 1,
        w.render_ids@.len() == render_ids@.len(),
        forall|i: int|
            0 <= i < render_ids@.len() ==> #[trigger] w.render_ids@[i] == render_ids@[i].1,
        forall|i: int|
            0 <= i < render_ids@.len() ==> #[trigger] w.transforms@[i] == (Transform {
                model: Mat4::spec_identity(),
            }),
        forall|i: int|
            0 <= i < render_ids@.len() ==> #[trigger] w.render_datas@[i]
                == spec_initial_tile_data(),
{
    let mut w = World::new();
    w.create_camera(Camera::new(view, proj, true));

    let n = render_ids.len();
    let mut i: usize = 0;
    while i < n
        invariant
            n == render_ids@.len(),
            i <= n,
            w.wf(),
            w.cameras@ == seq![Camera { view, proj, main: true, dirty: true }],
            w.render_ids@.len() == i,
            forall|j: int|
                0 <= j < i ==> #[trigger] w.render_ids@[j] == render_ids@[j].1,
            forall|j: int|
                0 <= j < i ==> #[trigger] w.transforms@[j] == (Transform {
                    model: Mat4::spec_identity(),
                }),
            forall|j: int|
                0 <= j < i ==> #[trigger] w.render_datas@[j] == spec_initial_tile_data(),
        decreases n - i,
    {
        let id = render_ids[i].1;
        w.create_renderable(
            id,
            Transform::new_identity(),
            RenderData::new(TILES_LAYER, tiles_default_tint(), tiles_empty_rect(), tiles_size()),
        );
        i = i + 1;
    }

    proof {
        let s = w.cameras@;
        assert(main_count_upto(s, 0) == 0);
        assert(main_count_upto(s, 1) == 1);
    }
    w
}

} // verus!
