//! The render system: the per-window registry of draw-ready resource
//! bundles, and the per-frame scene encoder.
//!
//! The registry half (`RenderSystemSend`) is the movable object that travels
//! from render thread to render thread during the startup handoff: whoever
//! holds it registers that window's drawables with that window's own factory
//! and passes the whole object on. Every bundle is appended at the next free
//! slot of its window, so a render handle's window tag and slot index name
//! its bundle for good.
//!
//! The encoder half (`RenderSystem`) consumes one component snapshot per
//! simulation tick and window: it clears the window's targets, reads the
//! main camera, collects one draw item per renderable of that window —
//! uploading constant data only where a dirty flag was taken — sorts the
//! items by layer (slot index breaks ties), and records the commands into
//! the command buffer it was handed, addressed back to the same window.

use vstd::prelude::*;
use vstd::seq_lib::group_to_multiset_ensures;

use crate::camera::Camera;
use crate::graphics::{
    Bundle, Encoder, GlFactory, GpuCommand, Mat4, OutColor, OutDepth, Packet, PipeData,
    ProjectionData, RlTexture, TextureData, Vec4, WORD_ONE, WORD_ZERO,
};
use crate::render_data::RenderData;
use crate::render_id::RenderId;
use crate::transform::Transform;
use crate::window_id::{PerWindow, WindowId};

verus! {

/// Messages the simulation side sends toward a window's renderer: either the
/// window's (possibly new) output targets, or a command buffer to fill.
pub enum ToRender {
    GraphicsData(OutColor, OutDepth),
    Encoder(Encoder),
}

/// Messages a window's renderer sends back: the filled command buffer.
pub enum FromRender {
    Encoder(Encoder),
}

/// A `ToRender` tagged with the window it is routed to.
pub type WindowedToRender = (WindowId, ToRender);

/// A `FromRender` tagged with the window it came from.
pub type WindowedFromRender = (WindowId, FromRender);

/// Depth-clear word: the far plane.
pub const DEPTH_CLEAR_WORD: u32 = WORD_ONE;

/// Each window clears to its own fixed colour, purely to tell the windows
/// apart: the first window clears to red, the second to blue.
pub open spec fn spec_clear_color(w: WindowId) -> Vec4 {
    match w {
        WindowId::First => Vec4 { x: WORD_ONE, y: WORD_ZERO, z: WORD_ZERO, w: WORD_ONE },
        WindowId::Second => Vec4 { x: WORD_ZERO, y: WORD_ZERO, z: WORD_ONE, w: WORD_ONE },
    }
}

pub fn clear_color(w: WindowId) -> (c: Vec4)
    ensures
        c == spec_clear_color(w),
{
    match w {
        WindowId::First => Vec4 { x: WORD_ONE, y: WORD_ZERO, z: WORD_ZERO, w: WORD_ONE },
        WindowId::Second => Vec4 { x: WORD_ZERO, y: WORD_ZERO, z: WORD_ONE, w: WORD_ONE },
    }
}

/// Every bundle in a window's list answers to the render handle made of that
/// window and the bundle's own position: slots are append-only and never
/// reused, and no bundle ever names another window.
pub open spec fn bundles_wf(bundles: Seq<Bundle>, w: WindowId) -> bool {
    forall|i: int|
        0 <= i < bundles.len() ==> {
            &&& (#[trigger] bundles[i]).id.window_id == w
            &&& bundles[i].id.render_id_num == i
        }
}

/// The bundle `add_render` builds when the factory's next fresh handle is
/// `h`: the vertex buffer, sampler, slice and the two constant buffers are
/// fresh resources; the texture comes from the caller; the output targets
/// are the window's current ones.
pub open spec fn spec_new_bundle(
    id: RenderId,
    h: u64,
    texture: RlTexture,
    out_color: OutColor,
    out_depth: OutDepth,
) -> Bundle {
    Bundle {
        id,
        slice: (h + 5) as u64,
        pso: (h + 2) as u64,
        data: PipeData {
            vbuf: (h + 4) as u64,
            spritesheet_texture: texture,
            spritesheet_sampler: (h + 3) as u64,
            texture_data: (h + 6) as u64,
            projection_data: (h + 7) as u64,
            out_color,
            out_depth,
        },
    }
}

/// The registry: per-window output targets and per-window bundle lists.
/// This is the single-owner object of the startup handoff.
pub struct RenderSystemSend {
    pub outs: PerWindow<(OutColor, OutDepth)>,
    pub bundles_map: PerWindow<Vec<Bundle>>,
}

impl RenderSystemSend {
    /// Cross-window isolation of the registry, see `bundles_wf`.
    pub open spec fn wf(self) -> bool {
        &&& bundles_wf(self.bundles_map.first@, WindowId::First)
        &&& bundles_wf(self.bundles_map.second@, WindowId::Second)
    }

    pub open spec fn spec_bundles(self, w: WindowId) -> Seq<Bundle> {
        self.bundles_map.spec_get(w)@
    }

    /// A fresh registry for the given output targets, with no drawable
    /// registered yet.
    pub fn new(outs: PerWindow<(OutColor, OutDepth)>) -> (r: RenderSystemSend)
        ensures
            r.wf(),
            r.outs == outs,
            r.spec_bundles(WindowId::First) == Seq::<Bundle>::empty(),
            r.spec_bundles(WindowId::Second) == Seq::<Bundle>::empty(),
    {
        RenderSystemSend { outs, bundles_map: PerWindow::new(Vec::new(), Vec::new()) }
    }

    /// Registers one drawable in `window_id`'s list: builds its GPU
    /// resources through that window's own factory and appends the bundle at
    /// the next free slot. The returned handle names this window and that
    /// slot — never another window's resources.
    pub fn add_render(
        &mut self,
        window_id: WindowId,
        factory: &mut GlFactory,
        packet: &Packet,
        texture: RlTexture,
    ) -> (id: RenderId)
        requires
            old(self).wf(),
            old(factory).next_handle + 8 <= u64::MAX,
            old(self).spec_bundles(window_id).len() < usize::MAX,
        ensures
            final(self).wf(),
            id.window_id == window_id,
            id.render_id_num == old(self).spec_bundles(window_id).len(),
            final(self).spec_bundles(window_id) == old(self).spec_bundles(window_id).push(
                spec_new_bundle(
                    id,
                    old(factory).next_handle,
                    texture,
                    old(self).outs.spec_get(window_id).0,
                    old(self).outs.spec_get(window_id).1,
                ),
            ),
            forall|w: WindowId|
                w != window_id ==> #[trigger] final(self).spec_bundles(w) == old(self).spec_bundles(w),
            final(self).outs == old(self).outs,
            final(factory).next_handle == old(factory).next_handle + 8,
    {
        let _shader_set = factory.alloc_handle();
        let _program = factory.alloc_handle();
        let pso = factory.alloc_handle();
        let sampler = factory.alloc_handle();
        let vbuf = factory.alloc_handle();
        let slice = factory.alloc_handle();
        let texture_data = factory.alloc_handle();
        let projection_data = factory.alloc_handle();

        let out_pair = *self.outs.get(window_id);

        let data = PipeData {
            vbuf,
            spritesheet_texture: texture,
            spritesheet_sampler: sampler,
            texture_data,
            projection_data,
            out_color: out_pair.0,
            out_depth: out_pair.1,
        };

        let bundles = self.bundles_map.get_mut(window_id);
        let slot = bundles.len();
        let id = RenderId::new(window_id, slot);
        bundles.push(Bundle::new(id, slice, pso, data));

        proof {
            assert(final(self).spec_bundles(window_id) =~= old(self).spec_bundles(
                window_id,
            ).push(
                spec_new_bundle(
                    id,
                    old(factory).next_handle,
                    texture,
                    old(self).outs.spec_get(window_id).0,
                    old(self).outs.spec_get(window_id).1,
                ),
            ));
        }

        id
    }
}

/// One entry of the per-frame draw list: which resources to draw, at which
/// layer, and which constant data — if any — to upload first.
#[derive(Clone, Copy, Debug)]
pub struct DrawItem {
    pub id: RenderId,
    pub layer: u8,
    pub texture: Option<TextureData>,
    pub projection: Option<ProjectionData>,
}

/// Draw order: layer is the primary key; the slot index is the documented,
/// deterministic tie-break among equal layers.
pub open spec fn draw_le(a: DrawItem, b: DrawItem) -> bool {
    ||| a.layer < b.layer
    ||| (a.layer == b.layer && a.id.render_id_num <= b.id.render_id_num)
}

/// The draw list is in draw order.
pub open spec fn sorted_items(s: Seq<DrawItem>) -> bool {
    forall|i: int, j: int| 0 <= i < j < s.len() ==> draw_le(#[trigger] s[i], #[trigger] s[j])
}

fn draw_le_exec(a: &DrawItem, b: &DrawItem) -> (r: bool)
    ensures
        r == draw_le(*a, *b),
{
    a.layer < b.layer || (a.layer == b.layer && a.id.render_id_num <= b.id.render_id_num)
}

/// Sorts a draw list into draw order. The result is a permutation of the
/// input: no item is dropped, duplicated or altered.
pub fn sort_draw_items(items: Vec<DrawItem>) -> (r: Vec<DrawItem>)
    ensures
        sorted_items(r@),
        r@.to_multiset() == items@.to_multiset(),
        r@.len() == items@.len(),
{
    broadcast use group_to_multiset_ensures;
    broadcast use vstd::multiset::group_multiset_axioms;

    let mut rest = items;
    let mut out: Vec<DrawItem> = Vec::new();

    proof {
        assert(out@.to_multiset().add(rest@.to_multiset()) =~= items@.to_multiset());
    }

    while rest.len() > 0
        invariant
            sorted_items(out@),
            forall|i: int, j: int|
                0 <= i < out@.len() && 0 <= j < rest@.len() ==> draw_le(
                    #[trigger] out@[i],
                    #[trigger] rest@[j],
                ),
            out@.to_multiset().add(rest@.to_multiset()) == items@.to_multiset(),
            out@.len() + rest@.len() == items@.len(),
        decreases rest@.len(),
    {
        broadcast use group_to_multiset_ensures;
        broadcast use vstd::multiset::group_multiset_axioms;

        // Find the least remaining item in draw order.
        let mut m: usize = 0;
        let mut k: usize = 1;
        while k < rest.len()
            invariant
                0 < rest@.len(),
                m < k,
                k <= rest@.len(),
                forall|t: int| 0 <= t < k ==> draw_le(rest@[m as int], #[trigger] rest@[t]),
            decreases rest@.len() - k,
        {
            if draw_le_exec(&rest[k], &rest[m]) {
                m = k;
            }
            k = k + 1;
        }

        let ghost old_out = out@;
        let ghost old_rest = rest@;

        let x = rest.remove(m);
        out.push(x);

        proof {
            // The removed minimum keeps both orderedness invariants.
            assert(forall|j: int|
                0 <= j < rest@.len() ==> draw_le(x, #[trigger] rest@[j]));
            assert(forall|i: int|
                0 <= i < out@.len() ==> draw_le(#[trigger] out@[i], x));
            assert(sorted_items(out@)) by {
                assert(forall|i: int, j: int|
                    0 <= i < j < out@.len() && j < out@.len() - 1 ==> draw_le(
                        #[trigger] out@[i],
                        #[trigger] out@[j],
                    ));
            }
            // Multiset bookkeeping: moving one element across.
            assert(rest@.to_multiset() == old_rest.to_multiset().remove(x));
            assert(out@.to_multiset() == old_out.to_multiset().insert(x));
            assert(out@.to_multiset().add(rest@.to_multiset()) =~= items@.to_multiset()) by {
                assert(old_rest.to_multiset().count(x) > 0) by {
                    assert(old_rest.contains(x));
                }
                assert(forall|y: DrawItem|
                    #[trigger] out@.to_multiset().add(rest@.to_multiset()).count(y)
                        == old_out.to_multiset().add(old_rest.to_multiset()).count(y));
            }
        }
    }

    proof {
        assert(out@.to_multiset() =~= items@.to_multiset()) by {
            assert(rest@.to_multiset().len() == 0);
            assert(forall|y: DrawItem| #[trigger] rest@.to_multiset().count(y) == 0);
        }
    }

    out
}

/// The scene encoder: drives the registry against component snapshots.
pub struct RenderSystem {
    pub sys: RenderSystemSend,
}

impl RenderSystem {
    pub fn new(send: RenderSystemSend) -> (r: RenderSystem)
        ensures
            r.sys == send,
    {
        RenderSystem { sys: send }
    }

    /// Swaps in new output targets after a resize: the window's stored
    /// target pair and every registered bundle's target references change;
    /// nothing else about any bundle — buffers, pipeline, texture — moves,
    /// and the other window is untouched.
    pub fn set_graphics_data(&mut self, window_id: WindowId, out_color: OutColor, out_depth: OutDepth)
        requires
            old(self).sys.wf(),
        ensures
            final(self).sys.wf(),
            final(self).sys.outs == old(self).sys.outs.spec_set(window_id, (out_color, out_depth)),
            final(self).sys.spec_bundles(window_id).len() == old(self).sys.spec_bundles(
                window_id,
            ).len(),
            forall|i: int|
                0 <= i < old(self).sys.spec_bundles(window_id).len() ==> #[trigger] final(self).sys.spec_bundles(window_id)[i] == (Bundle {
                    data: PipeData {
                        out_color,
                        out_depth,
                        ..old(self).sys.spec_bundles(window_id)[i].data
                    },
                    ..old(self).sys.spec_bundles(window_id)[i]
                }),
            forall|w: WindowId|
                w != window_id ==> #[trigger] final(self).sys.spec_bundles(w) == old(self).sys.spec_bundles(w),
    {
        self.sys.outs.set(window_id, (out_color, out_depth));

        let bundles = self.sys.bundles_map.get_mut(window_id);
        let n = bundles.len();
        let mut i: usize = 0;
        while i < n
            invariant
                n == bundles@.len(),
                i <= n,
                bundles@.len() == old(self).sys.spec_bundles(window_id).len(),
                forall|j: int|
                    i <= j < n ==> #[trigger] bundles@[j] == old(self).sys.spec_bundles(
                        window_id,
                    )[j],
                forall|j: int|
                    0 <= j < i ==> #[trigger] bundles@[j] == (Bundle {
                        data: PipeData {
                            out_color,
                            out_depth,
                            ..old(self).sys.spec_bundles(window_id)[j].data
                        },
                        ..old(self).sys.spec_bundles(window_id)[j]
                    }),
            decreases n - i,
        {
            let b = &mut bundles[i];
            let d = b.get_mut_data();
            d.out_color = out_color;
            d.out_depth = out_depth;
            i = i + 1;
        }
    }
}

/// Number of cameras flagged main among the first `n`.
pub open spec fn main_count_upto(s: Seq<Camera>, n: int) -> int
    decreases n,
{
    if n <= 0 {
        0
    } else {
        main_count_upto(s, n - 1) + if s[n - 1].main {
            1int
        } else {
            0int
        }
    }
}

/// Number of cameras flagged main. The scene encoder demands exactly one:
/// zero or several authoritative cameras is a fatal invariant violation,
/// which the caller rules out before asking for a frame.
pub open spec fn main_count(s: Seq<Camera>) -> int {
    main_count_upto(s, s.len() as int)
}

/// Index of the single main camera.
pub open spec fn the_main(s: Seq<Camera>) -> int {
    choose|i: int| 0 <= i < s.len() && s[i].main
}

proof fn lemma_main_count_nonneg(s: Seq<Camera>, n: int)
    ensures
        main_count_upto(s, n) >= 0,
    decreases n,
{
    if n > 0 {
        lemma_main_count_nonneg(s, n - 1);
    }
}

proof fn lemma_main_count_monotone(s: Seq<Camera>, i: int, j: int)
    requires
        i <= j,
    ensures
        main_count_upto(s, i) <= main_count_upto(s, j),
    decreases j - i,
{
    if i < j {
        lemma_main_count_monotone(s, i, j - 1);
    }
}

proof fn lemma_two_mains(s: Seq<Camera>, i: int, j: int)
    requires
        0 <= i < j < s.len(),
        s[i].main,
        s[j].main,
    ensures
        main_count(s) >= 2,
{
    lemma_main_count_nonneg(s, i);
    lemma_main_count_monotone(s, i + 1, j);
    lemma_main_count_monotone(s, j + 1, s.len() as int);
}

/// With exactly one camera flagged main, any two main indices coincide.
pub proof fn lemma_main_unique(s: Seq<Camera>, i: int, j: int)
    requires
        main_count(s) == 1,
        0 <= i < s.len(),
        0 <= j < s.len(),
        s[i].main,
        s[j].main,
    ensures
        i == j,
{
    if i < j {
        lemma_two_mains(s, i, j);
    } else if j < i {
        lemma_two_mains(s, j, i);
    }
}

/// Scans the camera components for the one flagged main, keeping the last
/// match; with exactly one main, that is the only match.
fn find_main_camera(cameras: &Vec<Camera>) -> (mi: usize)
    requires
        main_count(cameras@) == 1,
    ensures
        mi < cameras@.len(),
        cameras@[mi as int].main,
        mi as int == the_main(cameras@),
{
    let ghost s = cameras@;
    let n = cameras.len();
    let mut found: Option<usize> = None;
    let mut i: usize = 0;
    while i < n
        invariant
            n == s.len(),
            i <= n,
            s == cameras@,
            main_count(s) == 1,
            match found {
                Some(k) => k < i && s[k as int].main && main_count_upto(s, i as int) == 1,
                None => main_count_upto(s, i as int) == 0,
            },
        decreases n - i,
    {
        if cameras[i].is_main() {
            proof {
                if found is Some {
                    lemma_main_count_nonneg(s, i as int);
                    lemma_main_count_monotone(s, i as int + 1, s.len() as int);
                    assert(false);
                }
            }
            found = Some(i);
        }
        i = i + 1;
    }
    match found {
        Some(k) => {
            proof {
                assert(exists|t: int| 0 <= t < s.len() && s[t].main) by {
                    assert((k as int) < s.len() && s[k as int].main);
                }
                lemma_main_unique(s, k as int, the_main(s));
            }
            k
        },
        None => {
            proof {
                assert(false);
            }
            vstd::pervasive::unreached()
        },
    }
}

/// The draw item the encoder builds for one renderable of the frame's
/// window: fresh texture constants exactly if the renderable's dirty flag
/// was set, fresh projection constants exactly if the camera was dirty.
pub open spec fn spec_draw_item(
    id: RenderId,
    t: Transform,
    rd: RenderData,
    view: Mat4,
    proj: Mat4,
    cam_dirty: bool,
) -> DrawItem {
    DrawItem {
        id,
        layer: rd.layer,
        texture: if rd.dirty {
            Some(rd.texture_data())
        } else {
            None
        },
        projection: if cam_dirty {
            Some(ProjectionData { model: t.model, view, proj })
        } else {
            None
        },
    }
}

/// The draw items of the first `n` entities whose render handle names `w`,
/// in entity order.
pub open spec fn frame_items_upto(
    w: WindowId,
    ids: Seq<RenderId>,
    ts: Seq<Transform>,
    rds: Seq<RenderData>,
    view: Mat4,
    proj: Mat4,
    cam_dirty: bool,
    n: int,
) -> Seq<DrawItem>
    decreases n,
{
    if n <= 0 {
        Seq::empty()
    } else {
        let rest = frame_items_upto(w, ids, ts, rds, view, proj, cam_dirty, n - 1);
        if ids[n - 1].window_id == w {
            rest.push(spec_draw_item(ids[n - 1], ts[n - 1], rds[n - 1], view, proj, cam_dirty))
        } else {
            rest
        }
    }
}

/// The draw items of one frame of window `w`, in entity order.
pub open spec fn frame_items(
    w: WindowId,
    ids: Seq<RenderId>,
    ts: Seq<Transform>,
    rds: Seq<RenderData>,
    view: Mat4,
    proj: Mat4,
    cam_dirty: bool,
) -> Seq<DrawItem> {
    frame_items_upto(w, ids, ts, rds, view, proj, cam_dirty, ids.len() as int)
}

/// The commands one draw item expands to: the optional constant uploads,
/// then the draw call.
pub open spec fn item_cmds(it: DrawItem) -> Seq<GpuCommand> {
    (match it.texture {
        Some(d) => seq![GpuCommand::UpdateTextureConstants { id: it.id, data: d }],
        None => Seq::<GpuCommand>::empty(),
    }) + (match it.projection {
        Some(d) => seq![GpuCommand::UpdateProjectionConstants { id: it.id, data: d }],
        None => Seq::<GpuCommand>::empty(),
    }) + seq![GpuCommand::Draw { id: it.id }]
}

/// The commands of the first `n` draw items, in item order.
pub open spec fn emit_cmds_upto(items: Seq<DrawItem>, n: int) -> Seq<GpuCommand>
    decreases n,
{
    if n <= 0 {
        Seq::empty()
    } else {
        emit_cmds_upto(items, n - 1) + item_cmds(items[n - 1])
    }
}

/// The commands of a whole draw list, in item order.
pub open spec fn emit_cmds(items: Seq<DrawItem>) -> Seq<GpuCommand> {
    emit_cmds_upto(items, items.len() as int)
}

/// The two clears that open every frame of window `w`.
pub open spec fn clear_cmds(w: WindowId, outs: PerWindow<(OutColor, OutDepth)>) -> Seq<
    GpuCommand,
> {
    seq![
        GpuCommand::ClearColor { target: outs.spec_get(w).0, color: spec_clear_color(w) },
        GpuCommand::ClearDepth { target: outs.spec_get(w).1, depth: DEPTH_CLEAR_WORD },
    ]
}

/// A draw item of window `w` addresses resources registered in `w`'s list.
pub open spec fn item_for_window(it: DrawItem, w: WindowId, sys: RenderSystemSend) -> bool {
    &&& it.id.window_id == w
    &&& it.id.render_id_num < sys.spec_bundles(w).len()
}

/// Cross-window isolation of one command: it touches only window `w`'s
/// targets or resources registered in `w`'s list.
pub open spec fn cmd_for_window(c: GpuCommand, w: WindowId, sys: RenderSystemSend) -> bool {
    match c {
        GpuCommand::ClearColor { target, .. } => target == sys.outs.spec_get(w).0,
        GpuCommand::ClearDepth { target, .. } => target == sys.outs.spec_get(w).1,
        GpuCommand::UpdateTextureConstants { id, .. } => id.window_id == w
            && id.render_id_num < sys.spec_bundles(w).len(),
        GpuCommand::UpdateProjectionConstants { id, .. } => id.window_id == w
            && id.render_id_num < sys.spec_bundles(w).len(),
        GpuCommand::Draw { id } => id.window_id == w && id.render_id_num < sys.spec_bundles(
            w,
        ).len(),
    }
}

/// What the encoder needs of a snapshot before it can encode window `w`:
/// exactly one main camera, aligned component columns, and every renderable
/// of `w` registered in the registry.
pub open spec fn frame_ready(
    sys: RenderSystemSend,
    w: WindowId,
    ids: Seq<RenderId>,
    ts: Seq<Transform>,
    cams: Seq<Camera>,
    rds: Seq<RenderData>,
) -> bool {
    &&& main_count(cams) == 1
    &&& ids.len() == ts.len()
    &&& ids.len() == rds.len()
    &&& forall|i: int|
        0 <= i < ids.len() && (#[trigger] ids[i]).window_id == w ==> ids[i].render_id_num
            < sys.spec_bundles(w).len()
}

/// What one frame of window `w` does, relating the snapshot and command
/// buffer before the call to those after it: the main camera's dirty flag
/// is consumed; the dirty flag of every renderable of `w` is consumed and
/// no other component moves; and the commands grow by the two clears
/// followed by the expansion of some draw-ordered permutation of the
/// frame's draw items — all of them addressing window `w` alone.
pub open spec fn frame_result(
    sys: RenderSystemSend,
    w: WindowId,
    ids: Seq<RenderId>,
    ts: Seq<Transform>,
    old_cams: Seq<Camera>,
    old_rds: Seq<RenderData>,
    new_cams: Seq<Camera>,
    new_rds: Seq<RenderData>,
    enc_in: Seq<GpuCommand>,
    enc_out: Seq<GpuCommand>,
) -> bool {
    let mi = the_main(old_cams);
    let cam = old_cams[mi];
    &&& new_cams == old_cams.update(mi, cam.cleared())
    &&& new_rds.len() == old_rds.len()
    &&& (forall|i: int|
        0 <= i < old_rds.len() ==> #[trigger] new_rds[i] == if ids[i].window_id == w {
            old_rds[i].cleared()
        } else {
            old_rds[i]
        })
    &&& (exists|perm: Seq<DrawItem>|
        {
            &&& #[trigger] perm.to_multiset() == frame_items(
                w,
                ids,
                ts,
                old_rds,
                cam.view,
                cam.proj,
                cam.dirty,
            ).to_multiset()
            &&& sorted_items(perm)
            &&& enc_out == enc_in + clear_cmds(w, sys.outs) + emit_cmds(perm)
        })
    &&& (forall|k: int|
        enc_in.len() <= k < enc_out.len() ==> cmd_for_window(#[trigger] enc_out[k], w, sys))
}

/// Every draw item of a frame of `w` addresses `w`'s registered resources.
proof fn lemma_frame_items_for_window(
    sys: RenderSystemSend,
    w: WindowId,
    ids: Seq<RenderId>,
    ts: Seq<Transform>,
    rds: Seq<RenderData>,
    view: Mat4,
    proj: Mat4,
    cam_dirty: bool,
    n: int,
)
    requires
        n <= ids.len(),
        forall|i: int|
            0 <= i < ids.len() && (#[trigger] ids[i]).window_id == w ==> ids[i].render_id_num
                < sys.spec_bundles(w).len(),
    ensures
        forall|p: int|
            0 <= p < frame_items_upto(w, ids, ts, rds, view, proj, cam_dirty, n).len()
                ==> item_for_window(
                #[trigger] frame_items_upto(w, ids, ts, rds, view, proj, cam_dirty, n)[p],
                w,
                sys,
            ),
    decreases n,
{
    if n > 0 {
        lemma_frame_items_for_window(sys, w, ids, ts, rds, view, proj, cam_dirty, n - 1);
        let rest = frame_items_upto(w, ids, ts, rds, view, proj, cam_dirty, n - 1);
        let cur = frame_items_upto(w, ids, ts, rds, view, proj, cam_dirty, n);
        if ids[n - 1].window_id == w {
            let it = spec_draw_item(ids[n - 1], ts[n - 1], rds[n - 1], view, proj, cam_dirty);
            assert(cur == rest.push(it));
            assert(item_for_window(it, w, sys));
            assert forall|p: int| 0 <= p < cur.len() implies item_for_window(
                #[trigger] cur[p],
                w,
                sys,
            ) by {
                if p < rest.len() {
                    assert(cur[p] == rest[p]);
                } else {
                    assert(cur[p] == it);
                }
            }
        }
    }
}

/// A permutation keeps `item_for_window`.
proof fn lemma_perm_items_for_window(
    a: Seq<DrawItem>,
    b: Seq<DrawItem>,
    w: WindowId,
    sys: RenderSystemSend,
)
    requires
        a.to_multiset() == b.to_multiset(),
        forall|p: int| 0 <= p < b.len() ==> item_for_window(#[trigger] b[p], w, sys),
    ensures
        forall|p: int| 0 <= p < a.len() ==> item_for_window(#[trigger] a[p], w, sys),
{
    broadcast use group_to_multiset_ensures;

    assert forall|p: int| 0 <= p < a.len() implies item_for_window(#[trigger] a[p], w, sys) by {
        let x = a[p];
        assert(a.contains(x));
        assert(a.to_multiset().count(x) > 0);
        assert(b.to_multiset().count(x) > 0);
        assert(b.contains(x));
        let q = choose|q: int| 0 <= q < b.len() && b[q] == x;
        assert(item_for_window(b[q], w, sys));
    }
}

/// The commands of one draw item of `w` all satisfy the isolation property.
proof fn lemma_item_cmds_for_window(it: DrawItem, w: WindowId, sys: RenderSystemSend)
    requires
        item_for_window(it, w, sys),
    ensures
        forall|q: int|
            0 <= q < item_cmds(it).len() ==> cmd_for_window(#[trigger] item_cmds(it)[q], w, sys),
{
    assert forall|q: int|
        0 <= q < item_cmds(it).len() implies cmd_for_window(
        #[trigger] item_cmds(it)[q],
        w,
        sys,
    ) by {
        let cs = item_cmds(it);
        match it.texture {
            Some(td) => {
                match it.projection {
                    Some(pd) => {
                        assert(cs =~= seq![
                            GpuCommand::UpdateTextureConstants { id: it.id, data: td },
                            GpuCommand::UpdateProjectionConstants { id: it.id, data: pd },
                            GpuCommand::Draw { id: it.id },
                        ]);
                    },
                    None => {
                        assert(cs =~= seq![
                            GpuCommand::UpdateTextureConstants { id: it.id, data: td },
                            GpuCommand::Draw { id: it.id },
                        ]);
                    },
                }
            },
            None => {
                match it.projection {
                    Some(pd) => {
                        assert(cs =~= seq![
                            GpuCommand::UpdateProjectionConstants { id: it.id, data: pd },
                            GpuCommand::Draw { id: it.id },
                        ]);
                    },
                    None => {
                        assert(cs =~= seq![GpuCommand::Draw { id: it.id }]);
                    },
                }
            },
        }
    }
}

/// The commands of a draw list of `w` all satisfy the isolation property.
proof fn lemma_emit_cmds_for_window(items: Seq<DrawItem>, w: WindowId, sys: RenderSystemSend, n: int)
    requires
        n <= items.len(),
        forall|p: int| 0 <= p < items.len() ==> item_for_window(#[trigger] items[p], w, sys),
    ensures
        forall|q: int|
            0 <= q < emit_cmds_upto(items, n).len() ==> cmd_for_window(
                #[trigger] emit_cmds_upto(items, n)[q],
                w,
                sys,
            ),
    decreases n,
{
    if n > 0 {
        lemma_emit_cmds_for_window(items, w, sys, n - 1);
        lemma_item_cmds_for_window(items[n - 1], w, sys);
        assert forall|q: int|
            0 <= q < emit_cmds_upto(items, n).len() implies cmd_for_window(
            #[trigger] emit_cmds_upto(items, n)[q],
            w,
            sys,
        ) by {
            let pre = emit_cmds_upto(items, n - 1);
            if q < pre.len() {
                assert(emit_cmds_upto(items, n)[q] == pre[q]);
            } else {
                assert(emit_cmds_upto(items, n)[q] == item_cmds(items[n - 1])[q - pre.len()]);
            }
        }
    }
}

impl RenderSystem {
    /// Encodes one frame for `window_id` out of the given component
    /// snapshot into `encoder`, and addresses the result back to that
    /// window. See `frame_result` for the full statement.
    pub fn render(
        &self,
        window_id: WindowId,
        render_ids: &Vec<RenderId>,
        transforms: &Vec<Transform>,
        cameras: &mut Vec<Camera>,
        render_datas: &mut Vec<RenderData>,
        encoder: Encoder,
    ) -> (out: (WindowId, FromRender))
        requires
            self.sys.wf(),
            frame_ready(
                self.sys,
                window_id,
                render_ids@,
                transforms@,
                old(cameras)@,
                old(render_datas)@,
            ),
        ensures
            out.0 == window_id,
            ({
                &&& out.1 matches FromRender::Encoder(enc_out)
                &&& frame_result(
                    self.sys,
                    window_id,
                    render_ids@,
                    transforms@,
                    old(cameras)@,
                    old(render_datas)@,
                    final(cameras)@,
                    final(render_datas)@,
                    encoder@,
                    enc_out@,
                )
            }),
    {
        let ghost enc_in = encoder@;
        let ghost ids_s = render_ids@;
        let ghost ts_s = transforms@;
        let ghost old_rds = render_datas@;
        let ghost old_cams = cameras@;

        let mut enc = encoder;

        // Clear this window's targets to its palette colour and reset depth.
        let outs = self.sys.outs.get(window_id);
        let color = clear_color(window_id);
        enc.clear(&outs.0, color);
        enc.clear_depth(&outs.1, DEPTH_CLEAR_WORD);
        proof {
            assert(enc@ =~= enc_in + clear_cmds(window_id, self.sys.outs));
        }
        let ghost base = enc@;

        // Read the one main camera and consume its dirty flag.
        let mi = find_main_camera(cameras);
        let cam = &mut cameras[mi];
        let view = cam.get_view();
        let proj = cam.get_proj();
        let dirty_cam = cam.take_dirty();
        proof {
            assert(cameras@ =~= old_cams.update(mi as int, old_cams[mi as int].cleared()));
        }

        // Collect one draw item per renderable of this window, consuming
        // its dirty flag as it is read.
        let n = render_ids.len();
        let mut datas: Vec<DrawItem> = Vec::new();
        let mut i: usize = 0;
        while i < n
            invariant
                n == ids_s.len(),
                i <= n,
                render_ids@ == ids_s,
                transforms@ == ts_s,
                ids_s.len() == ts_s.len(),
                ids_s.len() == old_rds.len(),
                render_datas@.len() == old_rds.len(),
                datas@ == frame_items_upto(
                    window_id,
                    ids_s,
                    ts_s,
                    old_rds,
                    view,
                    proj,
                    dirty_cam,
                    i as int,
                ),
                forall|j: int|
                    0 <= j < i ==> #[trigger] render_datas@[j] == if ids_s[j].window_id
                        == window_id {
                        old_rds[j].cleared()
                    } else {
                        old_rds[j]
                    },
                forall|j: int| i <= j < n ==> #[trigger] render_datas@[j] == old_rds[j],
            decreases n - i,
        {
            let rid = render_ids[i];
            if rid.clone_window_id() == window_id {
                let t = transforms[i];
                let rd = &mut render_datas[i];
                let layer = rd.get_layer();
                let dirty = rd.take_dirty();
                let texture = if dirty {
                    Some(rd.make_texture_data())
                } else {
                    None
                };
                let projection = if dirty_cam {
                    Some(ProjectionData { model: t.get_model(), view, proj })
                } else {
                    None
                };
                datas.push(DrawItem { id: rid, layer, texture, projection });
                proof {
                    assert(datas@ =~= frame_items_upto(
                        window_id,
                        ids_s,
                        ts_s,
                        old_rds,
                        view,
                        proj,
                        dirty_cam,
                        i as int + 1,
                    ));
                }
            } else {
                proof {
                    assert(datas@ =~= frame_items_upto(
                        window_id,
                        ids_s,
                        ts_s,
                        old_rds,
                        view,
                        proj,
                        dirty_cam,
                        i as int + 1,
                    ));
                }
            }
            i = i + 1;
        }

        // Resolve the draw order.
        let sorted = sort_draw_items(datas);

        // Expand the ordered items into commands.
        let m = sorted.len();
        let mut j: usize = 0;
        while j < m
            invariant
                m == sorted@.len(),
                j <= m,
                enc@ == base + emit_cmds_upto(sorted@, j as int),
            decreases m - j,
        {
            let it = sorted[j];
            if let Some(td) = it.texture {
                enc.update_texture_constants(it.id, td);
            }
            if let Some(pd) = it.projection {
                enc.update_projection_constants(it.id, pd);
            }
            enc.draw(it.id);
            proof {
                assert(enc@ =~= base + emit_cmds_upto(sorted@, j as int + 1));
            }
            j = j + 1;
        }

        proof {
            let items = frame_items(window_id, ids_s, ts_s, old_rds, view, proj, dirty_cam);
            assert(enc@ =~= enc_in + clear_cmds(window_id, self.sys.outs) + emit_cmds(sorted@));
            lemma_frame_items_for_window(
                self.sys,
                window_id,
                ids_s,
                ts_s,
                old_rds,
                view,
                proj,
                dirty_cam,
                ids_s.len() as int,
            );
            lemma_perm_items_for_window(sorted@, items, window_id, self.sys);
            lemma_emit_cmds_for_window(sorted@, window_id, self.sys, sorted@.len() as int);
            assert forall|k: int| enc_in.len() <= k < enc@.len() implies cmd_for_window(
                #[trigger] enc@[k],
                window_id,
                self.sys,
            ) by {
                let cls = clear_cmds(window_id, self.sys.outs);
                if k < enc_in.len() + cls.len() {
                    assert(enc@[k] == cls[k - enc_in.len()]);
                } else {
                    assert(enc@[k] == emit_cmds(sorted@)[k - enc_in.len() - cls.len()]);
                }
            }
            assert(the_main(old_cams) == mi as int);
        }

        (window_id, FromRender::Encoder(enc))
    }

    /// Handles one routed message from the simulation side: new output
    /// targets are installed in the registry (and the caller keeps
    /// receiving), a command buffer triggers one frame whose reply must go
    /// back out (and the tick is done).
    pub fn process_event(
        &mut self,
        render_ids: &Vec<RenderId>,
        transforms: &Vec<Transform>,
        cameras: &mut Vec<Camera>,
        render_datas: &mut Vec<RenderData>,
        event: WindowedToRender,
    ) -> (r: (Option<WindowedFromRender>, bool))
        requires
            old(self).sys.wf(),
            event.1 matches ToRender::Encoder(_) ==> frame_ready(
                old(self).sys,
                event.0,
                render_ids@,
                transforms@,
                old(cameras)@,
                old(render_datas)@,
            ),
        ensures
            final(self).sys.wf(),
            event.1 matches ToRender::GraphicsData(out_color, out_depth) ==> {
                &&& r.0 is None
                &&& r.1 == true
                &&& final(cameras)@ == old(cameras)@
                &&& final(render_datas)@ == old(render_datas)@
                &&& final(self).sys.outs == old(self).sys.outs.spec_set(
                    event.0,
                    (out_color, out_depth),
                )
                &&& final(self).sys.spec_bundles(event.0).len() == old(self).sys.spec_bundles(
                    event.0,
                ).len()
                &&& (forall|i: int|
                    0 <= i < old(self).sys.spec_bundles(event.0).len() ==> #[trigger] final(self).sys.spec_bundles(event.0)[i] == (Bundle {
                        data: PipeData {
                            out_color,
                            out_depth,
                            ..old(self).sys.spec_bundles(event.0)[i].data
                        },
                        ..old(self).sys.spec_bundles(event.0)[i]
                    }))
                &&& (forall|w: WindowId|
                    w != event.0 ==> #[trigger] final(self).sys.spec_bundles(w) == old(self).sys.spec_bundles(w))
            },
            event.1 matches ToRender::Encoder(enc) ==> {
                &&& final(self).sys == old(self).sys
                &&& r.1 == false
                &&& r.0 matches Some((w, FromRender::Encoder(enc_out)))
                &&& w == event.0
                &&& frame_result(
                    old(self).sys,
                    event.0,
                    render_ids@,
                    transforms@,
                    old(cameras)@,
                    old(render_datas)@,
                    final(cameras)@,
                    final(render_datas)@,
                    enc@,
                    enc_out@,
                )
            },
    {
        let (window_id, msg) = event;
        match msg {
            ToRender::Encoder(enc) => {
                let out = self.render(
                    window_id,
                    render_ids,
                    transforms,
                    cameras,
                    render_datas,
                    enc,
                );
                (Some(out), false)
            },
            ToRender::GraphicsData(out_color, out_depth) => {
                self.set_graphics_data(window_id, out_color, out_depth);
                (None, true)
            },
        }
    }
}

/// Registry handoff bookkeeping: however many hands the registry went
/// through, well-formedness pins every slot. Within one window the `i`th
/// bundle answers to slot `i` of that window — so the slot indices of a
/// window with `k` registered drawables are exactly `0` to `k - 1`, no slot
/// is duplicated, and no bundle names another window.
pub proof fn lemma_registry_slots(sys: RenderSystemSend, w: WindowId, i: int, j: int)
    requires
        sys.wf(),
        0 <= i < sys.spec_bundles(w).len(),
        0 <= j < sys.spec_bundles(w).len(),
    ensures
        sys.spec_bundles(w)[i].id.window_id == w,
        sys.spec_bundles(w)[i].id.render_id_num == i,
        i != j ==> sys.spec_bundles(w)[i].id != sys.spec_bundles(w)[j].id,
{
}

/// The position of item `i`'s draw call inside the expanded command list.
pub open spec fn draw_pos(items: Seq<DrawItem>, i: int) -> int {
    emit_cmds_upto(items, i).len() + item_cmds(items[i]).len() - 1
}

proof fn lemma_emit_upto_extends(items: Seq<DrawItem>, k: int, n: int)
    requires
        0 <= k <= n <= items.len(),
    ensures
        emit_cmds_upto(items, k).len() <= emit_cmds_upto(items, n).len(),
        forall|p: int|
            0 <= p < emit_cmds_upto(items, k).len() ==> #[trigger] emit_cmds_upto(items, n)[p]
                == emit_cmds_upto(items, k)[p],
    decreases n - k,
{
    if k < n {
        lemma_emit_upto_extends(items, k, n - 1);
    }
}

proof fn lemma_item_cmds_len(it: DrawItem)
    ensures
        1 <= item_cmds(it).len() <= 3,
        item_cmds(it).last() == (GpuCommand::Draw { id: it.id }),
{
}

/// Where item `i`'s draw call lands: inside the command list, and carrying
/// exactly that item's handle.
pub proof fn lemma_draw_pos(items: Seq<DrawItem>, i: int)
    requires
        0 <= i < items.len(),
    ensures
        emit_cmds_upto(items, i).len() <= draw_pos(items, i) < emit_cmds_upto(items, i + 1).len(),
        draw_pos(items, i) < emit_cmds(items).len(),
        emit_cmds(items)[draw_pos(items, i)] == (GpuCommand::Draw { id: items[i].id }),
{
    lemma_item_cmds_len(items[i]);
    assert(emit_cmds_upto(items, i + 1) == emit_cmds_upto(items, i) + item_cmds(items[i]));
    lemma_emit_upto_extends(items, i + 1, items.len() as int);
    assert(emit_cmds_upto(items, i + 1)[draw_pos(items, i)] == item_cmds(items[i]).last());
}

/// Draw order is a function of layer: in one frame's expanded command
/// list, the draw call of an item on a lower layer comes strictly before
/// the draw call of any item on a higher layer. Items sharing a layer are
/// ordered by slot index; beyond that no order is promised.
pub proof fn lemma_layer_order(items: Seq<DrawItem>, i: int, j: int)
    requires
        sorted_items(items),
        0 <= i < items.len(),
        0 <= j < items.len(),
        items[i].layer < items[j].layer,
    ensures
        draw_pos(items, i) < draw_pos(items, j),
        emit_cmds(items)[draw_pos(items, i)] == (GpuCommand::Draw { id: items[i].id }),
        emit_cmds(items)[draw_pos(items, j)] == (GpuCommand::Draw { id: items[j].id }),
{
    if j < i {
        assert(draw_le(items[j], items[i]));
        assert(false);
    }
    assert(i < j);
    lemma_draw_pos(items, i);
    lemma_draw_pos(items, j);
    lemma_emit_upto_extends(items, i + 1, j);
    lemma_item_cmds_len(items[j]);
}

} // verus!
