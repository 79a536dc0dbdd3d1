//! The coordinator: the main thread's startup handoff sequencing and
//! steady-state routing rules.
//!
//! During startup the coordinator launches the registry relay: the one
//! registry object is sent to the first render thread, comes back with that
//! window's handles registered, goes to the next thread, and so on; at
//! every instant exactly one party owns it — the object moves, it is never
//! aliased. When the relay has visited every window, the registry and the
//! collected handle table are delivered to the simulation side.
//!
//! In the steady state the coordinator is a pure router: messages from the
//! simulation's channels go to the render thread that owns the tagged
//! window, messages from the threads go back tagged with their window. A
//! thread whose channel is observed closed, or a top-level quit from the
//! event pump, begins shutdown for everybody.

use vstd::prelude::*;

use crate::art::TILES_ID;
use crate::control::{FromControl, ToControl};
use crate::render_id::RenderId;
use crate::render_system::{FromRender, RenderSystemSend, ToRender};
use crate::render_thread::{FromRenderThread, ToRenderThread};
use crate::window_id::{PerWindow, WindowId};
use crate::{RenderIds, RenderKey};

verus! {

/// What the coordinator's poll loop observed.
pub enum CoordinatorEvent {
    /// Startup: the fresh registry sets off on its relay.
    StartHandoff(RenderSystemSend),
    /// A message polled from the simulation's renderer channel.
    SimRender(WindowId, FromRender),
    /// A message polled from the simulation's control channel.
    SimControl(WindowId, FromControl),
    /// A message polled from a render thread's channel.
    Thread(WindowId, FromRenderThread),
    /// A poll of a render thread's channel found it closed.
    ThreadClosed(WindowId),
    /// The event pump reported a top-level quit.
    Quit,
}

/// What the coordinator asks its loop to do, in order.
pub enum CoordinatorAction {
    /// Send this message to the render thread owning the window.
    ToThread(WindowId, ToRenderThread),
    /// Send this message to the simulation's renderer channel, tagged.
    ToSimRender(WindowId, ToRender),
    /// Send this message to the simulation's control channel, tagged.
    ToSimControl(WindowId, ToControl),
    /// The relay visited every window: the registry and the collected
    /// handle table go to the simulation side.
    DeliverRegistry(RenderSystemSend, RenderIds),
    /// Stop the main loop and let every collaborator unwind.
    Shutdown,
}

/// The handle table rows for a batch of registered handles: each handle is
/// keyed by its own window and the tile-map kind.
pub open spec fn keyed(ids: Seq<RenderId>) -> Seq<(RenderKey, RenderId)> {
    ids.map_values(
        |id: RenderId|
            (RenderKey { window_id: id.window_id, render_const: TILES_ID }, id),
    )
}

/// One step of the registry relay, from the state where `pending` windows
/// are still unvisited and `collected` rows are gathered: either the next
/// window gets the registry, or — when none is left — the registry and the
/// table are delivered and the table leaves the coordinator.
pub open spec fn handoff_step(
    pending_pre: Seq<WindowId>,
    collected_mid: Seq<(RenderKey, RenderId)>,
    pending_post: Seq<WindowId>,
    collected_post: Seq<(RenderKey, RenderId)>,
    sys: RenderSystemSend,
    acts: Seq<CoordinatorAction>,
) -> bool {
    if pending_pre.len() == 0 {
        &&& acts.len() == 1
        &&& (acts[0] matches CoordinatorAction::DeliverRegistry(sys2, table) && sys2 == sys
            && table@ == collected_mid)
        &&& pending_post == pending_pre
        &&& collected_post == Seq::<(RenderKey, RenderId)>::empty()
    } else {
        &&& acts.len() == 1
        &&& (acts[0] matches CoordinatorAction::ToThread(
            w,
            ToRenderThread::RenderSystem(sys2),
        ) && w == pending_pre[0] && sys2 == sys)
        &&& pending_post == pending_pre.drop_first()
        &&& collected_post == collected_mid
    }
}

/// The coordinator's state: the relay's remaining itinerary, the handle
/// rows collected so far, which thread channels were observed closed, and
/// whether shutdown has begun.
pub struct Coordinator {
    pub pending: Vec<WindowId>,
    pub collected: RenderIds,
    pub closed: PerWindow<bool>,
    pub shutting_down: bool,
}

impl Coordinator {
    /// A coordinator for both windows, visiting the first window's thread
    /// first.
    pub fn new() -> (r: Coordinator)
        ensures
            r.pending@ == seq![WindowId::First, WindowId::Second],
            r.collected@ == Seq::<(RenderKey, RenderId)>::empty(),
            r.closed == (PerWindow { first: false, second: false }),
            !r.shutting_down,
    {
        let mut pending: Vec<WindowId> = Vec::new();
        pending.push(WindowId::First);
        pending.push(WindowId::Second);
        proof {
            assert(pending@ =~= seq![WindowId::First, WindowId::Second]);
        }
        Coordinator {
            pending,
            collected: Vec::new(),
            closed: PerWindow::new(false, false),
            shutting_down: false,
        }
    }

    /// Routes one observed event into the actions it demands. Routing is
    /// total and exhaustive: every message variant is handled, every
    /// message is forwarded by its window tag alone, and once shutdown has
    /// begun nothing is forwarded any more.
    pub fn route(&mut self, event: CoordinatorEvent) -> (acts: Vec<CoordinatorAction>)
        ensures
            final(self).closed == (match event {
                CoordinatorEvent::ThreadClosed(w) => old(self).closed.spec_set(w, true),
                _ => old(self).closed,
            }),
            final(self).shutting_down == (old(self).shutting_down || event matches
                CoordinatorEvent::ThreadClosed(_) || event is Quit),
            (event matches CoordinatorEvent::StartHandoff(sys) ==> handoff_step(
                old(self).pending@,
                old(self).collected@,
                final(self).pending@,
                final(self).collected@,
                sys,
                acts@,
            )),
            (event matches CoordinatorEvent::Thread(w, FromRenderThread::RenderSystem(
                sys,
                ids,
            )) ==> handoff_step(
                old(self).pending@,
                old(self).collected@ + keyed(ids@),
                final(self).pending@,
                final(self).collected@,
                sys,
                acts@,
            )),
            (event matches CoordinatorEvent::Thread(w, FromRenderThread::ToRender(m)) ==> {
                &&& acts@.len() == 1
                &&& acts@[0] == CoordinatorAction::ToSimRender(w, m)
                &&& final(self).pending@ == old(self).pending@
                &&& final(self).collected@ == old(self).collected@
            }),
            (event matches CoordinatorEvent::Thread(w, FromRenderThread::ToControl(m)) ==> {
                &&& acts@.len() == 1
                &&& acts@[0] == CoordinatorAction::ToSimControl(w, m)
                &&& final(self).pending@ == old(self).pending@
                &&& final(self).collected@ == old(self).collected@
            }),
            (event matches CoordinatorEvent::SimRender(w, m) ==> {
                &&& final(self).pending@ == old(self).pending@
                &&& final(self).collected@ == old(self).collected@
                &&& if old(self).shutting_down || old(self).closed.spec_get(w) {
                    acts@ == Seq::<CoordinatorAction>::empty()
                } else {
                    acts@ == seq![
                        CoordinatorAction::ToThread(w, ToRenderThread::FromRender(m)),
                    ]
                }
            }),
            (event matches CoordinatorEvent::SimControl(w, m) ==> {
                &&& final(self).pending@ == old(self).pending@
                &&& final(self).collected@ == old(self).collected@
                &&& if old(self).shutting_down || old(self).closed.spec_get(w) {
                    acts@ == Seq::<CoordinatorAction>::empty()
                } else {
                    acts@ == seq![
                        CoordinatorAction::ToThread(w, ToRenderThread::FromControl(m)),
                    ]
                }
            }),
            (event matches CoordinatorEvent::ThreadClosed(w) ==> {
                &&& acts@ == seq![CoordinatorAction::Shutdown]
                &&& final(self).pending@ == old(self).pending@
                &&& final(self).collected@ == old(self).collected@
            }),
            (event is Quit ==> {
                &&& acts@ == seq![CoordinatorAction::Shutdown]
                &&& final(self).pending@ == old(self).pending@
                &&& final(self).collected@ == old(self).collected@
            }),
    {
        match event {
            CoordinatorEvent::StartHandoff(sys) => self.relay(sys),
            CoordinatorEvent::Thread(_, FromRenderThread::RenderSystem(sys, ids)) => {
                let ghost pre_collected = self.collected@;
                let n = ids.len();
                let mut k: usize = 0;
                while k < n
                    invariant
                        n == ids@.len(),
                        k <= n,
                        self.collected@ == pre_collected + keyed(ids@.take(k as int)),
                        pre_collected == old(self).collected@,
                        self.pending@ == old(self).pending@,
                        self.closed == old(self).closed,
                        self.shutting_down == old(self).shutting_down,
                    decreases n - k,
                {
                    let id = ids[k];
                    let key = RenderKey::new(id.clone_window_id(), TILES_ID);
                    self.collected.push((key, id));
                    proof {
                        assert(ids@.take(k as int + 1).map_values(
                            |id: RenderId|
                                (
                                    RenderKey {
                                        window_id: id.window_id,
                                        render_const: TILES_ID,
                                    },
                                    id,
                                ),
                        ) =~= ids@.take(k as int).map_values(
                            |id: RenderId|
                                (
                                    RenderKey {
                                        window_id: id.window_id,
                                        render_const: TILES_ID,
                                    },
                                    id,
                                ),
                        ).push(
                            (
                                RenderKey {
                                    window_id: ids@[k as int].window_id,
                                    render_const: TILES_ID,
                                },
                                ids@[k as int],
                            ),
                        ));
                        assert(self.collected@ =~= pre_collected + keyed(
                            ids@.take(k as int + 1),
                        ));
                    }
                    k = k + 1;
                }
                proof {
                    assert(ids@.take(n as int) =~= ids@);
                }
                self.relay(sys)
            },
            CoordinatorEvent::Thread(w, FromRenderThread::ToRender(m)) => {
                let mut acts: Vec<CoordinatorAction> = Vec::new();
                acts.push(CoordinatorAction::ToSimRender(w, m));
                acts
            },
            CoordinatorEvent::Thread(w, FromRenderThread::ToControl(m)) => {
                let mut acts: Vec<CoordinatorAction> = Vec::new();
                acts.push(CoordinatorAction::ToSimControl(w, m));
                acts
            },
            CoordinatorEvent::SimRender(w, m) => {
                let mut acts: Vec<CoordinatorAction> = Vec::new();
                if !self.shutting_down && !*self.closed.get(w) {
                    acts.push(CoordinatorAction::ToThread(w, ToRenderThread::FromRender(m)));
                }
                acts
            },
            CoordinatorEvent::SimControl(w, m) => {
                let mut acts: Vec<CoordinatorAction> = Vec::new();
                if !self.shutting_down && !*self.closed.get(w) {
                    acts.push(CoordinatorAction::ToThread(w, ToRenderThread::FromControl(m)));
                }
                acts
            },
            CoordinatorEvent::ThreadClosed(w) => {
                self.closed.set(w, true);
                self.shutting_down = true;
                let mut acts: Vec<CoordinatorAction> = Vec::new();
                acts.push(CoordinatorAction::Shutdown);
                acts
            },
            CoordinatorEvent::Quit => {
                self.shutting_down = true;
                let mut acts: Vec<CoordinatorAction> = Vec::new();
                acts.push(CoordinatorAction::Shutdown);
                acts
            },
        }
    }

    /// Sends the registry to the next unvisited window's thread, or
    /// delivers it with the collected table when the relay is complete.
    fn relay(&mut self, sys: RenderSystemSend) -> (acts: Vec<CoordinatorAction>)
        ensures
            handoff_step(
                old(self).pending@,
                old(self).collected@,
                final(self).pending@,
                final(self).collected@,
                sys,
                acts@,
            ),
            final(self).closed == old(self).closed,
            final(self).shutting_down == old(self).shutting_down,
    {
        let mut acts: Vec<CoordinatorAction> = Vec::new();
        if self.pending.len() == 0 {
            let mut table: RenderIds = Vec::new();
            core::mem::swap(&mut table, &mut self.collected);
            acts.push(CoordinatorAction::DeliverRegistry(sys, table));
        } else {
            let w = self.pending.remove(0);
            acts.push(CoordinatorAction::ToThread(w, ToRenderThread::RenderSystem(sys)));
        }
        acts
    }
}

} // verus!
