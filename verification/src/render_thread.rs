//! The render-thread state machine.
//!
//! One render thread exists per window. It acquires that window's GPU
//! device at birth and never shares it: every GPU action the machine asks
//! for is executed by the thread that owns the device, against resources of
//! its own window. The thread's life is
//! `Constructing → AwaitingRegistry → Steady → Terminated`: announce the
//! window's targets, take part in the registry relay once, then loop over
//! frame messages until a close or escape event ends the loop. A resize is
//! no interruption — it is handled in-band inside `Steady`, as a transient
//! excursion that recomputes the output targets and announces them.
//!
//! The machine itself is a pure step function from state and message to
//! state and actions; the loop around it — channel transport, the event
//! pump, and the device calls — belongs to the thread that runs it.

use vstd::prelude::*;

use crate::control::{FromControl, ToControl};
use crate::graphics::{Encoder, GlFactory, GpuCommand, OutColor, OutDepth, Packet, RlTexture};
use crate::render_id::RenderId;
use crate::render_system::{spec_new_bundle, FromRender, RenderSystemSend, ToRender};
use crate::window_id::WindowId;

verus! {

/// Messages routed to a render thread: the registry relay, a filled command
/// buffer coming back from the encoder, or a control notice (resize).
pub enum ToRenderThread {
    RenderSystem(RenderSystemSend),
    FromRender(FromRender),
    FromControl(FromControl),
}

/// Messages a render thread sends to the coordinator: the registry moving
/// on with the handles it registered, a message for the encoder, or an
/// intent for the control system.
pub enum FromRenderThread {
    RenderSystem(RenderSystemSend, Vec<RenderId>),
    ToRender(ToRender),
    ToControl(ToControl),
}

/// The phases of a render thread's life.
#[derive(Clone, Copy, Debug, PartialEq, Eq, Structural)]
pub enum RenderThreadState {
    /// Acquiring the window's GPU device, context and surface.
    Constructing,
    /// Targets announced; waiting for the registry relay to arrive.
    AwaitingRegistry,
    /// The frame loop.
    Steady,
    /// A close or escape event ended the loop.
    Terminated,
}

/// What a step of the state machine asks its thread to do, in order.
pub enum ThreadAction {
    /// Send this message to the coordinator.
    Send(FromRenderThread),
    /// Submit these commands to the owned device, swap buffers, and clean
    /// up the frame's resources.
    SubmitFrame(Vec<GpuCommand>),
    /// Recompute the window's output targets after a resize, then report
    /// them through `resized`.
    RecomputeTargets,
}

/// A message arrived that the protocol does not allow in the present state.
/// This marks a coordinator bug; the process treats it as fatal rather than
/// ignore it.
#[derive(Clone, Copy, Debug, PartialEq, Eq, Structural)]
pub struct ProtocolError;

/// The state machine of one window's render thread.
pub struct RenderThread {
    pub window_id: WindowId,
    pub state: RenderThreadState,
}

impl RenderThread {
    pub fn new(window_id: WindowId) -> (r: RenderThread)
        ensures
            r.window_id == window_id,
            r.state is Constructing,
    {
        RenderThread { window_id, state: RenderThreadState::Constructing }
    }

    /// The device, context and surface exist: announce the window's initial
    /// output targets to the coordinator and wait for the registry.
    pub fn graphics_ready(&mut self, out_color: OutColor, out_depth: OutDepth) -> (msg:
        FromRenderThread)
        requires
            old(self).state is Constructing,
        ensures
            final(self).window_id == old(self).window_id,
            final(self).state is AwaitingRegistry,
            msg == FromRenderThread::ToRender(ToRender::GraphicsData(out_color, out_depth)),
    {
        self.state = RenderThreadState::AwaitingRegistry;
        FromRenderThread::ToRender(ToRender::GraphicsData(out_color, out_depth))
    }

    /// The handshake step: the registry relay reaches this thread. The one
    /// drawable of this window is registered through this thread's own
    /// factory — the returned handle names this window — and the registry
    /// moves on whole, followed by two empty command buffers that prime the
    /// frame loop. Any other message during the handshake is a protocol
    /// violation, as is a registry that arrives twice later on.
    pub fn receive_registry(
        &mut self,
        msg: ToRenderThread,
        factory: &mut GlFactory,
        packet: &Packet,
        texture: RlTexture,
    ) -> (r: Result<Vec<ThreadAction>, ProtocolError>)
        requires
            old(self).state is AwaitingRegistry,
            msg matches ToRenderThread::RenderSystem(sys) ==> sys.wf() && sys.spec_bundles(
                old(self).window_id,
            ).len() < usize::MAX && old(factory).next_handle + 8 <= u64::MAX,
        ensures
            final(self).window_id == old(self).window_id,
            (msg matches ToRenderThread::RenderSystem(sys) ==> {
                let w = old(self).window_id;
                let id = RenderId {
                    window_id: w,
                    render_id_num: sys.spec_bundles(w).len() as usize,
                };
                &&& final(self).state is Steady
                &&& r matches Ok(acts)
                &&& acts@.len() == 3
                &&& (acts@[0] matches ThreadAction::Send(FromRenderThread::RenderSystem(
                    sys2,
                    ids,
                )) && {
                    &&& sys2.wf()
                    &&& sys2.outs == sys.outs
                    &&& sys2.spec_bundles(w) == sys.spec_bundles(w).push(
                        spec_new_bundle(
                            id,
                            old(factory).next_handle,
                            texture,
                            sys.outs.spec_get(w).0,
                            sys.outs.spec_get(w).1,
                        ),
                    )
                    &&& (forall|v: WindowId|
                        v != w ==> #[trigger] sys2.spec_bundles(v) == sys.spec_bundles(v))
                    &&& ids@ == seq![id]
                })
                &&& (acts@[1] matches ThreadAction::Send(FromRenderThread::ToRender(
                    ToRender::Encoder(e1),
                )) && e1@ == Seq::<GpuCommand>::empty())
                &&& (acts@[2] matches ThreadAction::Send(FromRenderThread::ToRender(
                    ToRender::Encoder(e2),
                )) && e2@ == Seq::<GpuCommand>::empty())
            }),
            (!(msg matches ToRenderThread::RenderSystem(_)) ==> {
                &&& final(self).state == old(self).state
                &&& r is Err
            }),
    {
        match msg {
            ToRenderThread::RenderSystem(mut sys) => {
                let id = sys.add_render(self.window_id, factory, packet, texture);
                let mut ids: Vec<RenderId> = Vec::new();
                ids.push(id);

                let mut acts: Vec<ThreadAction> = Vec::new();
                acts.push(ThreadAction::Send(FromRenderThread::RenderSystem(sys, ids)));
                acts.push(ThreadAction::Send(FromRenderThread::ToRender(ToRender::Encoder(
                    Encoder::new(),
                ))));
                acts.push(ThreadAction::Send(FromRenderThread::ToRender(ToRender::Encoder(
                    Encoder::new(),
                ))));

                self.state = RenderThreadState::Steady;
                Ok(acts)
            },
            _ => Err(ProtocolError),
        }
    }

    /// One step of the frame loop. A returned command buffer is submitted
    /// to the owned device and an empty one goes back for the next frame —
    /// unless a close or escape event was observed, in which case the loop
    /// ends with nothing sent and nothing submitted. A resize notice asks
    /// the thread to recompute its targets. The registry arriving here, or
    /// any message outside `Steady`, is a protocol violation that changes
    /// nothing.
    pub fn handle_message(&mut self, msg: ToRenderThread, close_requested: bool) -> (r: Result<
        Vec<ThreadAction>,
        ProtocolError,
    >)
        ensures
            final(self).window_id == old(self).window_id,
            !(old(self).state is Steady) ==> {
                &&& final(self).state == old(self).state
                &&& r is Err
            },
            old(self).state is Steady ==> (msg matches ToRenderThread::FromRender(
                FromRender::Encoder(e),
            ) ==> {
                &&& close_requested ==> {
                    &&& final(self).state is Terminated
                    &&& r matches Ok(acts) && acts@ == Seq::<ThreadAction>::empty()
                }
                &&& !close_requested ==> {
                    &&& final(self).state is Steady
                    &&& r matches Ok(acts)
                    &&& acts@.len() == 2
                    &&& (acts@[0] matches ThreadAction::SubmitFrame(cmds) && cmds@ == e@)
                    &&& (acts@[1] matches ThreadAction::Send(FromRenderThread::ToRender(
                        ToRender::Encoder(e2),
                    )) && e2@ == Seq::<GpuCommand>::empty())
                }
            }),
            (old(self).state is Steady && msg matches ToRenderThread::FromControl(
                FromControl::Resize,
            )) ==> {
                &&& final(self).state is Steady
                &&& r matches Ok(acts)
                &&& acts@.len() == 1
                &&& acts@[0] is RecomputeTargets
            },
            (old(self).state is Steady && msg matches ToRenderThread::RenderSystem(_)) ==> {
                &&& final(self).state is Steady
                &&& r is Err
            },
    {
        match self.state {
            RenderThreadState::Steady => {
                match msg {
                    ToRenderThread::FromRender(FromRender::Encoder(mut e)) => {
                        if close_requested {
                            self.state = RenderThreadState::Terminated;
                            Ok(Vec::new())
                        } else {
                            let cmds = e.take_commands();
                            let mut acts: Vec<ThreadAction> = Vec::new();
                            acts.push(ThreadAction::SubmitFrame(cmds));
                            acts.push(ThreadAction::Send(FromRenderThread::ToRender(
                                ToRender::Encoder(e),
                            )));
                            Ok(acts)
                        }
                    },
                    ToRenderThread::FromControl(FromControl::Resize) => {
                        let mut acts: Vec<ThreadAction> = Vec::new();
                        acts.push(ThreadAction::RecomputeTargets);
                        Ok(acts)
                    },
                    ToRenderThread::RenderSystem(_) => Err(ProtocolError),
                }
            },
            _ => Err(ProtocolError),
        }
    }

    /// The targets were rebuilt after a resize: announce the new ones so
    /// the registry swaps them into this window's bundles. In-flight
    /// command buffers stay valid; the new targets take effect with the
    /// next frame's clear.
    pub fn resized(&mut self, out_color: OutColor, out_depth: OutDepth) -> (msg: FromRenderThread)
        requires
            old(self).state is Steady,
        ensures
            *final(self) == *old(self),
            msg == FromRenderThread::ToRender(ToRender::GraphicsData(out_color, out_depth)),
    {
        FromRenderThread::ToRender(ToRender::GraphicsData(out_color, out_depth))
    }
}

} // verus!
