//! The two-way channel: the only path state takes between the simulation
//! side and a render thread.
//!
//! The channel has a front endpoint and a back endpoint and carries two
//! independent message streams: `T` values flow front to back, `F` values
//! flow back to front. Each direction is a FIFO queue — no message is ever
//! duplicated, dropped or reordered — and closing an endpoint makes further
//! receives on the opposite endpoint fail with a distinguishable
//! closed-channel signal once the queue has drained, instead of blocking
//! forever.
//!
//! The library models the channel as one value holding both queues, with
//! the front and back roles expressed as method families (`send_to` /
//! `recv_to` and `send_from` / `recv_from`). The thread boundary itself —
//! parking a thread until a message arrives — is the transport collaborator's
//! job; a blocking receive is modeled by its wake-up condition: it returns
//! exactly when a message is queued or the sending side has closed.
//!
//! Two ghost histories per direction record every message ever sent and
//! every message ever received; the well-formedness invariant ties them to
//! the queue, and the FIFO law is proved from that invariant.

use vstd::prelude::*;

verus! {

/// The signal a receive produces when the peer endpoint has closed and no
/// queued message is left.
#[derive(Clone, Copy, Debug, PartialEq, Eq, Structural)]
pub struct ChannelClosed;

/// Outcome of a non-blocking receive.
#[derive(Clone, Copy, Debug)]
pub enum Polled<M> {
    /// The next queued message, removed from the queue.
    Message(M),
    /// Nothing queued; the peer is still open.
    Empty,
    /// Nothing queued and the peer has closed.
    Closed,
}

/// A bidirectional FIFO pipe between a front endpoint and a back endpoint.
/// `T` messages travel front to back; `F` messages travel back to front.
pub struct TwoWayChannel<T, F> {
    /// Messages sent by the front, not yet received by the back.
    pub to_queue: Vec<T>,
    /// Messages sent by the back, not yet received by the front.
    pub from_queue: Vec<F>,
    /// Whether the front endpoint is still open.
    pub front_open: bool,
    /// Whether the back endpoint is still open.
    pub back_open: bool,
    /// History of every `T` the front has sent.
    pub sent_to: Ghost<Seq<T>>,
    /// History of every `T` the back has received.
    pub taken_to: Ghost<Seq<T>>,
    /// History of every `F` the back has sent.
    pub sent_from: Ghost<Seq<F>>,
    /// History of every `F` the front has received.
    pub taken_from: Ghost<Seq<F>>,
}

impl<T, F> TwoWayChannel<T, F> {
    /// In each direction, what was sent is what was received followed by
    /// what still sits in the queue.
    pub open spec fn wf(self) -> bool {
        &&& self.sent_to@ == self.taken_to@ + self.to_queue@
        &&& self.sent_from@ == self.taken_from@ + self.from_queue@
    }

    pub open spec fn spec_to_len(self) -> nat {
        self.to_queue@.len()
    }

    pub open spec fn spec_from_len(self) -> nat {
        self.from_queue@.len()
    }
}

/// A fresh channel: both endpoints open, both directions empty.
pub fn two_way_channel<T, F>() -> (c: TwoWayChannel<T, F>)
    ensures
        c.wf(),
        c.to_queue@ == Seq::<T>::empty(),
        c.from_queue@ == Seq::<F>::empty(),
        c.sent_to@ == Seq::<T>::empty(),
        c.taken_to@ == Seq::<T>::empty(),
        c.sent_from@ == Seq::<F>::empty(),
        c.taken_from@ == Seq::<F>::empty(),
        c.front_open,
        c.back_open,
{
    let c = TwoWayChannel {
        to_queue: Vec::new(),
        from_queue: Vec::new(),
        front_open: true,
        back_open: true,
        sent_to: Ghost(Seq::empty()),
        taken_to: Ghost(Seq::empty()),
        sent_from: Ghost(Seq::empty()),
        taken_from: Ghost(Seq::empty()),
    };
    proof {
        assert(c.sent_to@ =~= c.taken_to@ + c.to_queue@);
        assert(c.sent_from@ =~= c.taken_from@ + c.from_queue@);
    }
    c
}

impl<T, F> TwoWayChannel<T, F> {
    /// Front role: queue a message for the back. Sending never blocks and
    /// never reorders: the message goes to the tail of its direction.
    pub fn send_to(&mut self, t: T)
        requires
            old(self).wf(),
        ensures
            final(self).wf(),
            final(self).to_queue@ == old(self).to_queue@.push(t),
            final(self).sent_to@ == old(self).sent_to@.push(t),
            final(self).taken_to@ == old(self).taken_to@,
            final(self).from_queue@ == old(self).from_queue@,
            final(self).sent_from@ == old(self).sent_from@,
            final(self).taken_from@ == old(self).taken_from@,
            final(self).front_open == old(self).front_open,
            final(self).back_open == old(self).back_open,
    {
        self.to_queue.push(t);
        proof {
            self.sent_to@ = self.sent_to@.push(t);
            assert(self.sent_to@ =~= self.taken_to@ + self.to_queue@);
        }
    }

    /// Back role: queue a message for the front.
    pub fn send_from(&mut self, f: F)
        requires
            old(self).wf(),
        ensures
            final(self).wf(),
            final(self).from_queue@ == old(self).from_queue@.push(f),
            final(self).sent_from@ == old(self).sent_from@.push(f),
            final(self).taken_from@ == old(self).taken_from@,
            final(self).to_queue@ == old(self).to_queue@,
            final(self).sent_to@ == old(self).sent_to@,
            final(self).taken_to@ == old(self).taken_to@,
            final(self).front_open == old(self).front_open,
            final(self).back_open == old(self).back_open,
    {
        self.from_queue.push(f);
        proof {
            self.sent_from@ = self.sent_from@.push(f);
            assert(self.sent_from@ =~= self.taken_from@ + self.from_queue@);
        }
    }

    /// Back role: blocking receive. A blocking receive returns exactly when
    /// a message is queued or the front has closed, so this model requires
    /// that wake-up condition; it yields the oldest queued message, or the
    /// closed-channel signal once the front is gone and the queue drained.
    pub fn recv_to(&mut self) -> (r: Result<T, ChannelClosed>)
        requires
            old(self).wf(),
            old(self).to_queue@.len() > 0 || !old(self).front_open,
        ensures
            final(self).wf(),
            old(self).to_queue@.len() > 0 ==> {
                &&& r matches Ok(t) && t == old(self).to_queue@[0]
                &&& final(self).to_queue@ == old(self).to_queue@.drop_first()
                &&& final(self).taken_to@ == old(self).taken_to@.push(old(self).to_queue@[0])
            },
            old(self).to_queue@.len() == 0 ==> {
                &&& r is Err
                &&& final(self).to_queue@ == old(self).to_queue@
                &&& final(self).taken_to@ == old(self).taken_to@
            },
            final(self).sent_to@ == old(self).sent_to@,
            final(self).from_queue@ == old(self).from_queue@,
            final(self).sent_from@ == old(self).sent_from@,
            final(self).taken_from@ == old(self).taken_from@,
            final(self).front_open == old(self).front_open,
            final(self).back_open == old(self).back_open,
    {
        if self.to_queue.len() > 0 {
            let t = self.to_queue.remove(0);
            proof {
                self.taken_to@ = self.taken_to@.push(t);
                assert(self.sent_to@ =~= self.taken_to@ + self.to_queue@);
            }
            Ok(t)
        } else {
            Err(ChannelClosed)
        }
    }

    /// Front role: blocking receive of the back's stream; the mirror image
    /// of `recv_to`.
    pub fn recv_from(&mut self) -> (r: Result<F, ChannelClosed>)
        requires
            old(self).wf(),
            old(self).from_queue@.len() > 0 || !old(self).back_open,
        ensures
            final(self).wf(),
            old(self).from_queue@.len() > 0 ==> {
                &&& r matches Ok(f) && f == old(self).from_queue@[0]
                &&& final(self).from_queue@ == old(self).from_queue@.drop_first()
                &&& final(self).taken_from@ == old(self).taken_from@.push(
                    old(self).from_queue@[0],
                )
            },
            old(self).from_queue@.len() == 0 ==> {
                &&& r is Err
                &&& final(self).from_queue@ == old(self).from_queue@
                &&& final(self).taken_from@ == old(self).taken_from@
            },
            final(self).sent_from@ == old(self).sent_from@,
            final(self).to_queue@ == old(self).to_queue@,
            final(self).sent_to@ == old(self).sent_to@,
            final(self).taken_to@ == old(self).taken_to@,
            final(self).front_open == old(self).front_open,
            final(self).back_open == old(self).back_open,
    {
        if self.from_queue.len() > 0 {
            let f = self.from_queue.remove(0);
            proof {
                self.taken_from@ = self.taken_from@.push(f);
                assert(self.sent_from@ =~= self.taken_from@ + self.from_queue@);
            }
            Ok(f)
        } else {
            Err(ChannelClosed)
        }
    }

    /// Back role: non-blocking receive. Returns at once in every state and
    /// says apart "nothing yet" from "the front has closed".
    pub fn try_recv_to(&mut self) -> (r: Polled<T>)
        requires
            old(self).wf(),
        ensures
            final(self).wf(),
            old(self).to_queue@.len() > 0 ==> {
                &&& r matches Polled::Message(t) && t == old(self).to_queue@[0]
                &&& final(self).to_queue@ == old(self).to_queue@.drop_first()
                &&& final(self).taken_to@ == old(self).taken_to@.push(old(self).to_queue@[0])
            },
            old(self).to_queue@.len() == 0 ==> {
                &&& final(self).to_queue@ == old(self).to_queue@
                &&& final(self).taken_to@ == old(self).taken_to@
                &&& if old(self).front_open {
                    r is Empty
                } else {
                    r is Closed
                }
            },
            final(self).sent_to@ == old(self).sent_to@,
            final(self).from_queue@ == old(self).from_queue@,
            final(self).sent_from@ == old(self).sent_from@,
            final(self).taken_from@ == old(self).taken_from@,
            final(self).front_open == old(self).front_open,
            final(self).back_open == old(self).back_open,
    {
        if self.to_queue.len() > 0 {
            let t = self.to_queue.remove(0);
            proof {
                self.taken_to@ = self.taken_to@.push(t);
                assert(self.sent_to@ =~= self.taken_to@ + self.to_queue@);
            }
            Polled::Message(t)
        } else if self.front_open {
            Polled::Empty
        } else {
            Polled::Closed
        }
    }

    /// Front role: non-blocking receive of the back's stream.
    pub fn try_recv_from(&mut self) -> (r: Polled<F>)
        requires
            old(self).wf(),
        ensures
            final(self).wf(),
            old(self).from_queue@.len() > 0 ==> {
                &&& r matches Polled::Message(f) && f == old(self).from_queue@[0]
                &&& final(self).from_queue@ == old(self).from_queue@.drop_first()
                &&& final(self).taken_from@ == old(self).taken_from@.push(
                    old(self).from_queue@[0],
                )
            },
            old(self).from_queue@.len() == 0 ==> {
                &&& final(self).from_queue@ == old(self).from_queue@
                &&& final(self).taken_from@ == old(self).taken_from@
                &&& if old(self).back_open {
                    r is Empty
                } else {
                    r is Closed
                }
            },
            final(self).sent_from@ == old(self).sent_from@,
            final(self).to_queue@ == old(self).to_queue@,
            final(self).sent_to@ == old(self).sent_to@,
            final(self).taken_to@ == old(self).taken_to@,
            final(self).front_open == old(self).front_open,
            final(self).back_open == old(self).back_open,
    {
        if self.from_queue.len() > 0 {
            let f = self.from_queue.remove(0);
            proof {
                self.taken_from@ = self.taken_from@.push(f);
                assert(self.sent_from@ =~= self.taken_from@ + self.from_queue@);
            }
            Polled::Message(f)
        } else if self.back_open {
            Polled::Empty
        } else {
            Polled::Closed
        }
    }

    /// The front endpoint goes away (its owner terminated).
    pub fn close_front(&mut self)
        requires
            old(self).wf(),
        ensures
            final(self).wf(),
            *final(self) == (TwoWayChannel { front_open: false, ..*old(self) }),
    {
        self.front_open = false;
    }

    /// The back endpoint goes away (its owner terminated).
    pub fn close_back(&mut self)
        requires
            old(self).wf(),
        ensures
            final(self).wf(),
            *final(self) == (TwoWayChannel { back_open: false, ..*old(self) }),
    {
        self.back_open = false;
    }
}

/// The FIFO law: on each direction of a well-formed channel, the receives
/// observe exactly the messages that were sent, in the order they were
/// sent — the received history is a prefix of the sent history, and the
/// queue holds precisely the remainder.
pub proof fn lemma_fifo_order<T, F>(c: TwoWayChannel<T, F>)
    requires
        c.wf(),
    ensures
        c.taken_to@ == c.sent_to@.take(c.taken_to@.len() as int),
        c.to_queue@ == c.sent_to@.skip(c.taken_to@.len() as int),
        c.taken_from@ == c.sent_from@.take(c.taken_from@.len() as int),
        c.from_queue@ == c.sent_from@.skip(c.taken_from@.len() as int),
{
    assert(c.taken_to@ =~= c.sent_to@.take(c.taken_to@.len() as int));
    assert(c.to_queue@ =~= c.sent_to@.skip(c.taken_to@.len() as int));
    assert(c.taken_from@ =~= c.sent_from@.take(c.taken_from@.len() as int));
    assert(c.from_queue@ =~= c.sent_from@.skip(c.taken_from@.len() as int));
}

} // verus!
