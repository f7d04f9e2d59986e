//! The bounded request channel of a persistent task, and the one-shot reply
//! path of each request.
//!
//! Requests leave the channel in the order in which it accepted them. A full
//! channel turns a request away so that its submitter waits and tries again;
//! a channel whose receiving side is gone turns every request away for good.
use std::collections::VecDeque;
use vstd::prelude::*;

verus! {

/// The sending half of a one-shot reply channel. Where the receiving half is
/// gone the message is dropped: the submitter no longer waits for it.
pub trait OneshotSender<M> {
    fn send(self, msg: M);
}

/// What became of a request handed to `try_send`.
#[derive(Debug)]
pub enum SendOutcome<M> {
    /// The request is queued.
    Sent,
    /// The channel is at capacity; the request is handed back to be sent later.
    Full(M),
    /// The receiving side is gone; the request is handed back.
    Closed(M),
}

/// What `try_recv` found.
#[derive(Debug)]
pub enum RecvOutcome<M> {
    /// The oldest queued request.
    Message(M),
    /// Nothing is queued and senders remain: the receiver waits.
    Empty,
    /// Nothing is queued and every sender is gone.
    Closed,
}

/// A bounded first-in first-out channel of requests.
pub struct RequestChannel<M> {
    queue: VecDeque<M>,
    capacity: usize,
    receiver_open: bool,
    senders_open: bool,
    accepted: Ghost<Seq<M>>,
    delivered: Ghost<Seq<M>>,
}

impl<M> RequestChannel<M> {
    /// The requests waiting, oldest first.
    pub closed spec fn queued(&self) -> Seq<M> {
        self.queue@
    }

    /// How many requests may wait at once.
    pub closed spec fn spec_capacity(&self) -> nat {
        self.capacity as nat
    }

    /// Whether the receiving side is still there.
    pub closed spec fn spec_receiver_open(&self) -> bool {
        self.receiver_open
    }

    /// Whether any sending side is still there.
    pub closed spec fn spec_senders_open(&self) -> bool {
        self.senders_open
    }

    /// Every request the channel has accepted, in order.
    pub closed spec fn accepted(&self) -> Seq<M> {
        self.accepted@
    }

    /// Every request the channel has handed to the receiver, in order.
    pub closed spec fn delivered(&self) -> Seq<M> {
        self.delivered@
    }

    /// The channel's invariant: what was delivered, then what waits, is what
    /// was accepted, and no more wait than the capacity allows.
    pub closed spec fn wf(&self) -> bool {
        &&& self.delivered@ + self.queue@ == self.accepted@
        &&& self.queue@.len() <= self.capacity
        &&& self.capacity > 0
    }

    /// Creates an open, empty channel that holds up to `capacity` requests.
    pub fn new(capacity: usize) -> (r: Self)
        requires
            capacity > 0,
        ensures
            r.wf(),
            r.queued() == Seq::<M>::empty(),
            r.spec_capacity() == capacity,
            r.spec_receiver_open(),
            r.spec_senders_open(),
            r.accepted() == Seq::<M>::empty(),
            r.delivered() == Seq::<M>::empty(),
    {
        let r = RequestChannel {
            queue: VecDeque::new(),
            capacity,
            receiver_open: true,
            senders_open: true,
            accepted: Ghost(Seq::empty()),
            delivered: Ghost(Seq::empty()),
        };
        assert(r.delivered@ + r.queue@ =~= r.accepted@);
        r
    }

    /// Returns how many requests wait.
    pub fn len(&self) -> (r: usize)
        ensures
            r == self.queued().len(),
    {
        self.queue.len()
    }

    /// Returns the capacity.
    pub fn capacity(&self) -> (r: usize)
        ensures
            r == self.spec_capacity(),
    {
        self.capacity
    }

    /// Returns whether the receiving side is still there.
    pub fn receiver_open(&self) -> (r: bool)
        ensures
            r == self.spec_receiver_open(),
    {
        self.receiver_open
    }

    /// Queues `msg` unless the receiving side is gone or the channel is full.
    pub fn try_send(&mut self, msg: M) -> (r: SendOutcome<M>)
        requires
            old(self).wf(),
        ensures
            final(self).wf(),
            final(self).spec_capacity() == old(self).spec_capacity(),
            final(self).spec_receiver_open() == old(self).spec_receiver_open(),
            final(self).spec_senders_open() == old(self).spec_senders_open(),
            final(self).delivered() == old(self).delivered(),
            !old(self).spec_receiver_open() ==> r == SendOutcome::Closed(msg) && final(self).queued() == old(self).queued()
                && final(self).accepted() == old(self).accepted(),
            old(self).spec_receiver_open() && old(self).queued().len() == old(self).spec_capacity() ==> r
                == SendOutcome::Full(msg) && final(self).queued() == old(self).queued()
                && final(self).accepted() == old(self).accepted(),
            old(self).spec_receiver_open() && old(self).queued().len() < old(self).spec_capacity() ==> r
                == SendOutcome::<M>::Sent && final(self).queued() == old(self).queued().push(msg)
                && final(self).accepted() == old(self).accepted().push(msg),
    {
        if !self.receiver_open {
            SendOutcome::Closed(msg)
        } else if self.queue.len() == self.capacity {
            SendOutcome::Full(msg)
        } else {
            let ghost m = msg;
            self.queue.push_back(msg);
            self.accepted = Ghost(self.accepted@.push(m));
            assert(self.delivered@ + self.queue@ =~= self.accepted@);
            SendOutcome::Sent
        }
    }

    /// Takes the oldest waiting request, if any.
    pub fn try_recv(&mut self) -> (r: RecvOutcome<M>)
        requires
            old(self).wf(),
        ensures
            final(self).wf(),
            final(self).spec_capacity() == old(self).spec_capacity(),
            final(self).spec_receiver_open() == old(self).spec_receiver_open(),
            final(self).spec_senders_open() == old(self).spec_senders_open(),
            final(self).accepted() == old(self).accepted(),
            old(self).queued().len() > 0 ==> r == RecvOutcome::Message(old(self).queued()[0])
                && final(self).queued() == old(self).queued().drop_first()
                && final(self).delivered() == old(self).delivered().push(old(self).queued()[0]),
            old(self).queued().len() == 0 ==> final(self).queued() == old(self).queued()
                && final(self).delivered() == old(self).delivered()
                && r == (if old(self).spec_senders_open() {
                    RecvOutcome::<M>::Empty
                } else {
                    RecvOutcome::<M>::Closed
                }),
    {
        match self.queue.pop_front() {
            Some(msg) => {
                let ghost m = msg;
                self.delivered = Ghost(self.delivered@.push(m));
                assert(self.delivered@ + self.queue@ =~= self.accepted@) by {
                    assert(old(self).queue@ =~= seq![m] + self.queue@);
                }
                RecvOutcome::Message(msg)
            },
            None => {
                if self.senders_open {
                    RecvOutcome::Empty
                } else {
                    RecvOutcome::Closed
                }
            },
        }
    }

    /// Records that the receiving side is gone: later requests are turned away.
    pub fn close_receiver(&mut self)
        requires
            old(self).wf(),
        ensures
            final(self).wf(),
            !final(self).spec_receiver_open(),
            final(self).spec_senders_open() == old(self).spec_senders_open(),
            final(self).queued() == old(self).queued(),
            final(self).spec_capacity() == old(self).spec_capacity(),
            final(self).accepted() == old(self).accepted(),
            final(self).delivered() == old(self).delivered(),
    {
        self.receiver_open = false;
    }

    /// Records that every sending side is gone: once the queue is drained the
    /// receiver sees the channel closed.
    pub fn close_senders(&mut self)
        requires
            old(self).wf(),
        ensures
            final(self).wf(),
            !final(self).spec_senders_open(),
            final(self).spec_receiver_open() == old(self).spec_receiver_open(),
            final(self).queued() == old(self).queued(),
            final(self).spec_capacity() == old(self).spec_capacity(),
            final(self).accepted() == old(self).accepted(),
            final(self).delivered() == old(self).delivered(),
    {
        self.senders_open = false;
    }
}

/// Requests reach the receiver in exactly the order in which the channel
/// accepted them: the `i`-th request delivered is the `i`-th accepted, however
/// the submitters interleaved.
pub proof fn lemma_delivery_is_fifo<M>(ch: &RequestChannel<M>)
    requires
        ch.wf(),
    ensures
        ch.delivered().len() <= ch.accepted().len(),
        forall|i: int| 0 <= i < ch.delivered().len() ==> #[trigger] ch.delivered()[i] == ch.accepted()[i],
{
    assert forall|i: int| 0 <= i < ch.delivered().len() implies #[trigger] ch.delivered()[i]
        == ch.accepted()[i] by {
        assert(ch.accepted() == ch.delivered() + ch.queued());
    }
}

} // verus!
