use vstd::prelude::*;

use crate::frame::Frame;
use crate::frame::FrameView;

verus! {

/// A bounded FIFO queue of frames between one producer and one consumer.
///
/// The capacity is fixed at creation.  Submission never blocks: a full or
/// closed queue rejects the frame and the caller decides what to do with the
/// backpressure signal.  Closing is a one-way transition after which nothing
/// can be accepted any more, while the frames already accepted remain
/// available for draining.
///
/// The queue remembers (in ghost state) every frame it ever handed out, so
/// that its contracts can speak about the full accepted order: at any time
/// the drained frames are exactly the first `drained().len()` frames ever
/// accepted, in order.
pub struct BoundedQueue {
    frames: Vec<Frame>,
    capacity: usize,
    closed: bool,
    taken: Ghost<Seq<FrameView>>,
}

impl BoundedQueue {
    /// The fixed capacity.
    pub closed spec fn cap(self) -> nat {
        self.capacity as nat
    }

    /// Frames accepted and not yet drained, oldest first.
    pub closed spec fn live(self) -> Seq<FrameView> {
        self.frames@.map_values(|f: Frame| f@)
    }

    /// Frames already drained, in the order they were handed out.
    pub closed spec fn drained(self) -> Seq<FrameView> {
        self.taken@
    }

    /// Every frame ever accepted, in submission order.
    pub open spec fn accepted(self) -> Seq<FrameView> {
        self.drained() + self.live()
    }

    /// Whether the queue has been closed.
    pub closed spec fn closed_flag(self) -> bool {
        self.closed
    }

    /// Occupancy never exceeds the capacity, which is at least 1.
    pub open spec fn wf(self) -> bool {
        &&& self.live().len() <= self.cap()
        &&& self.cap() >= 1
    }

    /// A fresh open queue of capacity `capacity`.
    pub fn new(capacity: usize) -> (q: BoundedQueue)
        requires
            capacity >= 1,
        ensures
            q.wf(),
            q.cap() == capacity,
            q.live() == Seq::<FrameView>::empty(),
            q.drained() == Seq::<FrameView>::empty(),
            !q.closed_flag(),
    {
        let q = BoundedQueue {
            frames: Vec::new(),
            capacity,
            closed: false,
            taken: Ghost(Seq::empty()),
        };
        proof {
            assert(q.live() =~= Seq::<FrameView>::empty());
        }
        q
    }

    /// Current occupancy.
    pub fn len(&self) -> (n: usize)
        ensures
            n == self.live().len(),
    {
        self.frames.len()
    }

    /// Whether the occupancy has reached the capacity.
    pub fn is_full(&self) -> (r: bool)
        requires
            self.wf(),
        ensures
            r <==> self.live().len() == self.cap(),
    {
        self.frames.len() == self.capacity
    }

    /// Whether no undrained frame remains.
    pub fn is_empty(&self) -> (r: bool)
        ensures
            r <==> self.live().len() == 0,
    {
        self.frames.len() == 0
    }

    /// Whether the queue has been closed.
    pub fn is_closed(&self) -> (r: bool)
        ensures
            r == self.closed_flag(),
    {
        self.closed
    }

    /// Non-blocking submission: the frame is accepted exactly when the queue
    /// is neither closed nor full.  A rejection changes nothing — in
    /// particular it does not consume capacity and leaves the accepted
    /// history as it was.
    pub fn submit(&mut self, f: Frame) -> (accepted: bool)
        requires
            old(self).wf(),
        ensures
            final(self).wf(),
            accepted <==> (!old(self).closed_flag() && old(self).live().len() < old(self).cap()),
            accepted ==> final(self).live() == old(self).live().push(f@),
            !accepted ==> *final(self) == *old(self),
            final(self).cap() == old(self).cap(),
            final(self).closed_flag() == old(self).closed_flag(),
            final(self).drained() == old(self).drained(),
    {
        if self.closed || self.frames.len() == self.capacity {
            return false;
        }
        self.frames.push(f);
        proof {
            assert(final(self).live() =~= old(self).live().push(f@));
        }
        true
    }

    /// Hand out the oldest undrained frame, if any.  The frame handed out is
    /// appended to the drained history, so the accepted order as a whole
    /// never changes.
    pub fn pop_front(&mut self) -> (r: Option<Frame>)
        requires
            old(self).wf(),
        ensures
            final(self).wf(),
            final(self).cap() == old(self).cap(),
            final(self).closed_flag() == old(self).closed_flag(),
            final(self).accepted() == old(self).accepted(),
            old(self).live().len() == 0 ==> r is None && *final(self) == *old(self),
            old(self).live().len() > 0 ==> (r matches Some(f) && f@ == old(self).live()[0]
                && final(self).live() == old(self).live().skip(1)
                && final(self).drained() == old(self).drained().push(old(self).live()[0])),
    {
        if self.frames.len() == 0 {
            return None;
        }
        let f = self.frames.remove(0);
        proof {
            self.taken@ = self.taken@.push(f@);
            assert(final(self).live() =~= old(self).live().skip(1));
            assert(final(self).accepted() =~= old(self).accepted());
        }
        Some(f)
    }

    /// One-way close.  Nothing is accepted afterwards; frames already
    /// accepted stay available for draining.
    pub fn close(&mut self)
        requires
            old(self).wf(),
        ensures
            final(self).wf(),
            final(self).closed_flag(),
            final(self).cap() == old(self).cap(),
            final(self).live() == old(self).live(),
            final(self).drained() == old(self).drained(),
    {
        self.closed = true;
    }
}

/// Law: the queue is first-in first-out.  At every moment the frames already
/// drained are exactly the oldest accepted frames, in submission order, and
/// the frames still queued are exactly the remaining ones, also in
/// submission order; once the queue has been fully drained, the drain order
/// as a whole equals the submission order.
pub proof fn lemma_fifo_order(q: BoundedQueue)
    ensures
        q.drained() == q.accepted().take(q.drained().len() as int),
        q.live() == q.accepted().skip(q.drained().len() as int),
        q.live().len() == 0 ==> q.drained() == q.accepted(),
{
    assert(q.drained() =~= q.accepted().take(q.drained().len() as int));
    assert(q.live() =~= q.accepted().skip(q.drained().len() as int));
    if q.live().len() == 0 {
        assert(q.drained() =~= q.accepted());
    }
}

} // verus!
