use vstd::prelude::*;

use crate::bridge::new_bridge;
use crate::bridge::BridgeResolver;
use crate::bridge::CompletionBridge;
use crate::errors::EncoderError;
use crate::frame::Frame;
use crate::frame::FrameView;
use crate::queue::lemma_fifo_order;
use crate::queue::BoundedQueue;
use crate::worker::finish_outcome;
use crate::worker::WorkerOutcome;

verus! {

/// Lifecycle of the controller.  `Open` accepts frames; `close` moves to
/// `Closed`; once the completion bridge resolves, the controller ends in
/// `Finished` or `Failed`, both terminal.
#[derive(Clone, Copy, Debug, PartialEq, Eq, Structural)]
pub enum EncoderState {
    Open,
    Closed,
    Finished,
    Failed,
}

/// The pipeline controller: the single-use state machine that feeds frames
/// to one consumer worker through a bounded queue and observes the worker's
/// outcome through a one-shot completion bridge.
///
/// The producer side is `add_frame`, `close`, `is_closed`, `get_queue_size`
/// and `poll_completion`; the consumer side is `take_frame` and
/// `run_worker`.  The model is single-threaded: a concurrent deployment
/// gives the consumer its own execution context and drives exactly the same
/// transitions.
pub struct Encoder {
    state: EncoderState,
    frame_index: usize,
    rate: u32,
    queue: BoundedQueue,
    resolver: Option<BridgeResolver>,
    bridge: CompletionBridge,
}

impl Encoder {
    /// Where the controller stands in its lifecycle.
    pub closed spec fn phase(self) -> EncoderState {
        self.state
    }

    /// Number of frames accepted so far; the index of the next frame.
    pub closed spec fn frames_accepted(self) -> nat {
        self.frame_index as nat
    }

    /// The frame rate supplied at construction.
    pub closed spec fn rate_of(self) -> nat {
        self.rate as nat
    }

    /// The queue's fixed capacity.
    pub closed spec fn cap(self) -> nat {
        self.queue.cap()
    }

    /// Every frame ever accepted, in submission order.
    pub closed spec fn submitted(self) -> Seq<FrameView> {
        self.queue.accepted()
    }

    /// Frames accepted and not yet handed to the worker, oldest first.
    pub closed spec fn pending(self) -> Seq<FrameView> {
        self.queue.live()
    }

    /// Frames already handed to the worker, in the order handed out.
    pub closed spec fn fed(self) -> Seq<FrameView> {
        self.queue.drained()
    }

    /// Whether the worker's run has completed and resolved the bridge.
    pub closed spec fn worker_done(self) -> bool {
        self.resolver is None
    }

    /// Internal invariant: the queue is well formed; the frame counter
    /// equals the number of accepted frames; accepted frames carry the
    /// indices 0, 1, 2, ... in submission order and are well formed for the
    /// construction-time rate; the queue is closed exactly when the
    /// controller has left `Open`; and the completion result has been
    /// retrieved exactly in the terminal states.
    pub closed spec fn wf(self) -> bool {
        &&& self.queue.wf()
        &&& self.rate >= 1
        &&& self.frame_index as nat == self.queue.accepted().len()
        &&& forall|i: int|
            0 <= i < self.queue.accepted().len() ==> (#[trigger] self.queue.accepted()[i]).index
                == i && self.queue.accepted()[i].wf(self.rate as nat)
        &&& (self.state is Open <==> !self.queue.closed_flag())
        &&& ((self.state is Finished || self.state is Failed) <==> self.bridge.retrieved())
    }

    /// A fresh controller in the `Open` state, with an unresolved bridge and
    /// a worker that has not run yet.
    pub fn new(rate: u32, capacity: usize) -> (e: Encoder)
        requires
            rate >= 1,
            capacity >= 1,
        ensures
            e.wf(),
            e.phase() is Open,
            e.frames_accepted() == 0,
            e.submitted() == Seq::<FrameView>::empty(),
            e.pending() == Seq::<FrameView>::empty(),
            e.fed() == Seq::<FrameView>::empty(),
            e.cap() == capacity,
            e.rate_of() == rate,
            !e.worker_done(),
    {
        let (resolver, bridge) = new_bridge();
        let e = Encoder {
            state: EncoderState::Open,
            frame_index: 0,
            rate,
            queue: BoundedQueue::new(capacity),
            resolver: Some(resolver),
            bridge,
        };
        proof {
            assert(e.submitted() =~= Seq::<FrameView>::empty());
        }
        e
    }

    /// Submit one RGBA frame, without blocking.
    ///
    /// Outside `Open` the call fails with `UsedAfterClose` and changes
    /// nothing, whatever the queue holds.  In `Open`, a full queue rejects
    /// the frame with `Ok(false)` and neither the frame counter nor the
    /// queue moves; otherwise the frame is accepted with `Ok(true)`, takes
    /// the next index and the timestamp `index / rate`, and the counter
    /// advances by exactly 1.
    pub fn add_frame(&mut self, payload: Vec<u8>, width: u32, height: u32) -> (r: Result<
        bool,
        EncoderError,
    >)
        requires
            old(self).wf(),
            payload@.len() == width * height * 4,
            old(self).frames_accepted() < usize::MAX,
        ensures
            final(self).wf(),
            final(self).phase() == old(self).phase(),
            final(self).cap() == old(self).cap(),
            final(self).rate_of() == old(self).rate_of(),
            final(self).fed() == old(self).fed(),
            final(self).worker_done() == old(self).worker_done(),
            !(old(self).phase() is Open) ==> r == Result::<bool, EncoderError>::Err(
                EncoderError::UsedAfterClose,
            ) && *final(self) == *old(self),
            old(self).phase() is Open && old(self).pending().len() == old(self).cap() ==> r
                == Result::<bool, EncoderError>::Ok(false) && *final(self) == *old(self),
            old(self).phase() is Open && old(self).pending().len() < old(self).cap() ==> r
                == Result::<bool, EncoderError>::Ok(true) && final(self).frames_accepted() == old(self).frames_accepted() + 1 && final(self).submitted() == old(self).submitted().push(
                (FrameView {
                    index: old(self).frames_accepted(),
                    payload: payload@,
                    width: width as nat,
                    height: height as nat,
                    ts_num: old(self).frames_accepted(),
                    ts_den: old(self).rate_of(),
                }),
            ) && final(self).pending() == old(self).pending().push(
                (FrameView {
                    index: old(self).frames_accepted(),
                    payload: payload@,
                    width: width as nat,
                    height: height as nat,
                    ts_num: old(self).frames_accepted(),
                    ts_den: old(self).rate_of(),
                }),
            ),
    {
        match self.state {
            EncoderState::Open => {
                if self.queue.is_full() {
                    return Ok(false);
                }
                let f = Frame::new(self.frame_index, payload, width, height, self.rate);
                let _accepted = self.queue.submit(f);
                self.frame_index = self.frame_index + 1;
                proof {
                    assert(self.submitted() =~= old(self).submitted().push(f@));
                    assert(self.pending() =~= old(self).pending().push(f@));
                }
                Ok(true)
            },
            _ => Err(EncoderError::UsedAfterClose),
        }
    }

    /// Close the controller: a one-way transition out of `Open`.
    ///
    /// The queue stops accepting frames, while the frames already accepted
    /// stay queued for the worker to drain.  A second call — from `Closed`
    /// or from a terminal state — fails with `AlreadyClosed` and changes
    /// nothing, so it can never re-trigger finalization.
    pub fn close(&mut self) -> (r: Result<(), EncoderError>)
        requires
            old(self).wf(),
        ensures
            final(self).wf(),
            !(old(self).phase() is Open) ==> r == Result::<(), EncoderError>::Err(
                EncoderError::AlreadyClosed,
            ) && *final(self) == *old(self),
            old(self).phase() is Open ==> r == Result::<(), EncoderError>::Ok(()) && final(self).phase() is Closed && final(self).submitted() == old(self).submitted() && final(self).pending() == old(self).pending() && final(self).fed() == old(self).fed() && final(self).frames_accepted() == old(self).frames_accepted() && final(self).cap() == old(self).cap() && final(self).rate_of() == old(self).rate_of() && final(self).worker_done()
                == old(self).worker_done(),
    {
        match self.state {
            EncoderState::Open => {
                self.queue.close();
                self.state = EncoderState::Closed;
                Ok(())
            },
            _ => Err(EncoderError::AlreadyClosed),
        }
    }

    /// Whether the controller has left the `Open` state.  Once true it stays
    /// true: the controller cannot reopen.
    pub fn is_closed(&self) -> (r: bool)
        ensures
            r == !(self.phase() is Open),
    {
        match self.state {
            EncoderState::Open => false,
            _ => true,
        }
    }

    /// Current queue occupancy, for backpressure decisions.  Remains
    /// queryable in every state, including after a failure.
    pub fn get_queue_size(&self) -> (n: usize)
        ensures
            n == self.pending().len(),
    {
        self.queue.len()
    }

    /// Consumer-side: hand out the oldest queued frame, if any.  Frames come
    /// out in exactly the order they were accepted.
    pub fn take_frame(&mut self) -> (r: Option<Frame>)
        requires
            old(self).wf(),
        ensures
            final(self).wf(),
            final(self).phase() == old(self).phase(),
            final(self).submitted() == old(self).submitted(),
            final(self).frames_accepted() == old(self).frames_accepted(),
            final(self).cap() == old(self).cap(),
            final(self).rate_of() == old(self).rate_of(),
            final(self).worker_done() == old(self).worker_done(),
            old(self).pending().len() == 0 ==> r is None && *final(self) == *old(self),
            old(self).pending().len() > 0 ==> (r matches Some(f) && f@ == old(self).pending()[0]
                && final(self).pending() == old(self).pending().skip(1) && final(self).fed() == old(self).fed().push(old(self).pending()[0])),
    {
        self.queue.pop_front()
    }

    /// The consumer worker's run once the controller is closed: drain every
    /// remaining frame in submission order, then resolve the completion
    /// bridge by the finalization rule of [`finish_outcome`] — with the
    /// engine's artifact locator if the engine delivered one over at least
    /// one fed frame, and as an abort otherwise.  The bridge is resolved on
    /// every path; the frames drained by this run are returned in the order
    /// they were handed to the engine.
    pub fn run_worker(&mut self, engine_artifact: Option<String>) -> (fed_now: Vec<Frame>)
        requires
            old(self).wf(),
            old(self).phase() is Closed,
            !old(self).worker_done(),
        ensures
            final(self).wf(),
            final(self).phase() is Closed,
            final(self).submitted() == old(self).submitted(),
            final(self).frames_accepted() == old(self).frames_accepted(),
            final(self).cap() == old(self).cap(),
            final(self).rate_of() == old(self).rate_of(),
            final(self).pending().len() == 0,
            fed_now@.map_values(|f: Frame| f@) == old(self).pending(),
            final(self).fed() == old(self).fed() + old(self).pending(),
            final(self).worker_done(),
    {
        let ghost init = *self;
        let mut fed_now: Vec<Frame> = Vec::new();
        proof {
            assert(fed_now@.map_values(|f: Frame| f@) =~= init.pending().take(0));
            assert(self.pending() =~= init.pending().skip(0));
            assert(self.fed() =~= init.fed() + fed_now@.map_values(|f: Frame| f@));
        }
        while !self.queue.is_empty()
            invariant
                self.wf(),
                self.phase() is Closed,
                !self.worker_done(),
                self.submitted() == init.submitted(),
                self.frames_accepted() == init.frames_accepted(),
                self.cap() == init.cap(),
                self.rate_of() == init.rate_of(),
                self.bridge == init.bridge,
                fed_now@.len() <= init.pending().len(),
                fed_now@.map_values(|f: Frame| f@) == init.pending().take(fed_now@.len() as int),
                self.pending() == init.pending().skip(fed_now@.len() as int),
                self.fed() == init.fed() + fed_now@.map_values(|f: Frame| f@),
            decreases self.pending().len(),
        {
            let next = self.queue.pop_front();
            match next {
                Some(f) => {
                    fed_now.push(f);
                    proof {
                        assert(fed_now@.map_values(|fr: Frame| fr@) =~= init.pending().take(
                            fed_now@.len() as int,
                        ));
                        assert(self.pending() =~= init.pending().skip(fed_now@.len() as int));
                        assert(self.fed() =~= init.fed() + fed_now@.map_values(|fr: Frame| fr@));
                    }
                },
                None => {},
            }
        }
        proof {
            assert(fed_now@.map_values(|f: Frame| f@) =~= init.pending());
            assert(self.fed() =~= init.fed() + init.pending());
        }
        let outcome = finish_outcome(self.frame_index, engine_artifact);
        let resolver = self.resolver.take();
        match resolver {
            Some(res) => match outcome {
                WorkerOutcome::Artifact(artifact) => res.resolve_artifact(artifact),
                WorkerOutcome::Abort => res.resolve_abort(),
            },
            None => {},
        }
        fed_now
    }

    /// Non-blocking owner-side read of the completion bridge.
    ///
    /// From `Closed`: `Ok(None)` while the worker has not resolved yet, and
    /// the controller stays in `Closed`; the first conclusive read moves the
    /// controller to its terminal state — `Ok(Some(artifact))` to
    /// `Finished`, `Err(EncodingFailure)` to `Failed`.  A worker that went
    /// away without resolving is read as `EncodingFailure`, never as
    /// silence.  From a terminal state the result has already been
    /// retrieved, and the call fails with `AlreadyRetrieved` instead of
    /// repeating it.
    pub fn poll_completion(&mut self) -> (r: Result<Option<String>, EncoderError>)
        requires
            old(self).wf(),
            !(old(self).phase() is Open),
        ensures
            final(self).wf(),
            final(self).submitted() == old(self).submitted(),
            final(self).pending() == old(self).pending(),
            final(self).fed() == old(self).fed(),
            final(self).frames_accepted() == old(self).frames_accepted(),
            final(self).cap() == old(self).cap(),
            final(self).rate_of() == old(self).rate_of(),
            final(self).worker_done() == old(self).worker_done(),
            (old(self).phase() is Finished || old(self).phase() is Failed) ==> r == Result::<
                Option<String>,
                EncoderError,
            >::Err(EncoderError::AlreadyRetrieved) && *final(self) == *old(self),
            old(self).phase() is Closed ==> match r {
                Ok(taken) => (taken is None ==> final(self).phase() is Closed) && (taken is Some
                    ==> final(self).phase() is Finished),
                Err(e) => e == EncoderError::EncodingFailure && final(self).phase() is Failed,
            },
    {
        let polled = self.bridge.poll();
        match polled {
            Err(EncoderError::AlreadyRetrieved) => Err(EncoderError::AlreadyRetrieved),
            Err(_) => {
                self.state = EncoderState::Failed;
                Err(EncoderError::EncodingFailure)
            },
            Ok(None) => Ok(None),
            Ok(Some(artifact)) => {
                self.state = EncoderState::Finished;
                Ok(Some(artifact))
            },
        }
    }
}

/// Law: the artifact's frame order equals the submission order.  In every
/// reachable controller the accepted frames carry the indices 0, 1, 2, ...
/// in submission order, each with the timestamp `index / rate`; the frames
/// already handed to the worker are exactly the oldest accepted ones, in
/// that same order; and once nothing is pending the worker has been handed
/// every accepted frame, in submission order.
pub proof fn lemma_submission_order(e: Encoder)
    requires
        e.wf(),
    ensures
        e.frames_accepted() == e.submitted().len(),
        forall|i: int|
            0 <= i < e.submitted().len() ==> (#[trigger] e.submitted()[i]).index == i
                && e.submitted()[i].wf(e.rate_of()),
        e.fed() == e.submitted().take(e.fed().len() as int),
        e.pending() == e.submitted().skip(e.fed().len() as int),
        e.pending().len() == 0 ==> e.fed() == e.submitted(),
{
    lemma_fifo_order(e.queue);
}

} // verus!
