use vstd::prelude::*;

verus! {

/// What the consumer worker does next, decided at the top of its loop.
#[derive(Clone, Copy, Debug, PartialEq, Eq, Structural)]
pub enum ConsumerAction {
    /// Take the oldest queued frame and feed it to the encoding engine.
    Feed,
    /// Nothing queued but the queue is still open: suspend briefly and look
    /// again — never finalize early, never busy-spin on a decision.
    Wait,
    /// Nothing queued and the queue is closed: every accepted frame has been
    /// fed, so finalize the artifact.
    Finalize,
}

/// The worker's outcome, as it resolves the completion bridge.
pub enum WorkerOutcome {
    /// The engine produced an artifact; resolve the bridge with its locator.
    Artifact(String),
    /// The worker aborts without an artifact; the bridge is resolved as a
    /// failure, never left unresolved.
    Abort,
}

/// The consumer loop's decision rule.  Frames are fed as long as any are
/// queued; an empty queue means waiting while it is open and finalizing once
/// it is closed, so the worker finalizes only after draining every frame
/// accepted before the close.
pub fn consumer_step(queue_empty: bool, closed: bool) -> (a: ConsumerAction)
    ensures
        !queue_empty ==> a == ConsumerAction::Feed,
        queue_empty && !closed ==> a == ConsumerAction::Wait,
        queue_empty && closed ==> a == ConsumerAction::Finalize,
{
    if !queue_empty {
        ConsumerAction::Feed
    } else if !closed {
        ConsumerAction::Wait
    } else {
        ConsumerAction::Finalize
    }
}

/// The worker's finalization rule.  A drain of zero frames is a failure —
/// an empty-but-successful artifact is never produced — and so is an engine
/// that did not deliver an artifact; only a delivered artifact over at least
/// one frame succeeds.
pub fn finish_outcome(frames_fed: usize, engine_artifact: Option<String>) -> (r: WorkerOutcome)
    ensures
        frames_fed == 0 ==> r is Abort,
        frames_fed > 0 ==> match engine_artifact {
            Some(artifact) => r == WorkerOutcome::Artifact(artifact),
            None => r is Abort,
        },
{
    if frames_fed == 0 {
        WorkerOutcome::Abort
    } else {
        match engine_artifact {
            Some(artifact) => WorkerOutcome::Artifact(artifact),
            None => WorkerOutcome::Abort,
        }
    }
}

} // verus!
