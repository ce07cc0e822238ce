use vstd::prelude::*;

verus! {

/// Errors surfaced by the pipeline to its owner.
///
/// A full queue is not an error: it is the backpressure signal, reported as a
/// `false` return from a submission so the caller can retry later.
#[derive(Clone, Copy, Debug, PartialEq, Eq, Structural)]
pub enum EncoderError {
    /// A frame was submitted after the controller left the `Open` state.
    UsedAfterClose,
    /// `close` was called a second time.
    AlreadyClosed,
    /// The completion result was read a second time.
    AlreadyRetrieved,
    /// The worker failed to produce an artifact; terminal for this pipeline.
    EncodingFailure,
}

} // verus!
