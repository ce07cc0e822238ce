use vstd::prelude::*;

use crate::errors::EncoderError;

verus! {

#[verifier::external_type_specification]
#[verifier::external_body]
#[verifier::reject_recursive_types(T)]
pub struct ExSender<T>(futures_channel::oneshot::Sender<T>);

#[verifier::external_type_specification]
#[verifier::external_body]
#[verifier::reject_recursive_types(T)]
pub struct ExReceiver<T>(futures_channel::oneshot::Receiver<T>);

#[verifier::external_type_specification]
#[verifier::external_body]
pub struct ExCanceled(futures_channel::oneshot::Canceled);

/// What one owner-side observation of the worker's channel saw.
pub enum WorkerSignal {
    /// The worker side is still alive and has not resolved yet.
    Pending,
    /// The worker delivered this artifact locator.
    Delivered(String),
    /// The worker side was dropped without ever resolving.
    Dropped,
}

/// Relies on `futures_channel::oneshot::channel`: creates a connected
/// sender/receiver pair for a single value.
#[verifier::external_body]
fn oneshot_channel() -> (r: (
    futures_channel::oneshot::Sender<String>,
    futures_channel::oneshot::Receiver<String>,
)) {
    futures_channel::oneshot::channel()
}

/// Relies on `futures_channel::oneshot::Sender::send`: delivers the value to
/// the receiver, or returns it when the receiver is already gone.  Either
/// way the sender is consumed.
#[verifier::external_body]
fn oneshot_send(sender: futures_channel::oneshot::Sender<String>, value: String) -> (delivered:
    bool) {
    match sender.send(value) {
        Ok(()) => true,
        Err(_) => false,
    }
}

/// Relies on `futures_channel::oneshot::Receiver::try_recv`: without
/// blocking or scheduling a wakeup, returns the value if one was sent,
/// `Ok(None)` while the sender is still alive, and `Err(Canceled)` if the
/// sender was dropped without sending.
#[verifier::external_body]
fn oneshot_try_recv(receiver: &mut futures_channel::oneshot::Receiver<String>) -> (s:
    WorkerSignal) {
    match receiver.try_recv() {
        Ok(Some(value)) => WorkerSignal::Delivered(value),
        Ok(None) => WorkerSignal::Pending,
        Err(_) => WorkerSignal::Dropped,
    }
}

/// What an observed signal means for the pipeline: nothing yet while the
/// worker is still running; a delivered artifact is the success outcome; a
/// worker that went away without resolving is reported as an encoding
/// failure, never as silence.
pub fn interpret_signal(signal: WorkerSignal) -> (r: Option<Result<String, EncoderError>>)
    ensures
        signal is Pending ==> r is None,
        signal matches WorkerSignal::Delivered(value) ==> r == Some(Result::<String,
            EncoderError,
        >::Ok(value)),
        signal is Dropped ==> r == Some(Result::<String, EncoderError>::Err(
            EncoderError::EncodingFailure,
        )),
{
    match signal {
        WorkerSignal::Pending => None,
        WorkerSignal::Delivered(value) => Some(Ok(value)),
        WorkerSignal::Dropped => Some(Err(EncoderError::EncodingFailure)),
    }
}

/// Worker-side half of the completion bridge.  Consuming it is the only way
/// to resolve the bridge, so the bridge is resolved at most once; dropping
/// it without resolving is observed by the owner as a worker abort.
pub struct BridgeResolver {
    sender: futures_channel::oneshot::Sender<String>,
}

impl BridgeResolver {
    /// Resolve the bridge with a successful artifact locator.
    pub fn resolve_artifact(self, artifact: String) {
        let _delivered = oneshot_send(self.sender, artifact);
    }

    /// Resolve the bridge with a failure: the sender is dropped without a
    /// value, which the owner reads as an encoding failure.
    pub fn resolve_abort(self) {
    }
}

/// Owner-side half of the completion bridge: a one-shot, single-consumer
/// result slot.  The outcome can be taken exactly once; afterwards the
/// bridge remembers that it was retrieved and every further read fails with
/// a distinct error instead of repeating the value.
pub struct CompletionBridge {
    receiver: Option<futures_channel::oneshot::Receiver<String>>,
}

impl CompletionBridge {
    /// Whether the outcome has already been taken out of the bridge.
    pub closed spec fn retrieved(self) -> bool {
        self.receiver is None
    }

    /// Whether the outcome has already been taken, as an executable query.
    pub fn is_retrieved(&self) -> (r: bool)
        ensures
            r == self.retrieved(),
    {
        self.receiver.is_none()
    }

    /// Non-blocking owner-side read.
    ///
    /// Before the worker has resolved, returns `Ok(None)` and the outcome
    /// remains takeable.  The first conclusive read consumes the slot:
    /// `Ok(Some(artifact))` on success, `Err(EncodingFailure)` when the
    /// worker went away without resolving.  Every read after a conclusive
    /// one returns `Err(AlreadyRetrieved)` and changes nothing.
    pub fn poll(&mut self) -> (r: Result<Option<String>, EncoderError>)
        ensures
            old(self).retrieved() ==> r == Result::<Option<String>, EncoderError>::Err(
                EncoderError::AlreadyRetrieved,
            ) && *final(self) == *old(self),
            !old(self).retrieved() ==> match r {
                Ok(taken) => (taken is None <==> !final(self).retrieved()),
                Err(e) => e == EncoderError::EncodingFailure && final(self).retrieved(),
            },
    {
        match self.receiver.take() {
            None => Err(EncoderError::AlreadyRetrieved),
            Some(mut receiver) => match interpret_signal(oneshot_try_recv(&mut receiver)) {
                None => {
                    self.receiver = Some(receiver);
                    Ok(None)
                },
                Some(Ok(artifact)) => Ok(Some(artifact)),
                Some(Err(_)) => Err(EncoderError::EncodingFailure),
            },
        }
    }
}

/// A fresh, unresolved, untaken completion bridge.
pub fn new_bridge() -> (r: (BridgeResolver, CompletionBridge))
    ensures
        !r.1.retrieved(),
{
    let (sender, receiver) = oneshot_channel();
    (BridgeResolver { sender }, CompletionBridge { receiver: Some(receiver) })
}

} // verus!
