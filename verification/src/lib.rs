//! A lifetime-safe scoped-concurrency model and a single-producer /
//! single-consumer streaming pipeline built on top of it.
//!
//! The crate provides the state machines that make such a pipeline safe to
//! drive: a [`scope::Scope`] that tracks outstanding workers and aggregates
//! their failures, a bounded FIFO [`queue::BoundedQueue`] with explicit
//! backpressure and an explicit close protocol, a one-shot
//! [`bridge::CompletionBridge`] that carries the worker's outcome back to the
//! owner, and the [`encoder::Encoder`] controller that composes them into the
//! Open -> Closed -> Finished/Failed lifecycle.

pub mod bridge;
pub mod encoder;
pub mod errors;
pub mod frame;
pub mod queue;
pub mod scope;
pub mod worker;
