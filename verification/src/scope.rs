use vstd::prelude::*;

verus! {

/// Number of workers a host is assumed to be able to run in parallel.
///
/// The targeted host environment cannot report its own parallelism, so a
/// fixed estimate is used instead.
pub fn available_parallelism() -> (r: usize)
    ensures
        r == 8,
{
    8
}

/// Bookkeeping state of a scope: a region of execution that must not return
/// to its caller while any worker spawned inside it is still running.
///
/// The scope counts outstanding workers and remembers, stickily, whether any
/// of them failed.  The blocking wait loop itself belongs to the runtime that
/// drives the scope; it repeatedly asks [`Scope::wait_finished`] until the
/// count has returned to zero, and only then asks [`Scope::outcome`] for the
/// aggregated result.
pub struct Scope {
    running: usize,
    failed: bool,
    spawned: Ghost<nat>,
    exited: Ghost<nat>,
}

/// Result of a completed scope, in the precedence order of
/// [`Scope::outcome`].
#[derive(Clone, Copy, Debug, PartialEq, Eq, Structural)]
pub enum ScopeOutcome {
    /// The scope body and every worker succeeded; the body's value stands.
    Completed,
    /// The scope body itself failed; its failure takes precedence.
    BodyFailure,
    /// The body succeeded but at least one worker failed.
    WorkerFailure,
}

impl Scope {
    /// Number of workers spawned and not yet exited.
    pub closed spec fn running_count(self) -> nat {
        self.running as nat
    }

    /// Whether any worker has failed so far.  Sticky: never reverts to false.
    pub closed spec fn has_failed(self) -> bool {
        self.failed
    }

    /// Total number of workers ever spawned in this scope.
    pub closed spec fn spawned_count(self) -> nat {
        self.spawned@
    }

    /// Total number of workers that have exited, each counted exactly once.
    pub closed spec fn exited_count(self) -> nat {
        self.exited@
    }

    /// The running count is exactly the spawned workers not yet exited.
    pub closed spec fn wf(self) -> bool {
        self.spawned@ == self.exited@ + self.running as nat
    }

    /// A fresh scope: no workers yet, no failure recorded.
    pub fn new() -> (s: Scope)
        ensures
            s.wf(),
            s.running_count() == 0,
            s.spawned_count() == 0,
            s.exited_count() == 0,
            !s.has_failed(),
    {
        Scope { running: 0, failed: false, spawned: Ghost(0), exited: Ghost(0) }
    }

    /// Record one spawned worker.  The count is incremented before the worker
    /// is launched, so the wait loop can never observe zero while a launched
    /// worker has not exited.
    pub fn spawn_worker(&mut self)
        requires
            old(self).wf(),
            old(self).running_count() < usize::MAX,
        ensures
            final(self).wf(),
            final(self).running_count() == old(self).running_count() + 1,
            final(self).spawned_count() == old(self).spawned_count() + 1,
            final(self).exited_count() == old(self).exited_count(),
            final(self).has_failed() == old(self).has_failed(),
    {
        self.running = self.running + 1;
        proof {
            self.spawned@ = self.spawned@ + 1;
        }
    }

    /// Record that one worker has exited; `ok` says whether it succeeded.
    /// A worker failure sets the sticky failure flag and still decrements the
    /// running count normally, so the wait loop always terminates.
    pub fn worker_exit(&mut self, ok: bool)
        requires
            old(self).wf(),
            old(self).running_count() > 0,
        ensures
            final(self).wf(),
            final(self).running_count() == old(self).running_count() - 1,
            final(self).spawned_count() == old(self).spawned_count(),
            final(self).exited_count() == old(self).exited_count() + 1,
            final(self).has_failed() == (old(self).has_failed() || !ok),
    {
        self.running = self.running - 1;
        if !ok {
            self.failed = true;
        }
        proof {
            self.exited@ = self.exited@ + 1;
        }
    }

    /// The check made by each round of the scope's wait loop: the scope may
    /// return exactly when every spawned worker has exited.
    pub fn wait_finished(&self) -> (done: bool)
        requires
            self.wf(),
        ensures
            done <==> self.running_count() == 0,
            done <==> self.exited_count() == self.spawned_count(),
    {
        self.running == 0
    }

    /// Aggregate the scope's result once every worker has exited.
    ///
    /// Precedence: a failure of the scope body itself wins; otherwise a
    /// recorded worker failure is reported; otherwise the body's value
    /// stands.
    pub fn outcome(&self, body_ok: bool) -> (r: ScopeOutcome)
        requires
            self.wf(),
            self.running_count() == 0,
        ensures
            r == (if !body_ok {
                ScopeOutcome::BodyFailure
            } else if self.has_failed() {
                ScopeOutcome::WorkerFailure
            } else {
                ScopeOutcome::Completed
            }),
    {
        if !body_ok {
            ScopeOutcome::BodyFailure
        } else if self.failed {
            ScopeOutcome::WorkerFailure
        } else {
            ScopeOutcome::Completed
        }
    }
}

/// The failure flag after a fresh-start scope with flag `init` has seen the
/// exits in `exits_ok`, oldest first; `true` entries are successful exits.
/// One step of this function is exactly what [`Scope::worker_exit`] ensures
/// of the flag.
pub open spec fn failed_after(init: bool, exits_ok: Seq<bool>) -> bool
    decreases exits_ok.len(),
{
    if exits_ok.len() == 0 {
        init
    } else {
        failed_after(init || !exits_ok[0], exits_ok.skip(1))
    }
}

/// Law: the failure flag is sticky and aggregates every worker.  After any
/// sequence of exits the flag is set if and only if it was already set or
/// some worker in the sequence failed — in particular it is set even when
/// the earliest exits succeeded, and it never reverts.
pub proof fn lemma_failure_aggregation(init: bool, exits_ok: Seq<bool>)
    ensures
        failed_after(init, exits_ok) <==> (init || exists|i: int|
            0 <= i < exits_ok.len() && !exits_ok[i]),
    decreases exits_ok.len(),
{
    if exits_ok.len() == 0 {
    } else {
        let rest = exits_ok.skip(1);
        lemma_failure_aggregation(init || !exits_ok[0], rest);
        assert forall|i: int| 0 <= i < rest.len() && !rest[i] implies exists|j: int|
            0 <= j < exits_ok.len() && !exits_ok[j] by {
            assert(exits_ok[i + 1] == rest[i]);
        }
        if exists|j: int| 0 <= j < exits_ok.len() && !exits_ok[j] {
            let j = choose|j: int| 0 <= j < exits_ok.len() && !exits_ok[j];
            if j > 0 {
                assert(rest[j - 1] == exits_ok[j]);
            }
        }
    }
}

} // verus!
