use gifpipe::scope::available_parallelism;
use gifpipe::scope::Scope;
use gifpipe::scope::ScopeOutcome;
use gifpipe::worker::consumer_step;
use gifpipe::worker::finish_outcome;
use gifpipe::worker::ConsumerAction;
use gifpipe::worker::WorkerOutcome;

#[test]
fn available_parallelism_is_fixed_estimate() {
    assert_eq!(available_parallelism(), 8);
}

#[test]
fn scenario_two_workers_one_fails() {
    // Two workers under one scope, one of which fails internally: the wait
    // completes only after both have exited, and the scope reports an
    // aggregated failure even though the first worker to finish succeeded.
    let mut scope = Scope::new();
    scope.spawn_worker();
    scope.spawn_worker();
    assert!(!scope.wait_finished());

    scope.worker_exit(true);
    assert!(!scope.wait_finished());

    scope.worker_exit(false);
    assert!(scope.wait_finished());
    assert_eq!(scope.outcome(true), ScopeOutcome::WorkerFailure);
}

#[test]
fn scope_body_failure_takes_precedence() {
    let mut scope = Scope::new();
    scope.spawn_worker();
    scope.worker_exit(false);
    assert!(scope.wait_finished());
    assert_eq!(scope.outcome(false), ScopeOutcome::BodyFailure);
}

#[test]
fn scope_all_succeed() {
    let mut scope = Scope::new();
    scope.spawn_worker();
    scope.worker_exit(true);
    scope.spawn_worker();
    scope.worker_exit(true);
    assert!(scope.wait_finished());
    assert_eq!(scope.outcome(true), ScopeOutcome::Completed);
}

#[test]
fn scope_failure_is_sticky() {
    // Once a worker has failed, later successful exits never clear the flag.
    let mut scope = Scope::new();
    scope.spawn_worker();
    scope.spawn_worker();
    scope.spawn_worker();
    scope.worker_exit(false);
    scope.worker_exit(true);
    scope.worker_exit(true);
    assert!(scope.wait_finished());
    assert_eq!(scope.outcome(true), ScopeOutcome::WorkerFailure);
}

#[test]
fn consumer_step_decisions() {
    assert_eq!(consumer_step(false, false), ConsumerAction::Feed);
    assert_eq!(consumer_step(false, true), ConsumerAction::Feed);
    assert_eq!(consumer_step(true, false), ConsumerAction::Wait);
    assert_eq!(consumer_step(true, true), ConsumerAction::Finalize);
}

#[test]
fn finish_outcome_rules() {
    match finish_outcome(0, Some(String::from("blob:empty"))) {
        WorkerOutcome::Abort => {}
        WorkerOutcome::Artifact(_) => panic!("zero frames must abort"),
    }
    match finish_outcome(2, None) {
        WorkerOutcome::Abort => {}
        WorkerOutcome::Artifact(_) => panic!("a failed engine must abort"),
    }
    match finish_outcome(2, Some(String::from("blob:ok"))) {
        WorkerOutcome::Artifact(url) => assert_eq!(url, "blob:ok"),
        WorkerOutcome::Abort => panic!("frames and an artifact must succeed"),
    }
}
