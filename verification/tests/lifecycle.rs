use media_bridge::lifecycle::{
    register_media_activity_event, unregister_media_activity_event, RegistrationController,
    WorkerPhase,
};

#[test]
fn register_is_idempotent() {
    let mut ctrl = RegistrationController::new();
    let first = register_media_activity_event(&mut ctrl);
    assert!(first.is_some());
    let worker = first.unwrap();
    assert_eq!(worker.generation, 1);
    assert_eq!(worker.phase, WorkerPhase::Starting);
    assert!(ctrl.running);

    for _ in 0..3 {
        let again = register_media_activity_event(&mut ctrl);
        assert!(again.is_none());
    }
    // The generation counts spawned workers: still exactly one.
    assert_eq!(ctrl.generation, 1);
}

#[test]
fn unregister_when_not_registered_is_noop() {
    let mut ctrl = RegistrationController::new();
    unregister_media_activity_event(&mut ctrl);
    unregister_media_activity_event(&mut ctrl);
    assert!(!ctrl.running);
    assert_eq!(ctrl.generation, 0);
    assert_eq!(ctrl.subs_created, 0);
    assert_eq!(ctrl.subs_closed, 0);
}

#[test]
fn start_stop_start_creates_second_worker_and_closes_first() {
    let mut ctrl = RegistrationController::new();
    let mut first = register_media_activity_event(&mut ctrl).unwrap();
    ctrl.worker_subscribed(&mut first);
    first.begin_wait();
    assert_eq!(ctrl.subs_created, 1);

    unregister_media_activity_event(&mut ctrl);
    let second = register_media_activity_event(&mut ctrl);
    assert!(second.is_some(), "flag must not be stuck after unregister");
    let mut second = second.unwrap();
    assert_eq!(second.generation, 2);

    // The first worker wakes after the second start: it is stale, exits and
    // its subscription's close is counted; the new registration is untouched.
    let keep = ctrl.worker_awakened(&mut first);
    assert!(!keep);
    assert_eq!(first.phase, WorkerPhase::Exited);
    assert_eq!(ctrl.subs_closed, 1);
    assert!(ctrl.running);

    // The second worker lives on independently.
    ctrl.worker_subscribed(&mut second);
    second.begin_wait();
    let keep = ctrl.worker_awakened(&mut second);
    assert!(keep);
    assert_eq!(second.phase, WorkerPhase::WaitingForStop);
    assert_eq!(ctrl.subs_created, 2);
}

#[test]
fn no_missed_stop_worker_exits_on_first_wake() {
    let mut ctrl = RegistrationController::new();
    let mut worker = register_media_activity_event(&mut ctrl).unwrap();
    ctrl.worker_subscribed(&mut worker);
    worker.begin_wait();

    unregister_media_activity_event(&mut ctrl);
    let keep = ctrl.worker_awakened(&mut worker);
    assert!(!keep);
    assert_eq!(worker.phase, WorkerPhase::Exited);
    assert_eq!(ctrl.subs_closed, 1);
}

#[test]
fn spurious_wake_keeps_worker_waiting() {
    let mut ctrl = RegistrationController::new();
    let mut worker = register_media_activity_event(&mut ctrl).unwrap();
    ctrl.worker_subscribed(&mut worker);
    worker.begin_wait();

    let keep = ctrl.worker_awakened(&mut worker);
    assert!(keep);
    assert_eq!(worker.phase, WorkerPhase::WaitingForStop);
    assert_eq!(ctrl.subs_closed, 0);
}

#[test]
fn failed_subscription_clears_flag_for_retry() {
    let mut ctrl = RegistrationController::new();
    let mut worker = register_media_activity_event(&mut ctrl).unwrap();
    ctrl.worker_subscription_failed(&mut worker);
    assert!(!ctrl.running, "a failed start must release the flag");
    assert_eq!(worker.phase, WorkerPhase::Exited);

    let retry = register_media_activity_event(&mut ctrl);
    assert!(retry.is_some());
    assert_eq!(retry.unwrap().generation, 2);
}

#[test]
fn stale_worker_failure_leaves_new_registration_running() {
    let mut ctrl = RegistrationController::new();
    let mut first = register_media_activity_event(&mut ctrl).unwrap();
    unregister_media_activity_event(&mut ctrl);
    let second = register_media_activity_event(&mut ctrl);
    assert!(second.is_some());

    // The first worker's subscription creation fails only now: it is stale,
    // so the second registration's flag must stay set.
    ctrl.worker_subscription_failed(&mut first);
    assert!(ctrl.running);
    assert_eq!(first.phase, WorkerPhase::Exited);
}
