//! The registration controller: an idempotent start/stop state machine for
//! the media monitor worker.
//!
//! One `RegistrationController` value stands for the bridge's lock-protected
//! shared state: the running flag, the token of the current registration and
//! the instrumentation counters. The host application keeps the value under a
//! mutual-exclusion lock paired with a wait/notify condition and calls one
//! transition per atomic step, so a history of the shared state is a sequence
//! of these transitions. The worker thread itself performs only outside work
//! (creating the platform subscription, parking on the condition); every
//! decision it takes is a transition here.

use vstd::prelude::*;

verus! {

/// Phase of a monitor worker: spawned (`Starting`), subscription created and
/// callback installed (`Subscribed`), parked on the stop condition
/// (`WaitingForStop`), returned (`Exited`).
#[derive(Clone, Copy, Debug, PartialEq, Eq, Structural)]
pub enum WorkerPhase {
    Starting,
    Subscribed,
    WaitingForStop,
    Exited,
}

/// The local state of one monitor worker. `generation` is the cancellation
/// token the controller handed out at spawn time: the worker keeps waiting
/// only while it is the controller's current generation, so a stale worker
/// exits promptly on its next wake-up even if a newer registration has
/// already set the running flag again.
#[derive(Clone, Copy, Debug, PartialEq, Eq, Structural)]
pub struct MonitorWorker {
    pub generation: u64,
    pub phase: WorkerPhase,
}

/// The idempotent start/stop state machine guarding the media monitor.
#[derive(Clone, Copy, Debug, PartialEq, Eq, Structural)]
pub struct RegistrationController {
    /// The running flag: set by a successful register, cleared by unregister,
    /// and cleared by a current-generation worker whose subscription could
    /// not be created, so that a later register can retry.
    pub running: bool,
    /// Number of successful register calls so far; doubles as the token of
    /// the most recently spawned worker.
    pub generation: u64,
    /// Instrumented count of subscriptions created by workers.
    pub subs_created: u64,
    /// Instrumented count of subscriptions closed by exiting workers.
    pub subs_closed: u64,
}

impl RegistrationController {
    /// The state before any registration.
    pub open spec fn initial() -> Self {
        RegistrationController { running: false, generation: 0, subs_created: 0, subs_closed: 0 }
    }

    /// Consistency of the shared state: a subscription is closed only after
    /// it was created, and the flag can be set only once some registration
    /// has happened.
    pub open spec fn wf(self) -> bool {
        &&& self.subs_closed <= self.subs_created
        &&& self.running ==> self.generation >= 1
    }

    pub fn new() -> (c: Self)
        ensures
            c == Self::initial(),
    {
        RegistrationController { running: false, generation: 0, subs_created: 0, subs_closed: 0 }
    }
}

/// What a register call does to the shared state: nothing if the flag is
/// already set, else it sets the flag, advances the generation and spawns a
/// worker carrying the new generation as its token.
pub open spec fn spec_register(s: RegistrationController) -> (RegistrationController, Option<
    MonitorWorker,
>) {
    if s.running {
        (s, None)
    } else {
        (
            (RegistrationController {
                running: true,
                generation: (s.generation + 1) as u64,
                ..s
            }),
            Some(
                MonitorWorker {
                    generation: (s.generation + 1) as u64,
                    phase: WorkerPhase::Starting,
                },
            ),
        )
    }
}

/// What an unregister call does: it clears the flag and leaves everything
/// else alone. (The caller then notifies the wait condition; waking the
/// worker carries no state of its own.)
pub open spec fn spec_unregister(s: RegistrationController) -> RegistrationController {
    (RegistrationController { running: false, ..s })
}

/// What a worker's successful subscription creation does to the shared state.
pub open spec fn spec_worker_subscribed(s: RegistrationController, w: MonitorWorker) -> (
    RegistrationController,
    MonitorWorker,
) {
    (
        (RegistrationController { subs_created: (s.subs_created + 1) as u64, ..s }),
        (MonitorWorker { phase: WorkerPhase::Subscribed, ..w }),
    )
}

/// What a worker's failed subscription creation does: the worker exits at
/// once, and if it is still the current registration the flag is cleared so
/// that a later register can retry. A stale worker leaves a newer
/// registration's flag alone.
pub open spec fn spec_worker_subscription_failed(s: RegistrationController, w: MonitorWorker) -> (
    RegistrationController,
    MonitorWorker,
) {
    (
        (RegistrationController {
            running: s.running && w.generation != s.generation,
            ..s
        }),
        (MonitorWorker { phase: WorkerPhase::Exited, ..w }),
    )
}

/// What a parked worker's wake-up check decides: it keeps waiting only if the
/// flag is set and it is still the current registration; otherwise it exits,
/// which drops its subscription handle and closes the notification stream.
pub open spec fn spec_worker_awakened(s: RegistrationController, w: MonitorWorker) -> (
    RegistrationController,
    MonitorWorker,
    bool,
) {
    if s.running && w.generation == s.generation {
        (s, w, true)
    } else {
        (
            (RegistrationController { subs_closed: (s.subs_closed + 1) as u64, ..s }),
            (MonitorWorker { phase: WorkerPhase::Exited, ..w }),
            false,
        )
    }
}

/// Register the media activity monitor. If the flag is already set this is a
/// no-op (the idempotency guarantee: duplicate calls never create a second
/// worker); otherwise it sets the flag and returns the worker the host must
/// spawn, which owns the subscriber sink for its whole lifetime.
pub fn register_media_activity_event(ctrl: &mut RegistrationController) -> (spawned: Option<
    MonitorWorker,
>)
    requires
        old(ctrl).generation < u64::MAX,
    ensures
        (*final(ctrl), spawned) == spec_register(*old(ctrl)),
        old(ctrl).running ==> spawned is None && *final(ctrl) == *old(ctrl),
        !old(ctrl).running ==> final(ctrl).running && (spawned matches Some(w)
            && w.generation == old(ctrl).generation + 1 && w.phase is Starting),
        old(ctrl).wf() ==> final(ctrl).wf(),
{
    if ctrl.running {
        None
    } else {
        ctrl.running = true;
        ctrl.generation = ctrl.generation + 1;
        Some(MonitorWorker { generation: ctrl.generation, phase: WorkerPhase::Starting })
    }
}

/// Unregister the media activity monitor: clear the flag and leave the rest
/// of the state alone. When nothing is registered this changes nothing (the
/// harmless no-op the contract below states), and it never blocks on the
/// worker: the worker's own next wake-up check makes it exit.
pub fn unregister_media_activity_event(ctrl: &mut RegistrationController)
    ensures
        *final(ctrl) == spec_unregister(*old(ctrl)),
        !final(ctrl).running,
        !old(ctrl).running ==> *final(ctrl) == *old(ctrl),
        old(ctrl).wf() ==> final(ctrl).wf(),
{
    ctrl.running = false;
}

impl RegistrationController {
    /// A worker reports that its subscription was created and the callback
    /// chain installed.
    pub fn worker_subscribed(&mut self, worker: &mut MonitorWorker)
        requires
            old(worker).phase is Starting,
            old(self).subs_created < u64::MAX,
        ensures
            (*final(self), *final(worker)) == spec_worker_subscribed(*old(self), *old(worker)),
            final(self).subs_created == old(self).subs_created + 1,
            final(worker).phase is Subscribed,
            final(worker).generation == old(worker).generation,
            old(self).wf() ==> final(self).wf(),
    {
        self.subs_created = self.subs_created + 1;
        worker.phase = WorkerPhase::Subscribed;
    }

    /// A worker reports that the subscription could not be created (no media
    /// backend on this platform or build): it exits immediately, and if it is
    /// still the current registration the flag is cleared so a later register
    /// can retry.
    pub fn worker_subscription_failed(&mut self, worker: &mut MonitorWorker)
        requires
            old(worker).phase is Starting,
        ensures
            (*final(self), *final(worker)) == spec_worker_subscription_failed(
                *old(self),
                *old(worker),
            ),
            final(worker).phase is Exited,
            old(worker).generation == old(self).generation ==> !final(self).running,
            old(self).wf() ==> final(self).wf(),
    {
        if worker.generation == self.generation {
            self.running = false;
        }
        worker.phase = WorkerPhase::Exited;
    }

    /// A parked worker was woken (by unregister's notify, or spuriously) and
    /// re-checks the shared state under the lock. It keeps waiting only if
    /// the flag is set and it is still the current registration; otherwise it
    /// exits, dropping its subscription handle, which closes the underlying
    /// notification stream.
    pub fn worker_awakened(&mut self, worker: &mut MonitorWorker) -> (keep_waiting: bool)
        requires
            old(worker).phase is WaitingForStop,
            old(self).subs_closed < old(self).subs_created,
        ensures
            (*final(self), *final(worker), keep_waiting) == spec_worker_awakened(
                *old(self),
                *old(worker),
            ),
            keep_waiting == (old(self).running && old(worker).generation == old(self).generation),
            keep_waiting ==> *final(self) == *old(self) && *final(worker) == *old(worker),
            !keep_waiting ==> final(worker).phase is Exited && final(self).subs_closed == old(
                self,
            ).subs_closed + 1,
            old(self).wf() ==> final(self).wf(),
    {
        if self.running && worker.generation == self.generation {
            true
        } else {
            self.subs_closed = self.subs_closed + 1;
            worker.phase = WorkerPhase::Exited;
            false
        }
    }
}

impl MonitorWorker {
    /// The worker, after installing its callback, parks on the wait condition.
    pub fn begin_wait(&mut self)
        requires
            old(self).phase is Subscribed,
        ensures
            *final(self) == (MonitorWorker { phase: WorkerPhase::WaitingForStop, ..*old(self) }),
    {
        self.phase = WorkerPhase::WaitingForStop;
    }
}

/// The shared state after `n` register calls in a row.
pub open spec fn spec_register_n(s: RegistrationController, n: nat) -> RegistrationController
    decreases n,
{
    if n == 0 {
        s
    } else {
        spec_register(spec_register_n(s, (n - 1) as nat)).0
    }
}

/// Idempotent start: however many register calls arrive from a stopped state
/// (the shared lock linearizes them), only the first spawns a worker: the
/// generation, which counts spawned workers, rises exactly once, and the
/// state after any further call is the state after the first.
pub proof fn lemma_register_idempotent(s: RegistrationController, n: nat)
    requires
        !s.running,
        s.generation < u64::MAX,
        n >= 1,
    ensures
        spec_register_n(s, n) == spec_register(s).0,
        spec_register_n(s, n).generation == s.generation + 1,
        spec_register(spec_register_n(s, n)).1 is None,
    decreases n,
{
    assert(spec_register_n(s, 0) == s);
    if n == 1 {
        assert(spec_register_n(s, 1) == spec_register(spec_register_n(s, 0)).0);
    } else {
        lemma_register_idempotent(s, (n - 1) as nat);
        assert(spec_register_n(s, n) == spec_register(spec_register_n(s, (n - 1) as nat)).0);
    }
}

/// Idempotent stop: unregister when nothing is registered leaves the state
/// exactly as it was, and a second unregister after a first changes nothing.
pub proof fn lemma_unregister_idempotent(s: RegistrationController)
    ensures
        !s.running ==> spec_unregister(s) == s,
        spec_unregister(spec_unregister(s)) == spec_unregister(s),
{
}

/// No missed stop: once unregister has cleared the flag, the very next
/// wake-up check of any parked worker, whatever its generation, tells it to
/// exit and close its subscription. (Notifications arriving meanwhile go
/// through the projection and the forwarder alone, which never touch this
/// shared state, so they cannot keep the worker alive.)
pub proof fn lemma_no_missed_stop(s: RegistrationController, w: MonitorWorker)
    requires
        s.subs_closed < u64::MAX,
    ensures
        !spec_worker_awakened(spec_unregister(s), w).2,
        spec_worker_awakened(spec_unregister(s), w).1.phase is Exited,
        spec_worker_awakened(spec_unregister(s), w).0.subs_closed == s.subs_closed + 1,
{
}

/// Start/stop/start: a register after a full register -> unregister cycle
/// succeeds in spawning a second, independent worker (the flag is never
/// "stuck"), and the first worker's next wake-up check makes it exit and
/// close its subscription whether that wake-up comes before or after the
/// second start.
pub proof fn lemma_start_stop_start(s: RegistrationController)
    requires
        !s.running,
        s.generation + 2 <= u64::MAX,
        s.subs_created < u64::MAX,
        s.subs_closed < u64::MAX,
    ensures
        ({
            let (s1, spawned1) = spec_register(s);
            spawned1 matches Some(w1) && {
                let (s2, w1s) = spec_worker_subscribed(s1, w1);
                let w1w = MonitorWorker { phase: WorkerPhase::WaitingForStop, ..w1s };
                let s3 = spec_unregister(s2);
                // The second register spawns again, with a fresh token.
                let (s4, spawned2) = spec_register(s3);
                &&& spawned2 matches Some(w2)
                &&& w2.generation == w1.generation + 1
                // First worker woken after the second start: it is stale, so it
                // exits and its subscription's close is counted, and the second
                // registration's flag stays set.
                &&& {
                    let (s5, w1x, keep) = spec_worker_awakened(s4, w1w);
                    &&& !keep
                    &&& w1x.phase is Exited
                    &&& s5.subs_closed == s.subs_closed + 1
                    &&& s5.running
                }
                // First worker woken before the second start: it exits too, and
                // the register that follows still spawns.
                &&& {
                    let (s3b, w1y, keepb) = spec_worker_awakened(s3, w1w);
                    &&& !keepb
                    &&& w1y.phase is Exited
                    &&& spec_register(s3b).1 is Some
                }
            }
        }),
{
}

} // verus!
