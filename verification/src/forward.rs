//! The event forwarder: fire-and-forget delivery of one projected snapshot to
//! the subscriber's event sink. A delivery failure is reported by the sink's
//! result and ignored here; nothing in this path can fail the caller, so a
//! sink that always fails never tears down the worker.

use crate::media::MediaActivitySnapshot;
use vstd::prelude::*;

verus! {

/// The subscriber's event channel: the host application implements this for
/// whatever carries events to it. `deliver` returns whether the snapshot was
/// accepted; the bridge never acts on a failure.
pub trait EventSink {
    /// Hand one snapshot to the subscriber; `false` means delivery failed
    /// (for instance, the host's channel is gone during shutdown).
    fn deliver(&mut self, snapshot: &MediaActivitySnapshot) -> bool;
}

/// Deliver a snapshot to the sink, at most once per notification. The result
/// only reports what the sink said: the forwarder promises nothing of it and
/// no caller in the bridge depends on it, which is the fire-and-forget
/// contract — a failing sink is absorbed here.
pub fn forward<S: EventSink>(sink: &mut S, snapshot: &MediaActivitySnapshot) -> (delivered: bool) {
    sink.deliver(snapshot)
}

} // verus!
