//! Media activity bridge: a verified model of a desktop "now playing"
//! monitor. The library holds the idempotent start/stop lifecycle of the
//! background monitor worker, the projection of raw platform media records
//! into outward snapshots, the forwarding of snapshots to a subscriber, the
//! remote-control command dispatch, and the machine-telemetry record types.
//! The host application supplies the threads, locks and platform calls and
//! drives these state machines.

pub mod encoding;
pub mod forward;
pub mod lifecycle;
pub mod media;
pub mod remote;
pub mod sys_info;
