//! The remote command sender: stateless dispatch of one control command
//! toward the platform media-session source. The library decides; the host
//! performs whatever action comes back. On a platform or build with no media
//! backend every operation is a documented no-op: no action, no error.

use vstd::prelude::*;

verus! {

/// A control command for the active media session.
#[derive(Clone, Copy, Debug, PartialEq, Eq, Structural)]
pub enum MediaCommand {
    Play,
    Pause,
    NextTrack,
    PreviousTrack,
}

/// The command dispatcher. It knows one thing: whether this platform and
/// build have a media backend at all.
#[derive(Clone, Copy, Debug, PartialEq, Eq, Structural)]
pub struct RemoteCommandSender {
    pub backend_available: bool,
}

impl RemoteCommandSender {
    /// What dispatching a command yields: the command itself, for the host to
    /// deliver to the backend, or nothing where there is no backend.
    pub open spec fn dispatched(self, command: MediaCommand) -> Option<MediaCommand> {
        if self.backend_available {
            Some(command)
        } else {
            None
        }
    }

    /// The sender for a platform or build with no media backend: every
    /// command becomes a no-op.
    pub fn no_backend() -> (s: Self)
        ensures
            !s.backend_available,
    {
        RemoteCommandSender { backend_available: false }
    }

    /// Dispatch one command: the returned action is exactly the command where
    /// a backend exists and absent otherwise — never an error, and on a
    /// no-backend build never a side effect to perform.
    pub fn send(&self, command: MediaCommand) -> (action: Option<MediaCommand>)
        ensures
            action == self.dispatched(command),
            !self.backend_available ==> action is None,
    {
        if self.backend_available {
            Some(command)
        } else {
            None
        }
    }
}

/// Resume playback of the current media session.
pub fn play_media(sender: &RemoteCommandSender) -> (action: Option<MediaCommand>)
    ensures
        action == sender.dispatched(MediaCommand::Play),
{
    sender.send(MediaCommand::Play)
}

/// Pause the current media session.
pub fn pause_media(sender: &RemoteCommandSender) -> (action: Option<MediaCommand>)
    ensures
        action == sender.dispatched(MediaCommand::Pause),
{
    sender.send(MediaCommand::Pause)
}

/// Skip to the next track.
pub fn next_track(sender: &RemoteCommandSender) -> (action: Option<MediaCommand>)
    ensures
        action == sender.dispatched(MediaCommand::NextTrack),
{
    sender.send(MediaCommand::NextTrack)
}

/// Return to the previous track.
pub fn prev_track(sender: &RemoteCommandSender) -> (action: Option<MediaCommand>)
    ensures
        action == sender.dispatched(MediaCommand::PreviousTrack),
{
    sender.send(MediaCommand::PreviousTrack)
}

/// Remote command no-op: on a build with no media backend, every one of the
/// four commands dispatches to no action at all — nothing to perform, nothing
/// to fail.
pub proof fn lemma_remote_command_noop(sender: RemoteCommandSender, command: MediaCommand)
    requires
        !sender.backend_available,
    ensures
        sender.dispatched(command) is None,
{
}

} // verus!
