//! The error taxonomy of the core. Per-track resolution failures are
//! reported and skipped; queue operations on a guild with no session are
//! swallowed as no-ops by design and never surface an error.

use vstd::prelude::*;

verus! {

/// Everything that can go wrong handling a command.
#[derive(Clone, Copy, PartialEq, Eq, Structural, Debug)]
pub enum MusicError {
    /// The user issued `play` without being connected to a voice channel.
    NotInVoiceChannel,
    /// The transport rejected the voice join; no session was registered.
    VoiceJoinFailed,
    /// A queue operation named a guild with no active session.
    NoActiveSession,
    /// One track of a batch could not be resolved; the rest go on.
    TrackResolutionFailed,
    /// The playlist-expansion tool failed or returned no usable entry;
    /// nothing of the playlist is enqueued.
    PlaylistExpansionFailed,
    /// The dispatch table knows no command of that name.
    UnknownCommand,
}

impl MusicError {
    /// The user-facing description of this error.
    pub fn message(&self) -> (m: &'static str)
        ensures
            *self == MusicError::NotInVoiceChannel ==> m@ == "You are not in a voice channel"@,
            *self == MusicError::VoiceJoinFailed ==> m@ == "Failed to join voice channel"@,
            *self == MusicError::NoActiveSession ==> m@ == "Bami is not in a voice channel"@,
            *self == MusicError::TrackResolutionFailed ==> m@ == "Error processing your request"@,
            *self == MusicError::PlaylistExpansionFailed ==> m@ == "Failed to expand the playlist"@,
            *self == MusicError::UnknownCommand ==> m@ == "Unknown command"@,
    {
        match self {
            MusicError::NotInVoiceChannel => "You are not in a voice channel",
            MusicError::VoiceJoinFailed => "Failed to join voice channel",
            MusicError::NoActiveSession => "Bami is not in a voice channel",
            MusicError::TrackResolutionFailed => "Error processing your request",
            MusicError::PlaylistExpansionFailed => "Failed to expand the playlist",
            MusicError::UnknownCommand => "Unknown command",
        }
    }
}

} // verus!
