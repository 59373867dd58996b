//! The user-facing commands and their dispatch. Command names arrive as
//! strings from the interaction gateway; dispatch resolves them once into a
//! closed enum, and each command's queue mutation is a verified operation on
//! the session registry. Sending the interaction responses themselves is
//! transport work and stays with the caller.

use vstd::prelude::*;
use vstd::string::StrSliceExecFns;

use crate::error::MusicError;
use crate::queue::{AuxMeta, EnqueueOutcome, QueueError, TrackEntry, TrackState, spec_enqueue, spec_pause, spec_resume, spec_skip};
use crate::registry::{JoinDecision, SessionRegistry, guild_in, sess};

verus! {

/// The closed set of commands this bot registers.
#[derive(Clone, Copy, PartialEq, Eq, Structural, Debug)]
pub enum CommandKind {
    Ping,
    Play,
    Pause,
    Resume,
    Skip,
    Stop,
}

/// Which command a given name denotes; any other name misses the dispatch
/// table.
pub open spec fn spec_parse_command(s: Seq<char>) -> Result<CommandKind, MusicError> {
    if s == seq!['p', 'i', 'n', 'g'] {
        Ok(CommandKind::Ping)
    } else if s == seq!['p', 'l', 'a', 'y'] {
        Ok(CommandKind::Play)
    } else if s == seq!['p', 'a', 'u', 's', 'e'] {
        Ok(CommandKind::Pause)
    } else if s == seq!['r', 'e', 's', 'u', 'm', 'e'] {
        Ok(CommandKind::Resume)
    } else if s == seq!['s', 'k', 'i', 'p'] {
        Ok(CommandKind::Skip)
    } else if s == seq!['s', 't', 'o', 'p'] {
        Ok(CommandKind::Stop)
    } else {
        Err(MusicError::UnknownCommand)
    }
}

/// Resolves a command name to the command it denotes, or `UnknownCommand`
/// for a name outside the registered set.
pub fn parse_command(name: &str) -> (r: Result<CommandKind, MusicError>)
    ensures
        r == spec_parse_command(name@),
{
    let n = name.unicode_len();
    if n == 4 && name.get_char(0) == 'p' && name.get_char(1) == 'i' && name.get_char(2) == 'n'
        && name.get_char(3) == 'g' {
        proof {
            assert(name@ =~= seq!['p', 'i', 'n', 'g']);
        }
        return Ok(CommandKind::Ping);
    }
    if n == 4 && name.get_char(0) == 'p' && name.get_char(1) == 'l' && name.get_char(2) == 'a'
        && name.get_char(3) == 'y' {
        proof {
            assert(name@ =~= seq!['p', 'l', 'a', 'y']);
        }
        return Ok(CommandKind::Play);
    }
    if n == 5 && name.get_char(0) == 'p' && name.get_char(1) == 'a' && name.get_char(2) == 'u'
        && name.get_char(3) == 's' && name.get_char(4) == 'e' {
        proof {
            assert(name@ =~= seq!['p', 'a', 'u', 's', 'e']);
        }
        return Ok(CommandKind::Pause);
    }
    if n == 6 && name.get_char(0) == 'r' && name.get_char(1) == 'e' && name.get_char(2) == 's'
        && name.get_char(3) == 'u' && name.get_char(4) == 'm' && name.get_char(5) == 'e' {
        proof {
            assert(name@ =~= seq!['r', 'e', 's', 'u', 'm', 'e']);
        }
        return Ok(CommandKind::Resume);
    }
    if n == 4 && name.get_char(0) == 's' && name.get_char(1) == 'k' && name.get_char(2) == 'i'
        && name.get_char(3) == 'p' {
        proof {
            assert(name@ =~= seq!['s', 'k', 'i', 'p']);
        }
        return Ok(CommandKind::Skip);
    }
    if n == 4 && name.get_char(0) == 's' && name.get_char(1) == 't' && name.get_char(2) == 'o'
        && name.get_char(3) == 'p' {
        proof {
            assert(name@ =~= seq!['s', 't', 'o', 'p']);
        }
        return Ok(CommandKind::Stop);
    }
    Err(MusicError::UnknownCommand)
}

/// The `ping` command.
pub struct PingCommand {}

impl PingCommand {
    /// The whole of `ping`: the response content sent back.
    pub fn handle() -> (r: &'static str)
        ensures
            r@ == "pong"@,
    {
        "pong"
    }
}

/// The `play` command: adds the tracks a query resolves to — a search term,
/// a playlist URL, or a direct URL — to the guild's queue. Its resolution
/// and transport steps are driven by the caller through `plan_join`,
/// `classify_query`, `expand_playlist` and `enqueue_track`.
pub struct PlayCommand {
    pub query: String,
}

impl PlayCommand {
    /// One step of the `play` batch, after the caller asked the media
    /// resolver for a track's metadata. A track whose resolution failed is
    /// reported and skipped — it never aborts the rest of the batch. A
    /// resolved track joins the guild's queue with its metadata; without an
    /// active session the bot is in no voice channel and the track cannot
    /// be enqueued.
    pub fn handle_resolved(
        reg: &mut SessionRegistry,
        guild: u64,
        source: Vec<u8>,
        requester: u64,
        resolution: Option<AuxMeta>,
    ) -> (r: Result<EnqueueOutcome, MusicError>)
        requires
            old(reg).wf(),
        ensures
            final(reg).wf(),
            resolution is None ==> r == Err::<EnqueueOutcome, MusicError>(
                MusicError::TrackResolutionFailed,
            ) && final(reg)@ == old(reg)@,
            resolution is Some && !guild_in(old(reg)@, guild) ==> r == Err::<
                EnqueueOutcome,
                MusicError,
            >(MusicError::NoActiveSession),
            resolution is Some && guild_in(old(reg)@, guild) ==> ({
                let t = TrackEntry {
                    source,
                    requester,
                    meta: resolution->0,
                    state: TrackState::Queued,
                };
                let q0 = sess(old(reg)@, guild).queue@;
                &&& r == Ok::<EnqueueOutcome, MusicError>(spec_enqueue(q0, t).1)
                &&& sess(final(reg)@, guild).queue@ == spec_enqueue(q0, t).0
            }),
            forall|g2: u64|
                g2 != guild ==> #[trigger] guild_in(final(reg)@, g2) == guild_in(old(reg)@, g2),
            forall|g2: u64|
                g2 != guild && guild_in(old(reg)@, g2) ==> #[trigger] sess(final(reg)@, g2)
                    == sess(old(reg)@, g2),
    {
        match resolution {
            None => Err(MusicError::TrackResolutionFailed),
            Some(meta) => {
                let t = TrackEntry { source, requester, meta, state: TrackState::Queued };
                match reg.enqueue_track(guild, t) {
                    Some(o) => Ok(o),
                    None => Err(MusicError::NoActiveSession),
                }
            },
        }
    }
}

/// Decides the voice-join step of `play`: an existing session is reused
/// (same handle, no second connection); otherwise the user's voice channel
/// is joined first, and a user in no voice channel is rejected. The caller
/// performs the transport join and registers the session only on success,
/// so a failed join (`VoiceJoinFailed` at the caller) leaves no session
/// behind.
pub fn plan_join(reg: &SessionRegistry, guild: u64, user_channel: Option<u64>) -> (r: Result<
    JoinDecision,
    MusicError,
>)
    requires
        reg.wf(),
    ensures
        guild_in(reg@, guild) ==> r == Ok::<JoinDecision, MusicError>(
            JoinDecision::Existing(sess(reg@, guild).handle),
        ),
        !guild_in(reg@, guild) && user_channel is Some ==> r == Ok::<JoinDecision, MusicError>(
            JoinDecision::MustConnect,
        ),
        !guild_in(reg@, guild) && user_channel is None ==> r == Err::<JoinDecision, MusicError>(
            MusicError::NotInVoiceChannel,
        ),
        r is Ok <==> (guild_in(reg@, guild) || user_channel is Some),
{
    match reg.prepare_join(guild) {
        JoinDecision::Existing(h) => Ok(JoinDecision::Existing(h)),
        JoinDecision::MustConnect => {
            match user_channel {
                Some(_) => Ok(JoinDecision::MustConnect),
                None => Err(MusicError::NotInVoiceChannel),
            }
        },
    }
}

/// The `pause` command.
pub struct PauseCommand {}

impl PauseCommand {
    /// The queue mutation of `pause`: pauses the guild's playing head. A
    /// guild with no session makes this a silent no-op by design.
    pub fn handle(reg: &mut SessionRegistry, guild: u64) -> (r: Option<Result<(), QueueError>>)
        requires
            old(reg).wf(),
        ensures
            final(reg).wf(),
            !guild_in(old(reg)@, guild) ==> r == None::<Result<(), QueueError>> && final(reg)@
                == old(reg)@,
            guild_in(old(reg)@, guild) ==> r == Some(
                spec_pause(sess(old(reg)@, guild).queue@).1,
            ) && sess(final(reg)@, guild).queue@ == spec_pause(sess(old(reg)@, guild).queue@).0,
            forall|g2: u64|
                g2 != guild ==> #[trigger] guild_in(final(reg)@, g2) == guild_in(old(reg)@, g2),
            forall|g2: u64|
                g2 != guild && guild_in(old(reg)@, g2) ==> #[trigger] sess(final(reg)@, g2)
                    == sess(old(reg)@, g2),
    {
        reg.pause_in(guild)
    }
}

/// The `resume` command.
pub struct ResumeCommand;

impl ResumeCommand {
    /// The queue mutation of `resume`: resumes the guild's paused head. A
    /// guild with no session makes this a silent no-op by design.
    pub fn handle(reg: &mut SessionRegistry, guild: u64) -> (r: Option<Result<(), QueueError>>)
        requires
            old(reg).wf(),
        ensures
            final(reg).wf(),
            !guild_in(old(reg)@, guild) ==> r == None::<Result<(), QueueError>> && final(reg)@
                == old(reg)@,
            guild_in(old(reg)@, guild) ==> r == Some(
                spec_resume(sess(old(reg)@, guild).queue@).1,
            ) && sess(final(reg)@, guild).queue@ == spec_resume(sess(old(reg)@, guild).queue@).0,
            forall|g2: u64|
                g2 != guild ==> #[trigger] guild_in(final(reg)@, g2) == guild_in(old(reg)@, g2),
            forall|g2: u64|
                g2 != guild && guild_in(old(reg)@, g2) ==> #[trigger] sess(final(reg)@, g2)
                    == sess(old(reg)@, g2),
    {
        reg.resume_in(guild)
    }
}

/// The `skip` command.
pub struct SkipCommand {}

impl SkipCommand {
    /// The queue mutation of `skip`: removes the guild's playing head and
    /// promotes the next track. A guild with no session makes this a silent
    /// no-op by design.
    pub fn handle(reg: &mut SessionRegistry, guild: u64) -> (r: Option<Result<(), QueueError>>)
        requires
            old(reg).wf(),
        ensures
            final(reg).wf(),
            !guild_in(old(reg)@, guild) ==> r == None::<Result<(), QueueError>> && final(reg)@
                == old(reg)@,
            guild_in(old(reg)@, guild) ==> r == Some(
                spec_skip(sess(old(reg)@, guild).queue@).1,
            ) && sess(final(reg)@, guild).queue@ == spec_skip(sess(old(reg)@, guild).queue@).0,
            forall|g2: u64|
                g2 != guild ==> #[trigger] guild_in(final(reg)@, g2) == guild_in(old(reg)@, g2),
            forall|g2: u64|
                g2 != guild && guild_in(old(reg)@, g2) ==> #[trigger] sess(final(reg)@, g2)
                    == sess(old(reg)@, g2),
    {
        reg.skip_in(guild)
    }
}

/// The `stop` command.
pub struct StopCommand;

impl StopCommand {
    /// The queue mutation of `stop`: clears the guild's whole queue and
    /// halts playback; the voice session stays up. A guild with no session
    /// makes this a silent no-op by design.
    pub fn handle(reg: &mut SessionRegistry, guild: u64) -> (r: Option<()>)
        requires
            old(reg).wf(),
        ensures
            final(reg).wf(),
            !guild_in(old(reg)@, guild) ==> r == None::<()> && final(reg)@ == old(reg)@,
            guild_in(old(reg)@, guild) ==> r == Some(()) && sess(final(reg)@, guild).queue@
                == Seq::<TrackEntry>::empty(),
            forall|g2: u64|
                g2 != guild ==> #[trigger] guild_in(final(reg)@, g2) == guild_in(old(reg)@, g2),
            forall|g2: u64|
                g2 != guild && guild_in(old(reg)@, g2) ==> #[trigger] sess(final(reg)@, g2)
                    == sess(old(reg)@, g2),
    {
        reg.stop_in(guild)
    }
}

} // verus!
