//! The voice session registry: at most one active voice session per guild.
//! It owns every session's playback queue and decides the join/leave
//! lifecycle; the actual voice connection is established by the caller
//! through the transport layer and handed in as an opaque handle, so a
//! failed join registers nothing.

use vstd::prelude::*;

use crate::queue::{
    EnqueueOutcome, PlaybackQueue, QueueError, TrackEntry, spec_enqueue, spec_pause, spec_resume,
    spec_skip,
};

verus! {

/// This bot's live connection to one voice channel in one guild: the guild,
/// the voice channel, an opaque handle to the established transport
/// connection, and the guild's playback queue.
pub struct VoiceSession {
    pub guild: u64,
    pub channel: u64,
    pub handle: u64,
    pub queue: PlaybackQueue,
}

impl VoiceSession {
    pub open spec fn wf(self) -> bool {
        self.queue.wf()
    }
}

/// What a join request should do: reuse the existing session (its transport
/// handle is returned and no second connection is made), or connect first —
/// the caller performs the transport join and registers the session only on
/// success.
#[derive(Clone, Copy, PartialEq, Eq, Structural, Debug)]
pub enum JoinDecision {
    Existing(u64),
    MustConnect,
}

/// Whether some session in `s` belongs to guild `g`.
pub open spec fn guild_in(s: Seq<VoiceSession>, g: u64) -> bool {
    exists|i: int| 0 <= i < s.len() && (#[trigger] s[i]).guild == g
}

/// The index of guild `g`'s session in `s` (meaningful when `guild_in`).
pub open spec fn idx_of(s: Seq<VoiceSession>, g: u64) -> int {
    choose|i: int| 0 <= i < s.len() && (#[trigger] s[i]).guild == g
}

/// Guild `g`'s session in `s` (meaningful when `guild_in`).
pub open spec fn sess(s: Seq<VoiceSession>, g: u64) -> VoiceSession {
    s[idx_of(s, g)]
}

/// Well-formedness: no two sessions share a guild — the central invariant —
/// and every session's queue is well formed.
pub open spec fn wf_sessions(s: Seq<VoiceSession>) -> bool {
    &&& forall|i: int, j: int|
        0 <= i < j < s.len() ==> (#[trigger] s[i]).guild != (#[trigger] s[j]).guild
    &&& forall|i: int| 0 <= i < s.len() ==> (#[trigger] s[i]).wf()
}

/// What a join request for `g` decides on state `s`: an existing session is
/// reused as it stands, otherwise the transport must connect first.
pub open spec fn spec_join_decision(s: Seq<VoiceSession>, g: u64) -> JoinDecision {
    if guild_in(s, g) {
        JoinDecision::Existing(sess(s, g).handle)
    } else {
        JoinDecision::MustConnect
    }
}

/// In a well-formed state the session index is the only one bearing its
/// guild, so lookups are deterministic.
pub proof fn lemma_idx_of(s: Seq<VoiceSession>, g: u64, i: int)
    requires
        wf_sessions(s),
        0 <= i < s.len(),
        s[i].guild == g,
    ensures
        guild_in(s, g),
        idx_of(s, g) == i,
{
    assert(guild_in(s, g));
    let j = idx_of(s, g);
    assert(0 <= j < s.len() && s[j].guild == g);
    if i < j {
        assert(s[i].guild != s[j].guild);
    } else if j < i {
        assert(s[j].guild != s[i].guild);
    }
}

/// Replacing guild `g`'s session by another session of the same guild keeps
/// the state well formed and leaves every other guild untouched.
pub proof fn lemma_update_at(s: Seq<VoiceSession>, i: int, s2: VoiceSession)
    requires
        wf_sessions(s),
        0 <= i < s.len(),
        s2.guild == s[i].guild,
        s2.wf(),
    ensures
        ({
            let sf = s.update(i, s2);
            &&& wf_sessions(sf)
            &&& guild_in(sf, s2.guild)
            &&& sess(sf, s2.guild) == s2
            &&& forall|g2: u64|
                g2 != s2.guild ==> #[trigger] guild_in(sf, g2) == guild_in(s, g2)
            &&& forall|g2: u64|
                g2 != s2.guild && guild_in(s, g2) ==> #[trigger] sess(sf, g2) == sess(s, g2)
        }),
{
    let sf = s.update(i, s2);
    assert(wf_sessions(sf));
    lemma_idx_of(sf, s2.guild, i);
    assert forall|g2: u64| g2 != s2.guild implies #[trigger] guild_in(sf, g2) == guild_in(
        s,
        g2,
    ) by {
        if guild_in(s, g2) {
            let j = idx_of(s, g2);
            assert(sf[j].guild == g2);
        }
        if guild_in(sf, g2) {
            let j = idx_of(sf, g2);
            assert(s[j].guild == g2);
        }
    }
    assert forall|g2: u64| g2 != s2.guild && guild_in(s, g2) implies #[trigger] sess(sf, g2)
        == sess(s, g2) by {
        let j = idx_of(s, g2);
        assert(0 <= j < s.len() && s[j].guild == g2);
        lemma_idx_of(sf, g2, j);
    }
}

/// Registering a session for a guild that has none keeps the state well
/// formed and leaves every other guild untouched.
pub proof fn lemma_push_session(s: Seq<VoiceSession>, s2: VoiceSession)
    requires
        wf_sessions(s),
        !guild_in(s, s2.guild),
        s2.wf(),
    ensures
        ({
            let sf = s.push(s2);
            &&& wf_sessions(sf)
            &&& guild_in(sf, s2.guild)
            &&& sess(sf, s2.guild) == s2
            &&& forall|g2: u64|
                g2 != s2.guild ==> #[trigger] guild_in(sf, g2) == guild_in(s, g2)
            &&& forall|g2: u64|
                g2 != s2.guild && guild_in(s, g2) ==> #[trigger] sess(sf, g2) == sess(s, g2)
        }),
{
    let sf = s.push(s2);
    assert forall|i: int, j: int| 0 <= i < j < sf.len() implies (#[trigger] sf[i]).guild != (
    #[trigger] sf[j]).guild by {
        if j == s.len() {
            if sf[i].guild == s2.guild {
                assert(s[i].guild == s2.guild);
            }
        }
    }
    lemma_idx_of(sf, s2.guild, s.len() as int);
    assert forall|g2: u64| g2 != s2.guild implies #[trigger] guild_in(sf, g2) == guild_in(
        s,
        g2,
    ) by {
        if guild_in(s, g2) {
            let j = idx_of(s, g2);
            assert(sf[j].guild == g2);
        }
        if guild_in(sf, g2) {
            let j = idx_of(sf, g2);
            assert(s[j].guild == g2);
        }
    }
    assert forall|g2: u64| g2 != s2.guild && guild_in(s, g2) implies #[trigger] sess(sf, g2)
        == sess(s, g2) by {
        let j = idx_of(s, g2);
        lemma_idx_of(sf, g2, j);
    }
}

/// Removing guild `g`'s session keeps the state well formed and leaves every
/// other guild untouched.
pub proof fn lemma_remove_at(s: Seq<VoiceSession>, i: int)
    requires
        wf_sessions(s),
        0 <= i < s.len(),
    ensures
        ({
            let sf = s.remove(i);
            &&& wf_sessions(sf)
            &&& !guild_in(sf, s[i].guild)
            &&& forall|g2: u64|
                g2 != s[i].guild ==> #[trigger] guild_in(sf, g2) == guild_in(s, g2)
            &&& forall|g2: u64|
                g2 != s[i].guild && guild_in(s, g2) ==> #[trigger] sess(sf, g2) == sess(s, g2)
        }),
{
    let g = s[i].guild;
    let sf = s.remove(i);
    assert(wf_sessions(sf));
    if guild_in(sf, g) {
        let j = idx_of(sf, g);
        if j < i {
            assert(s[j].guild == g);
            lemma_idx_of(s, g, j);
            assert(s[j].guild != s[i].guild);
        } else {
            assert(s[j + 1].guild == g);
            assert(s[j + 1].guild != s[i].guild);
        }
    }
    assert forall|g2: u64| g2 != g implies #[trigger] guild_in(sf, g2) == guild_in(s, g2) by {
        if guild_in(s, g2) {
            let j = idx_of(s, g2);
            if j < i {
                assert(sf[j].guild == g2);
            } else {
                assert(j != i);
                assert(sf[j - 1].guild == g2);
            }
        }
        if guild_in(sf, g2) {
            let j = idx_of(sf, g2);
            if j < i {
                assert(s[j].guild == g2);
            } else {
                assert(s[j + 1].guild == g2);
            }
        }
    }
    assert forall|g2: u64| g2 != g && guild_in(s, g2) implies #[trigger] sess(sf, g2) == sess(
        s,
        g2,
    ) by {
        let j = idx_of(s, g2);
        if j < i {
            lemma_idx_of(sf, g2, j);
        } else {
            assert(j != i);
            assert(sf[j - 1].guild == g2);
            lemma_idx_of(sf, g2, j - 1);
        }
    }
}

/// The guild-to-session registry. Structural changes (register, leave) and
/// queue mutations are serialized per guild by the caller's locking
/// discipline; the contracts here say that an operation on one guild leaves
/// every other guild's session untouched, so two guilds never contend.
pub struct SessionRegistry {
    sessions: Vec<VoiceSession>,
}

impl View for SessionRegistry {
    type V = Seq<VoiceSession>;

    closed spec fn view(&self) -> Seq<VoiceSession> {
        self.sessions@
    }
}

impl SessionRegistry {
    pub open spec fn wf(self) -> bool {
        wf_sessions(self@)
    }

    /// A registry with no active sessions.
    pub fn new() -> (r: SessionRegistry)
        ensures
            r@ == Seq::<VoiceSession>::empty(),
            r.wf(),
    {
        SessionRegistry { sessions: Vec::new() }
    }

    pub fn session_count(&self) -> (n: usize)
        ensures
            n == self@.len(),
    {
        self.sessions.len()
    }

    /// Index of guild `g`'s session, if one is registered.
    fn find(&self, guild: u64) -> (o: Option<usize>)
        requires
            self.wf(),
        ensures
            match o {
                Some(i) => i < self@.len() && self@[i as int].guild == guild && idx_of(
                    self@,
                    guild,
                ) == i && guild_in(self@, guild),
                None => !guild_in(self@, guild),
            },
    {
        let n = self.sessions.len();
        let mut i: usize = 0;
        while i < n
            invariant
                self.wf(),
                n == self@.len(),
                i <= n,
                forall|j: int| 0 <= j < i ==> (#[trigger] self@[j]).guild != guild,
            decreases n - i,
        {
            if self.sessions[i].guild == guild {
                proof {
                    lemma_idx_of(self@, guild, i as int);
                }
                return Some(i);
            }
            i = i + 1;
        }
        None
    }

    /// Non-blocking lookup: the transport handle of guild `g`'s session, if
    /// one is registered. Creates nothing.
    pub fn get_handle(&self, guild: u64) -> (h: Option<u64>)
        requires
            self.wf(),
        ensures
            h == if guild_in(self@, guild) {
                Some(sess(self@, guild).handle)
            } else {
                None::<u64>
            },
    {
        match self.find(guild) {
            Some(i) => Some(self.sessions[i].handle),
            None => None,
        }
    }

    /// Non-blocking lookup of guild `g`'s playback queue, if a session is
    /// registered. Creates nothing.
    pub fn get_queue(&self, guild: u64) -> (q: Option<&PlaybackQueue>)
        requires
            self.wf(),
        ensures
            match q {
                Some(q) => guild_in(self@, guild) && q@ == sess(self@, guild).queue@,
                None => !guild_in(self@, guild),
            },
    {
        match self.find(guild) {
            Some(i) => Some(&self.sessions[i].queue),
            None => None,
        }
    }

    /// Decides a join request: reuse the existing session — joining a
    /// different channel while one is active is out of scope and silently
    /// reuses it — or tell the caller to request a voice connection from the
    /// transport and register it on success.
    pub fn prepare_join(&self, guild: u64) -> (d: JoinDecision)
        requires
            self.wf(),
        ensures
            d == spec_join_decision(self@, guild),
    {
        match self.find(guild) {
            Some(i) => JoinDecision::Existing(self.sessions[i].handle),
            None => JoinDecision::MustConnect,
        }
    }

    /// Registers the session for a freshly established voice connection.
    /// Called only after the transport join succeeded, so a failed join
    /// leaves no partial state behind.
    pub fn register_session(&mut self, guild: u64, channel: u64, handle: u64)
        requires
            old(self).wf(),
            !guild_in(old(self)@, guild),
        ensures
            final(self).wf(),
            guild_in(final(self)@, guild),
            sess(final(self)@, guild).guild == guild,
            sess(final(self)@, guild).channel == channel,
            sess(final(self)@, guild).handle == handle,
            sess(final(self)@, guild).queue@ == Seq::<TrackEntry>::empty(),
            forall|g2: u64|
                g2 != guild ==> #[trigger] guild_in(final(self)@, g2) == guild_in(old(self)@, g2),
            forall|g2: u64|
                g2 != guild && guild_in(old(self)@, g2) ==> #[trigger] sess(final(self)@, g2)
                    == sess(old(self)@, g2),
    {
        let s2 = VoiceSession { guild, channel, handle, queue: PlaybackQueue::new() };
        proof {
            lemma_push_session(self@, s2);
        }
        self.sessions.push(s2);
    }

    /// Tears the session down and drops it; idempotent if none is
    /// registered. The transport-level leave is issued by the caller.
    pub fn leave(&mut self, guild: u64)
        requires
            old(self).wf(),
        ensures
            final(self).wf(),
            !guild_in(final(self)@, guild),
            !guild_in(old(self)@, guild) ==> final(self)@ == old(self)@,
            forall|g2: u64|
                g2 != guild ==> #[trigger] guild_in(final(self)@, g2) == guild_in(old(self)@, g2),
            forall|g2: u64|
                g2 != guild && guild_in(old(self)@, g2) ==> #[trigger] sess(final(self)@, g2)
                    == sess(old(self)@, g2),
    {
        match self.find(guild) {
            Some(i) => {
                proof {
                    lemma_remove_at(self@, i as int);
                }
                self.sessions.remove(i);
            },
            None => (),
        }
    }
    /// Appends a track to guild `g`'s queue. A missing session makes the
    /// operation a silent no-op (`None`) by design, not an error.
    pub fn enqueue_track(&mut self, guild: u64, t: TrackEntry) -> (r: Option<EnqueueOutcome>)
        requires
            old(self).wf(),
        ensures
            final(self).wf(),
            !guild_in(old(self)@, guild) ==> r == None::<EnqueueOutcome> && final(self)@ == old(
                self,
            )@,
            guild_in(old(self)@, guild) ==> ({
                let q0 = sess(old(self)@, guild).queue@;
                &&& r == Some(spec_enqueue(q0, t).1)
                &&& guild_in(final(self)@, guild)
                &&& sess(final(self)@, guild).queue@ == spec_enqueue(q0, t).0
                &&& sess(final(self)@, guild).guild == guild
                &&& sess(final(self)@, guild).channel == sess(old(self)@, guild).channel
                &&& sess(final(self)@, guild).handle == sess(old(self)@, guild).handle
            }),
            forall|g2: u64|
                g2 != guild ==> #[trigger] guild_in(final(self)@, g2) == guild_in(old(self)@, g2),
            forall|g2: u64|
                g2 != guild && guild_in(old(self)@, g2) ==> #[trigger] sess(final(self)@, g2)
                    == sess(old(self)@, g2),
    {
        match self.find(guild) {
            Some(i) => {
                let ghost s0 = self@;
                let mut s = self.sessions.remove(i);
                let o = s.queue.enqueue(t);
                let ghost s2 = s;
                self.sessions.insert(i, s);
                proof {
                    assert(self@ =~= s0.update(i as int, s2));
                    lemma_update_at(s0, i as int, s2);
                }
                Some(o)
            },
            None => None,
        }
    }

    /// Skips the playing head of guild `g`'s queue. A missing session makes
    /// the operation a silent no-op (`None`) by design, not an error.
    pub fn skip_in(&mut self, guild: u64) -> (r: Option<Result<(), QueueError>>)
        requires
            old(self).wf(),
        ensures
            final(self).wf(),
            !guild_in(old(self)@, guild) ==> r == None::<Result<(), QueueError>> && final(self)@
                == old(self)@,
            guild_in(old(self)@, guild) ==> ({
                let q0 = sess(old(self)@, guild).queue@;
                &&& r == Some(spec_skip(q0).1)
                &&& guild_in(final(self)@, guild)
                &&& sess(final(self)@, guild).queue@ == spec_skip(q0).0
                &&& sess(final(self)@, guild).guild == guild
                &&& sess(final(self)@, guild).channel == sess(old(self)@, guild).channel
                &&& sess(final(self)@, guild).handle == sess(old(self)@, guild).handle
            }),
            forall|g2: u64|
                g2 != guild ==> #[trigger] guild_in(final(self)@, g2) == guild_in(old(self)@, g2),
            forall|g2: u64|
                g2 != guild && guild_in(old(self)@, g2) ==> #[trigger] sess(final(self)@, g2)
                    == sess(old(self)@, g2),
    {
        match self.find(guild) {
            Some(i) => {
                let ghost s0 = self@;
                let mut s = self.sessions.remove(i);
                let o = s.queue.skip();
                let ghost s2 = s;
                self.sessions.insert(i, s);
                proof {
                    assert(self@ =~= s0.update(i as int, s2));
                    lemma_update_at(s0, i as int, s2);
                }
                Some(o)
            },
            None => None,
        }
    }

    /// Pauses the playing head of guild `g`'s queue. A missing session makes
    /// the operation a silent no-op (`None`) by design, not an error.
    pub fn pause_in(&mut self, guild: u64) -> (r: Option<Result<(), QueueError>>)
        requires
            old(self).wf(),
        ensures
            final(self).wf(),
            !guild_in(old(self)@, guild) ==> r == None::<Result<(), QueueError>> && final(self)@
                == old(self)@,
            guild_in(old(self)@, guild) ==> ({
                let q0 = sess(old(self)@, guild).queue@;
                &&& r == Some(spec_pause(q0).1)
                &&& guild_in(final(self)@, guild)
                &&& sess(final(self)@, guild).queue@ == spec_pause(q0).0
                &&& sess(final(self)@, guild).guild == guild
                &&& sess(final(self)@, guild).channel == sess(old(self)@, guild).channel
                &&& sess(final(self)@, guild).handle == sess(old(self)@, guild).handle
            }),
            forall|g2: u64|
                g2 != guild ==> #[trigger] guild_in(final(self)@, g2) == guild_in(old(self)@, g2),
            forall|g2: u64|
                g2 != guild && guild_in(old(self)@, g2) ==> #[trigger] sess(final(self)@, g2)
                    == sess(old(self)@, g2),
    {
        match self.find(guild) {
            Some(i) => {
                let ghost s0 = self@;
                let mut s = self.sessions.remove(i);
                let o = s.queue.pause();
                let ghost s2 = s;
                self.sessions.insert(i, s);
                proof {
                    assert(self@ =~= s0.update(i as int, s2));
                    lemma_update_at(s0, i as int, s2);
                }
                Some(o)
            },
            None => None,
        }
    }

    /// Resumes the paused head of guild `g`'s queue. A missing session makes
    /// the operation a silent no-op (`None`) by design, not an error.
    pub fn resume_in(&mut self, guild: u64) -> (r: Option<Result<(), QueueError>>)
        requires
            old(self).wf(),
        ensures
            final(self).wf(),
            !guild_in(old(self)@, guild) ==> r == None::<Result<(), QueueError>> && final(self)@
                == old(self)@,
            guild_in(old(self)@, guild) ==> ({
                let q0 = sess(old(self)@, guild).queue@;
                &&& r == Some(spec_resume(q0).1)
                &&& guild_in(final(self)@, guild)
                &&& sess(final(self)@, guild).queue@ == spec_resume(q0).0
                &&& sess(final(self)@, guild).guild == guild
                &&& sess(final(self)@, guild).channel == sess(old(self)@, guild).channel
                &&& sess(final(self)@, guild).handle == sess(old(self)@, guild).handle
            }),
            forall|g2: u64|
                g2 != guild ==> #[trigger] guild_in(final(self)@, g2) == guild_in(old(self)@, g2),
            forall|g2: u64|
                g2 != guild && guild_in(old(self)@, g2) ==> #[trigger] sess(final(self)@, g2)
                    == sess(old(self)@, g2),
    {
        match self.find(guild) {
            Some(i) => {
                let ghost s0 = self@;
                let mut s = self.sessions.remove(i);
                let o = s.queue.resume();
                let ghost s2 = s;
                self.sessions.insert(i, s);
                proof {
                    assert(self@ =~= s0.update(i as int, s2));
                    lemma_update_at(s0, i as int, s2);
                }
                Some(o)
            },
            None => None,
        }
    }

    /// Clears guild `g`'s queue and halts playback; the session itself stays
    /// registered. A missing session makes the operation a silent no-op
    /// (`None`) by design, not an error.
    pub fn stop_in(&mut self, guild: u64) -> (r: Option<()>)
        requires
            old(self).wf(),
        ensures
            final(self).wf(),
            !guild_in(old(self)@, guild) ==> r == None::<()> && final(self)@ == old(self)@,
            guild_in(old(self)@, guild) ==> ({
                &&& r == Some(())
                &&& guild_in(final(self)@, guild)
                &&& sess(final(self)@, guild).queue@ == Seq::<TrackEntry>::empty()
                &&& sess(final(self)@, guild).guild == guild
                &&& sess(final(self)@, guild).channel == sess(old(self)@, guild).channel
                &&& sess(final(self)@, guild).handle == sess(old(self)@, guild).handle
            }),
            forall|g2: u64|
                g2 != guild ==> #[trigger] guild_in(final(self)@, g2) == guild_in(old(self)@, g2),
            forall|g2: u64|
                g2 != guild && guild_in(old(self)@, g2) ==> #[trigger] sess(final(self)@, g2)
                    == sess(old(self)@, g2),
    {
        match self.find(guild) {
            Some(i) => {
                let ghost s0 = self@;
                let mut s = self.sessions.remove(i);
                s.queue.stop();
                let ghost s2 = s;
                self.sessions.insert(i, s);
                proof {
                    assert(self@ =~= s0.update(i as int, s2));
                    lemma_update_at(s0, i as int, s2);
                }
                Some(())
            },
            None => None,
        }
    }
}

/// Law: joining twice for the same guild without leaving reuses the one
/// registered session both times — the decision is `Existing` with that
/// session's transport handle, never a second connection.
pub proof fn lemma_rejoin_reuses_session(s: Seq<VoiceSession>, g: u64)
    requires
        wf_sessions(s),
        guild_in(s, g),
    ensures
        spec_join_decision(s, g) == JoinDecision::Existing(sess(s, g).handle),
        spec_join_decision(s, g) != JoinDecision::MustConnect,
{
}

} // verus!
