//! Playback notifications: when the transport signals that a track became
//! playable — fired at most once per entry, exactly when it starts playing —
//! a single richly formatted message goes to the text channel the `play`
//! command came from. Composing that message is logic and lives here;
//! delivering it is transport work, and a delivery failure is logged by the
//! caller, not retried.

use vstd::prelude::*;

use crate::queue::AuxMeta;
use crate::utils::{spec_timestamp, to_timestamp};

verus! {

/// The decimal representation of `n` as ASCII bytes, most significant digit
/// first, no leading zeroes (a lone zero for 0).
pub open spec fn dec_bytes(n: int) -> Seq<u8>
    decreases n,
{
    if n < 10 {
        seq![(48 + n) as u8]
    } else {
        dec_bytes(n / 10).push((48 + n % 10) as u8)
    }
}

/// The chat-platform mention of a user: `<@` then the decimal id then `>`.
pub open spec fn spec_mention(id: int) -> Seq<u8> {
    seq![60u8, 64u8] + dec_bytes(id) + seq![62u8]
}

/// The song field of a notification: the title as a link to its source URL,
/// `[title](url)`.
pub open spec fn spec_song_field(title: Seq<u8>, url: Seq<u8>) -> Seq<u8> {
    seq![91u8] + title + seq![93u8, 40u8] + url + seq![41u8]
}

/// The requester line of the queued-track embed: `Requested by ` then the
/// user's mention.
pub open spec fn spec_requested_by(id: int) -> Seq<u8> {
    seq![82u8, 101u8, 113u8, 117u8, 101u8, 115u8, 116u8, 101u8, 100u8, 32u8, 98u8, 121u8, 32u8]
        + spec_mention(id)
}

/// Appends the decimal representation of `n`.
fn push_dec_bytes(v: &mut Vec<u8>, n: u64)
    ensures
        final(v)@ == old(v)@ + dec_bytes(n as int),
    decreases n,
{
    if n < 10 {
        v.push(48 + (n as u8));
        assert(v@ =~= old(v)@ + dec_bytes(n as int));
    } else {
        push_dec_bytes(v, n / 10);
        v.push(48 + ((n % 10) as u8));
        assert(v@ =~= old(v)@ + dec_bytes(n as int));
    }
}

/// The mention of user `id`, as the message text carries it.
pub fn user_mention(id: u64) -> (r: Vec<u8>)
    ensures
        r@ == spec_mention(id as int),
{
    let mut r: Vec<u8> = Vec::new();
    r.push(60);
    r.push(64);
    push_dec_bytes(&mut r, id);
    r.push(62);
    proof {
        assert(r@ =~= spec_mention(id as int));
    }
    r
}

/// Appends every byte of `b`.
fn push_all(v: &mut Vec<u8>, b: &[u8])
    ensures
        final(v)@ == old(v)@ + b@,
{
    let n = b.len();
    let mut k: usize = 0;
    while k < n
        invariant
            n == b@.len(),
            v@ == old(v)@ + b@.subrange(0, k as int),
            k <= n,
        decreases n - k,
    {
        v.push(b[k]);
        proof {
            assert(v@ =~= old(v)@ + b@.subrange(0, k as int + 1));
        }
        k = k + 1;
    }
    proof {
        assert(v@ =~= old(v)@ + b@);
    }
}

/// The song field of a notification: the title linked to its source URL.
pub fn song_field(title: &[u8], url: &[u8]) -> (r: Vec<u8>)
    ensures
        r@ == spec_song_field(title@, url@),
{
    let mut r: Vec<u8> = Vec::new();
    r.push(91);
    push_all(&mut r, title);
    r.push(93);
    r.push(40);
    push_all(&mut r, url);
    r.push(41);
    proof {
        assert(r@ =~= spec_song_field(title@, url@));
    }
    r
}

/// The requester line of the queued-track embed.
pub fn requested_by_line(id: u64) -> (r: Vec<u8>)
    ensures
        r@ == spec_requested_by(id as int),
{
    let mut r: Vec<u8> = Vec::new();
    r.push(82);
    r.push(101);
    r.push(113);
    r.push(117);
    r.push(101);
    r.push(115);
    r.push(116);
    r.push(101);
    r.push(100);
    r.push(32);
    r.push(98);
    r.push(121);
    r.push(32);
    let m = user_mention(id);
    push_all(&mut r, m.as_slice());
    proof {
        assert(r@ =~= spec_requested_by(id as int));
    }
    r
}

/// The composed "now playing" notification: the song field, the formatted
/// duration, the requester's mention, and the thumbnail URL to embed.
pub struct NowPlayingNotice {
    pub song: Vec<u8>,
    pub duration: String,
    pub requested_by: Vec<u8>,
    pub thumbnail: Vec<u8>,
}

impl NowPlayingNotice {
    /// Composes the notification for a track that became playable. The
    /// metadata fields it shows must all be present — exactly the ones the
    /// original message formats unconditionally — so the caller checks them
    /// first and skips the notification otherwise.
    pub fn compose(meta: &AuxMeta, requester: u64) -> (n: NowPlayingNotice)
        requires
            meta.title is Some,
            meta.source_url is Some,
            meta.duration_secs is Some,
            meta.thumbnail is Some,
        ensures
            n.song@ == spec_song_field(meta.title->0@, meta.source_url->0@),
            n.duration@ == spec_timestamp(meta.duration_secs->0 as int),
            n.requested_by@ == spec_mention(requester as int),
            n.thumbnail@ == meta.thumbnail->0@,
    {
        let title: &Vec<u8> = match &meta.title {
            Some(t) => t,
            None => unreached(),
        };
        let url: &Vec<u8> = match &meta.source_url {
            Some(u) => u,
            None => unreached(),
        };
        let dur: u64 = match meta.duration_secs {
            Some(d) => d,
            None => unreached(),
        };
        let thumb: &Vec<u8> = match &meta.thumbnail {
            Some(t) => t,
            None => unreached(),
        };
        let mut thumbnail: Vec<u8> = Vec::new();
        push_all(&mut thumbnail, thumb.as_slice());
        proof {
            assert(thumbnail@ =~= meta.thumbnail->0@);
        }
        NowPlayingNotice {
            song: song_field(title.as_slice(), url.as_slice()),
            duration: to_timestamp(dur),
            requested_by: user_mention(requester),
            thumbnail,
        }
    }
}

/// The playback event notifier for one enqueued track. The transport fires
/// its signal at most once per entry, exactly when the entry becomes
/// playable; the handler then composes the one notification for the text
/// channel the `play` command came from. The caller delivers it, and a
/// delivery failure is logged, not retried.
pub struct TrackPlayableHandler {
    pub user: u64,
    pub channel_id: u64,
    pub metadata: AuxMeta,
}

impl TrackPlayableHandler {
    /// Reacts to the track-became-playable signal: the composed notice, or
    /// nothing when a metadata field is still unknown and the message cannot
    /// be formatted — absence is no error.
    pub fn act(&self) -> (r: Option<NowPlayingNotice>)
        ensures
            match r {
                Some(n) => {
                    &&& self.metadata.title is Some
                    &&& self.metadata.source_url is Some
                    &&& self.metadata.duration_secs is Some
                    &&& self.metadata.thumbnail is Some
                    &&& n.song@ == spec_song_field(
                        self.metadata.title->0@,
                        self.metadata.source_url->0@,
                    )
                    &&& n.duration@ == spec_timestamp(self.metadata.duration_secs->0 as int)
                    &&& n.requested_by@ == spec_mention(self.user as int)
                    &&& n.thumbnail@ == self.metadata.thumbnail->0@
                },
                None => !(self.metadata.title is Some && self.metadata.source_url is Some
                    && self.metadata.duration_secs is Some && self.metadata.thumbnail is Some),
            },
    {
        if self.metadata.title.is_some() && self.metadata.source_url.is_some()
            && self.metadata.duration_secs.is_some() && self.metadata.thumbnail.is_some() {
            Some(NowPlayingNotice::compose(&self.metadata, self.user))
        } else {
            None
        }
    }
}

} // verus!
