//! The per-guild playback queue: an ordered sequence of track entries with
//! a head cursor. The head entry is the one currently playing (or paused);
//! every later entry waits in FIFO order. Entries are removed once consumed,
//! so no history is kept.

use vstd::prelude::*;

verus! {

/// Playback state of one queue entry. Only the head entry of a well-formed
/// queue is ever `Playing` or `Paused`; every later entry is `Queued`.
#[derive(Clone, Copy, PartialEq, Eq, Structural, Debug)]
pub enum TrackState {
    Queued,
    Playing,
    Paused,
}

/// Best-effort descriptive metadata for a track. Every field is optional
/// because resolution can partially fail; absence means "unknown", never an
/// error. Text fields are carried as UTF-8 bytes.
#[derive(Debug)]
pub struct AuxMeta {
    pub title: Option<Vec<u8>>,
    pub source_url: Option<Vec<u8>>,
    pub thumbnail: Option<Vec<u8>>,
    pub duration_secs: Option<u64>,
}

/// One playable item: its source descriptor (a URL or search term, as UTF-8
/// bytes), the requesting user, metadata populated once resolution completes,
/// and its playback state.
#[derive(Debug)]
pub struct TrackEntry {
    pub source: Vec<u8>,
    pub requester: u64,
    pub meta: AuxMeta,
    pub state: TrackState,
}

/// What `enqueue` did: started playback immediately (the queue was empty and
/// idle) or appended behind the current head.
#[derive(Clone, Copy, PartialEq, Eq, Structural, Debug)]
pub enum EnqueueOutcome {
    Started,
    Appended,
}

/// Errors of the queue operations: there is nothing to skip or pause when the
/// queue is empty, and nothing to resume either.
#[derive(Clone, Copy, PartialEq, Eq, Structural, Debug)]
pub enum QueueError {
    NotPlaying,
    NotPaused,
}

/// The sources of a queue's entries, in order.
pub open spec fn sources(q: Seq<TrackEntry>) -> Seq<Seq<u8>> {
    q.map_values(|e: TrackEntry| e.source@)
}

/// Well-formedness: at most one entry — the head — is playing or paused;
/// every entry behind the head is queued.
pub open spec fn wf_entries(q: Seq<TrackEntry>) -> bool {
    &&& forall|i: int| 1 <= i < q.len() ==> (#[trigger] q[i].state) == TrackState::Queued
    &&& q.len() > 0 ==> q[0].state != TrackState::Queued
}

/// Transition of `enqueue`: on an empty queue the track becomes the playing
/// head; otherwise it is appended in the queued state.
pub open spec fn spec_enqueue(q: Seq<TrackEntry>, t: TrackEntry) -> (Seq<TrackEntry>, EnqueueOutcome) {
    if q.len() == 0 {
        (seq![TrackEntry { state: TrackState::Playing, ..t }], EnqueueOutcome::Started)
    } else {
        (q.push(TrackEntry { state: TrackState::Queued, ..t }), EnqueueOutcome::Appended)
    }
}

/// Transition of `skip`: the head is removed and the next entry, if any, is
/// promoted to playing. An empty queue has nothing to skip.
pub open spec fn spec_skip(q: Seq<TrackEntry>) -> (Seq<TrackEntry>, Result<(), QueueError>) {
    if q.len() == 0 {
        (q, Err(QueueError::NotPlaying))
    } else {
        let rest = q.drop_first();
        if rest.len() > 0 {
            (rest.update(0, TrackEntry { state: TrackState::Playing, ..rest[0] }), Ok(()))
        } else {
            (rest, Ok(()))
        }
    }
}

/// Transition of `pause`: the head goes to the paused state, the tail is
/// untouched. An empty queue has nothing to pause.
pub open spec fn spec_pause(q: Seq<TrackEntry>) -> (Seq<TrackEntry>, Result<(), QueueError>) {
    if q.len() == 0 {
        (q, Err(QueueError::NotPlaying))
    } else {
        (q.update(0, TrackEntry { state: TrackState::Paused, ..q[0] }), Ok(()))
    }
}

/// Transition of `resume`: the head goes back to the playing state, the tail
/// is untouched. An empty queue has nothing to resume.
pub open spec fn spec_resume(q: Seq<TrackEntry>) -> (Seq<TrackEntry>, Result<(), QueueError>) {
    if q.len() == 0 {
        (q, Err(QueueError::NotPaused))
    } else {
        (q.update(0, TrackEntry { state: TrackState::Playing, ..q[0] }), Ok(()))
    }
}

/// Folding a whole batch of `enqueue` transitions over a queue, in order.
pub open spec fn enqueue_all(q: Seq<TrackEntry>, ts: Seq<TrackEntry>) -> Seq<TrackEntry>
    decreases ts.len(),
{
    if ts.len() == 0 {
        q
    } else {
        enqueue_all(spec_enqueue(q, ts[0]).0, ts.drop_first())
    }
}

/// One `enqueue` transition keeps the queue well formed, grows it by one
/// entry, and appends exactly the new track's source.
pub proof fn lemma_enqueue_step(q: Seq<TrackEntry>, t: TrackEntry)
    requires
        wf_entries(q),
    ensures
        wf_entries(spec_enqueue(q, t).0),
        spec_enqueue(q, t).0.len() == q.len() + 1,
        sources(spec_enqueue(q, t).0) =~= sources(q).push(t.source@),
        q.len() > 0 ==> spec_enqueue(q, t).0[0] == q[0],
        q.len() == 0 ==> spec_enqueue(q, t).0[0].state == TrackState::Playing
            && spec_enqueue(q, t).0[0].source == t.source,
{
}

/// Batched enqueues keep the queue well formed, preserve the head, and append
/// the batch's sources in order.
pub proof fn lemma_enqueue_all(q: Seq<TrackEntry>, ts: Seq<TrackEntry>)
    requires
        wf_entries(q),
    ensures
        wf_entries(enqueue_all(q, ts)),
        enqueue_all(q, ts).len() == q.len() + ts.len(),
        sources(enqueue_all(q, ts)) =~= sources(q) + sources(ts),
        q.len() > 0 ==> enqueue_all(q, ts)[0] == q[0],
        (q.len() == 0 && ts.len() > 0) ==> enqueue_all(q, ts)[0].state == TrackState::Playing
            && enqueue_all(q, ts)[0].source == ts[0].source,
    decreases ts.len(),
{
    if ts.len() > 0 {
        let q1 = spec_enqueue(q, ts[0]).0;
        lemma_enqueue_step(q, ts[0]);
        lemma_enqueue_all(q1, ts.drop_first());
        assert(sources(ts.drop_first()) =~= sources(ts).drop_first());
        assert(sources(enqueue_all(q, ts)) =~= sources(q) + sources(ts));
    } else {
        assert(sources(q) + sources(ts) =~= sources(q));
    }
}

/// Law: for every sequence of `enqueue` calls on an empty, idle queue, the
/// first enqueued track is playing, and all subsequent ones wait in the
/// queued state, their sources kept in FIFO order.
pub proof fn lemma_enqueue_fifo(ts: Seq<TrackEntry>)
    requires
        ts.len() > 0,
    ensures
        ({
            let q = enqueue_all(Seq::<TrackEntry>::empty(), ts);
            &&& q.len() == ts.len()
            &&& q[0].state == TrackState::Playing
            &&& forall|i: int| 1 <= i < q.len() ==> (#[trigger] q[i].state) == TrackState::Queued
            &&& sources(q) =~= sources(ts)
        }),
{
    lemma_enqueue_all(Seq::<TrackEntry>::empty(), ts);
    assert(sources(Seq::<TrackEntry>::empty()) + sources(ts) =~= sources(ts));
}

/// Law: `skip` on a non-empty queue succeeds, shortens the queue by exactly
/// the removed head, and promotes the previously second entry, if any, to
/// playing.
pub proof fn lemma_skip_promotes(q: Seq<TrackEntry>)
    requires
        wf_entries(q),
        q.len() > 0,
    ensures
        ({
            let (q2, r) = spec_skip(q);
            &&& r == Ok::<(), QueueError>(())
            &&& q2.len() == q.len() - 1
            &&& sources(q2) =~= sources(q).drop_first()
            &&& q2.len() > 0 ==> q2[0].source == q[1].source && q2[0].state == TrackState::Playing
            &&& wf_entries(q2)
        }),
{
    let (q2, r) = spec_skip(q);
    assert(sources(q2) =~= sources(q).drop_first());
}

/// Law: `pause` followed by `resume` succeeds on a non-empty queue and leaves
/// the set and order of entries unchanged; only the head ends up playing.
pub proof fn lemma_pause_resume_preserves_order(q: Seq<TrackEntry>)
    requires
        wf_entries(q),
        q.len() > 0,
    ensures
        ({
            let (q1, r1) = spec_pause(q);
            let (q2, r2) = spec_resume(q1);
            &&& r1 == Ok::<(), QueueError>(())
            &&& r2 == Ok::<(), QueueError>(())
            &&& q2.len() == q.len()
            &&& sources(q2) =~= sources(q)
            &&& forall|i: int| 1 <= i < q.len() ==> #[trigger] q2[i] == q[i]
            &&& q2[0].source == q[0].source
            &&& q2[0].requester == q[0].requester
            &&& q2[0].state == TrackState::Playing
            &&& wf_entries(q2)
        }),
{
    let (q1, r1) = spec_pause(q);
    let (q2, r2) = spec_resume(q1);
    assert(sources(q2) =~= sources(q));
}

/// Law: of two `enqueue` calls serialized by the per-guild lock, at most the
/// first takes the empty-queue fast path into playing: the second is always
/// appended behind it, so exactly one entry ends up playing.
pub proof fn lemma_enqueue_pair_single_start(q: Seq<TrackEntry>, t1: TrackEntry, t2: TrackEntry)
    requires
        wf_entries(q),
    ensures
        ({
            let (q1, o1) = spec_enqueue(q, t1);
            let (q2, o2) = spec_enqueue(q1, t2);
            &&& o2 == EnqueueOutcome::Appended
            &&& !(o1 == EnqueueOutcome::Started && o2 == EnqueueOutcome::Started)
            &&& wf_entries(q2)
            &&& q.len() == 0 ==> o1 == EnqueueOutcome::Started && q2.len() == 2
                && q2[0].state == TrackState::Playing && q2[1].state == TrackState::Queued
                && q2[0].source == t1.source && q2[1].source == t2.source
        }),
{
    lemma_enqueue_step(q, t1);
    lemma_enqueue_step(spec_enqueue(q, t1).0, t2);
}

/// An ordered playback queue. The underlying transport commands that its
/// operations trigger are issued by the caller; the queue state itself is
/// updated atomically, so callers observe the new state immediately.
pub struct PlaybackQueue {
    entries: Vec<TrackEntry>,
}

impl View for PlaybackQueue {
    type V = Seq<TrackEntry>;

    closed spec fn view(&self) -> Seq<TrackEntry> {
        self.entries@
    }
}

impl PlaybackQueue {
    /// Well-formedness of the queue's entries.
    pub open spec fn wf(self) -> bool {
        wf_entries(self@)
    }

    /// An empty, idle queue.
    pub fn new() -> (q: PlaybackQueue)
        ensures
            q@ == Seq::<TrackEntry>::empty(),
            q.wf(),
    {
        PlaybackQueue { entries: Vec::new() }
    }

    pub fn len(&self) -> (n: usize)
        ensures
            n == self@.len(),
    {
        self.entries.len()
    }

    pub fn is_empty(&self) -> (b: bool)
        ensures
            b == (self@.len() == 0),
    {
        self.entries.len() == 0
    }

    /// The playback state of the entry at `i`.
    pub fn state_at(&self, i: usize) -> (s: TrackState)
        requires
            i < self@.len(),
        ensures
            s == self@[i as int].state,
    {
        self.entries[i].state
    }

    /// The source descriptor of the entry at `i`.
    pub fn source_at(&self, i: usize) -> (s: &Vec<u8>)
        requires
            i < self@.len(),
        ensures
            s@ == self@[i as int].source@,
    {
        &self.entries[i].source
    }

    /// Appends a track. On an empty, idle queue the track starts playing at
    /// once (the caller is told so and starts the transport); otherwise it
    /// waits in FIFO order behind the head.
    pub fn enqueue(&mut self, t: TrackEntry) -> (o: EnqueueOutcome)
        requires
            old(self).wf(),
        ensures
            final(self).wf(),
            final(self)@ == spec_enqueue(old(self)@, t).0,
            o == spec_enqueue(old(self)@, t).1,
    {
        if self.entries.len() == 0 {
            self.entries.push(TrackEntry { state: TrackState::Playing, ..t });
            assert(self@ =~= spec_enqueue(old(self)@, t).0);
            EnqueueOutcome::Started
        } else {
            self.entries.push(TrackEntry { state: TrackState::Queued, ..t });
            EnqueueOutcome::Appended
        }
    }

    /// Removes the head entry and promotes the next queued entry, if any, to
    /// playing. Errs on an empty queue; the voice session stays up either way.
    pub fn skip(&mut self) -> (r: Result<(), QueueError>)
        requires
            old(self).wf(),
        ensures
            final(self).wf(),
            final(self)@ == spec_skip(old(self)@).0,
            r == spec_skip(old(self)@).1,
    {
        if self.entries.len() == 0 {
            return Err(QueueError::NotPlaying);
        }
        self.entries.remove(0);
        assert(self@ =~= old(self)@.drop_first());
        if self.entries.len() > 0 {
            let head = self.entries.remove(0);
            let head = TrackEntry { state: TrackState::Playing, ..head };
            self.entries.insert(0, head);
            assert(self@ =~= spec_skip(old(self)@).0);
        }
        Ok(())
    }

    /// Pauses the head entry without altering the queue order. Errs on an
    /// empty queue.
    pub fn pause(&mut self) -> (r: Result<(), QueueError>)
        requires
            old(self).wf(),
        ensures
            final(self).wf(),
            final(self)@ == spec_pause(old(self)@).0,
            r == spec_pause(old(self)@).1,
    {
        if self.entries.len() == 0 {
            return Err(QueueError::NotPlaying);
        }
        let head = self.entries.remove(0);
        let head = TrackEntry { state: TrackState::Paused, ..head };
        self.entries.insert(0, head);
        assert(self@ =~= spec_pause(old(self)@).0);
        Ok(())
    }

    /// Resumes the head entry without altering the queue order. Errs on an
    /// empty queue.
    pub fn resume(&mut self) -> (r: Result<(), QueueError>)
        requires
            old(self).wf(),
        ensures
            final(self).wf(),
            final(self)@ == spec_resume(old(self)@).0,
            r == spec_resume(old(self)@).1,
    {
        if self.entries.len() == 0 {
            return Err(QueueError::NotPaused);
        }
        let head = self.entries.remove(0);
        let head = TrackEntry { state: TrackState::Playing, ..head };
        self.entries.insert(0, head);
        assert(self@ =~= spec_resume(old(self)@).0);
        Ok(())
    }

    /// Clears the whole queue and halts playback. The voice session itself is
    /// not torn down.
    pub fn stop(&mut self)
        ensures
            final(self).wf(),
            final(self)@ == Seq::<TrackEntry>::empty(),
    {
        self.entries.clear();
        assert(self@ =~= Seq::<TrackEntry>::empty());
    }
}

} // verus!
