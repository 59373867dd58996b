use bami::queue::{AuxMeta, EnqueueOutcome, PlaybackQueue, QueueError, TrackEntry, TrackState};

fn track(source: &str, requester: u64) -> TrackEntry {
    TrackEntry {
        source: source.as_bytes().to_vec(),
        requester,
        meta: AuxMeta { title: None, source_url: None, thumbnail: None, duration_secs: None },
        state: TrackState::Queued,
    }
}

#[test]
fn first_enqueue_starts_playing() {
    let mut q = PlaybackQueue::new();
    assert!(q.is_empty());
    let o = q.enqueue(track("https://example.invalid/a", 1));
    assert_eq!(o, EnqueueOutcome::Started);
    assert_eq!(q.len(), 1);
    assert_eq!(q.state_at(0), TrackState::Playing);
}

#[test]
fn later_enqueues_stay_queued_in_fifo_order() {
    let mut q = PlaybackQueue::new();
    assert_eq!(q.enqueue(track("a", 1)), EnqueueOutcome::Started);
    assert_eq!(q.enqueue(track("b", 2)), EnqueueOutcome::Appended);
    assert_eq!(q.enqueue(track("c", 3)), EnqueueOutcome::Appended);
    assert_eq!(q.len(), 3);
    assert_eq!(q.state_at(0), TrackState::Playing);
    assert_eq!(q.state_at(1), TrackState::Queued);
    assert_eq!(q.state_at(2), TrackState::Queued);
    assert_eq!(q.source_at(0), "a".as_bytes());
    assert_eq!(q.source_at(1), "b".as_bytes());
    assert_eq!(q.source_at(2), "c".as_bytes());
}

#[test]
fn two_enqueues_never_both_start() {
    let mut q = PlaybackQueue::new();
    let o1 = q.enqueue(track("a", 1));
    let o2 = q.enqueue(track("b", 2));
    assert!(!(o1 == EnqueueOutcome::Started && o2 == EnqueueOutcome::Started));
    assert_eq!(o1, EnqueueOutcome::Started);
    assert_eq!(o2, EnqueueOutcome::Appended);
    let mut playing = 0;
    for i in 0..q.len() {
        if q.state_at(i) == TrackState::Playing {
            playing += 1;
        }
    }
    assert_eq!(playing, 1);
}

#[test]
fn skip_promotes_second_track() {
    let mut q = PlaybackQueue::new();
    q.enqueue(track("a", 1));
    q.enqueue(track("b", 2));
    q.enqueue(track("c", 3));
    assert_eq!(q.skip(), Ok(()));
    assert_eq!(q.len(), 2);
    assert_eq!(q.source_at(0), "b".as_bytes());
    assert_eq!(q.state_at(0), TrackState::Playing);
    assert_eq!(q.source_at(1), "c".as_bytes());
    assert_eq!(q.state_at(1), TrackState::Queued);
}

#[test]
fn skip_on_last_track_empties_the_queue() {
    let mut q = PlaybackQueue::new();
    q.enqueue(track("a", 1));
    assert_eq!(q.skip(), Ok(()));
    assert!(q.is_empty());
}

#[test]
fn skip_on_empty_queue_errs() {
    let mut q = PlaybackQueue::new();
    assert_eq!(q.skip(), Err(QueueError::NotPlaying));
}

#[test]
fn pause_then_resume_keeps_queue_order() {
    let mut q = PlaybackQueue::new();
    q.enqueue(track("a", 1));
    q.enqueue(track("b", 2));
    q.enqueue(track("c", 3));
    assert_eq!(q.pause(), Ok(()));
    assert_eq!(q.state_at(0), TrackState::Paused);
    assert_eq!(q.resume(), Ok(()));
    assert_eq!(q.len(), 3);
    assert_eq!(q.state_at(0), TrackState::Playing);
    assert_eq!(q.source_at(0), "a".as_bytes());
    assert_eq!(q.source_at(1), "b".as_bytes());
    assert_eq!(q.source_at(2), "c".as_bytes());
}

#[test]
fn pause_and_resume_on_empty_queue_err() {
    let mut q = PlaybackQueue::new();
    assert_eq!(q.pause(), Err(QueueError::NotPlaying));
    assert_eq!(q.resume(), Err(QueueError::NotPaused));
}

#[test]
fn stop_clears_everything() {
    let mut q = PlaybackQueue::new();
    q.enqueue(track("a", 1));
    q.enqueue(track("b", 2));
    q.stop();
    assert!(q.is_empty());
    assert_eq!(q.len(), 0);
}

#[test]
fn enqueue_after_stop_starts_again() {
    let mut q = PlaybackQueue::new();
    q.enqueue(track("a", 1));
    q.stop();
    assert_eq!(q.enqueue(track("b", 2)), EnqueueOutcome::Started);
    assert_eq!(q.state_at(0), TrackState::Playing);
}
