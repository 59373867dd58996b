use bami::commands::{
    parse_command, plan_join, CommandKind, PauseCommand, PingCommand, PlayCommand, ResumeCommand,
    SkipCommand, StopCommand,
};
use bami::error::MusicError;
use bami::queue::{AuxMeta, EnqueueOutcome, QueueError, TrackEntry, TrackState};
use bami::registry::{JoinDecision, SessionRegistry};

fn track(source: &str, requester: u64) -> TrackEntry {
    TrackEntry {
        source: source.as_bytes().to_vec(),
        requester,
        meta: AuxMeta { title: None, source_url: None, thumbnail: None, duration_secs: None },
        state: TrackState::Queued,
    }
}

#[test]
fn join_twice_reuses_the_same_session_handle() {
    let mut reg = SessionRegistry::new();
    assert_eq!(reg.prepare_join(10), JoinDecision::MustConnect);
    reg.register_session(10, 555, 7001);
    let first = reg.prepare_join(10);
    let second = reg.prepare_join(10);
    assert_eq!(first, JoinDecision::Existing(7001));
    assert_eq!(second, first);
    assert_eq!(reg.session_count(), 1);
    assert_eq!(reg.get_handle(10), Some(7001));
}

#[test]
fn leave_is_idempotent_and_keeps_other_guilds() {
    let mut reg = SessionRegistry::new();
    reg.register_session(1, 11, 100);
    reg.register_session(2, 22, 200);
    reg.leave(1);
    reg.leave(1);
    assert_eq!(reg.get_handle(1), None);
    assert_eq!(reg.get_handle(2), Some(200));
    assert_eq!(reg.session_count(), 1);
    reg.leave(3);
    assert_eq!(reg.session_count(), 1);
}

#[test]
fn queue_commands_without_a_session_are_silent_no_ops() {
    let mut reg = SessionRegistry::new();
    assert_eq!(PauseCommand::handle(&mut reg, 9), None);
    assert_eq!(ResumeCommand::handle(&mut reg, 9), None);
    assert_eq!(SkipCommand::handle(&mut reg, 9), None);
    assert_eq!(StopCommand::handle(&mut reg, 9), None);
    assert_eq!(reg.enqueue_track(9, track("a", 1)), None);
    assert_eq!(reg.session_count(), 0);
}

#[test]
fn enqueue_through_registry_fast_paths_only_once() {
    let mut reg = SessionRegistry::new();
    reg.register_session(5, 50, 500);
    let o1 = reg.enqueue_track(5, track("a", 1));
    let o2 = reg.enqueue_track(5, track("b", 2));
    assert_eq!(o1, Some(EnqueueOutcome::Started));
    assert_eq!(o2, Some(EnqueueOutcome::Appended));
    let q = reg.get_queue(5).unwrap();
    assert_eq!(q.len(), 2);
    assert_eq!(q.state_at(0), TrackState::Playing);
    assert_eq!(q.state_at(1), TrackState::Queued);
}

#[test]
fn commands_drive_the_guilds_queue() {
    let mut reg = SessionRegistry::new();
    reg.register_session(5, 50, 500);
    reg.enqueue_track(5, track("a", 1));
    reg.enqueue_track(5, track("b", 2));
    assert_eq!(PauseCommand::handle(&mut reg, 5), Some(Ok(())));
    assert_eq!(reg.get_queue(5).unwrap().state_at(0), TrackState::Paused);
    assert_eq!(ResumeCommand::handle(&mut reg, 5), Some(Ok(())));
    assert_eq!(reg.get_queue(5).unwrap().state_at(0), TrackState::Playing);
    assert_eq!(SkipCommand::handle(&mut reg, 5), Some(Ok(())));
    let q = reg.get_queue(5).unwrap();
    assert_eq!(q.len(), 1);
    assert_eq!(q.source_at(0), "b".as_bytes());
    assert_eq!(q.state_at(0), TrackState::Playing);
    assert_eq!(StopCommand::handle(&mut reg, 5), Some(()));
    assert!(reg.get_queue(5).unwrap().is_empty());
    assert_eq!(SkipCommand::handle(&mut reg, 5), Some(Err(QueueError::NotPlaying)));
}

#[test]
fn two_guilds_never_contend() {
    let mut reg = SessionRegistry::new();
    reg.register_session(1, 11, 100);
    reg.register_session(2, 22, 200);
    reg.enqueue_track(1, track("a", 1));
    reg.enqueue_track(2, track("b", 2));
    assert_eq!(SkipCommand::handle(&mut reg, 1), Some(Ok(())));
    let q2 = reg.get_queue(2).unwrap();
    assert_eq!(q2.len(), 1);
    assert_eq!(q2.source_at(0), "b".as_bytes());
}

#[test]
fn plan_join_reuses_joins_or_rejects() {
    let mut reg = SessionRegistry::new();
    assert_eq!(plan_join(&reg, 1, Some(77)), Ok(JoinDecision::MustConnect));
    assert_eq!(plan_join(&reg, 1, None), Err(MusicError::NotInVoiceChannel));
    reg.register_session(1, 77, 700);
    assert_eq!(plan_join(&reg, 1, Some(88)), Ok(JoinDecision::Existing(700)));
    assert_eq!(plan_join(&reg, 1, None), Ok(JoinDecision::Existing(700)));
}

#[test]
fn resolution_failure_is_reported_and_skipped() {
    let mut reg = SessionRegistry::new();
    reg.register_session(1, 11, 100);
    assert_eq!(
        PlayCommand::handle_resolved(&mut reg, 1, "a".as_bytes().to_vec(), 5, None),
        Err(MusicError::TrackResolutionFailed)
    );
    assert!(reg.get_queue(1).unwrap().is_empty());
    let meta = AuxMeta { title: None, source_url: None, thumbnail: None, duration_secs: None };
    assert_eq!(
        PlayCommand::handle_resolved(&mut reg, 1, "a".as_bytes().to_vec(), 5, Some(meta)),
        Ok(EnqueueOutcome::Started)
    );
    assert_eq!(reg.get_queue(1).unwrap().len(), 1);
}

#[test]
fn resolved_track_without_session_is_rejected() {
    let mut reg = SessionRegistry::new();
    let meta = AuxMeta { title: None, source_url: None, thumbnail: None, duration_secs: None };
    assert_eq!(
        PlayCommand::handle_resolved(&mut reg, 1, "a".as_bytes().to_vec(), 5, Some(meta)),
        Err(MusicError::NoActiveSession)
    );
}

#[test]
fn command_names_dispatch_to_the_known_set() {
    assert_eq!(parse_command("ping"), Ok(CommandKind::Ping));
    assert_eq!(parse_command("play"), Ok(CommandKind::Play));
    assert_eq!(parse_command("pause"), Ok(CommandKind::Pause));
    assert_eq!(parse_command("resume"), Ok(CommandKind::Resume));
    assert_eq!(parse_command("skip"), Ok(CommandKind::Skip));
    assert_eq!(parse_command("stop"), Ok(CommandKind::Stop));
    assert_eq!(parse_command("pong"), Err(MusicError::UnknownCommand));
    assert_eq!(parse_command(""), Err(MusicError::UnknownCommand));
    assert_eq!(parse_command("playy"), Err(MusicError::UnknownCommand));
}

#[test]
fn ping_answers_pong() {
    assert_eq!(PingCommand::handle(), "pong");
}

#[test]
fn play_command_carries_its_query() {
    let c = PlayCommand { query: String::from("https://example.invalid/x") };
    assert_eq!(c.query, "https://example.invalid/x");
}
