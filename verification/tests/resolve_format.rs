use bami::error::MusicError;
use bami::notify::{song_field, user_mention, requested_by_line, NowPlayingNotice, TrackPlayableHandler};
use bami::queue::AuxMeta;
use bami::resolve::{classify_query, expand_playlist, QueryKind};
use bami::utils::to_timestamp;

#[test]
fn search_terms_do_not_start_with_http() {
    assert_eq!(classify_query("despacito".as_bytes()), QueryKind::Search);
    assert_eq!(classify_query("".as_bytes()), QueryKind::Search);
    assert_eq!(classify_query("htt".as_bytes()), QueryKind::Search);
    assert_eq!(classify_query("xhttps://a".as_bytes()), QueryKind::Search);
    // A playlist marker without the URL scheme is still a search term.
    assert_eq!(classify_query("my playlist of hits".as_bytes()), QueryKind::Search);
}

#[test]
fn playlist_urls_carry_the_marker() {
    assert_eq!(
        classify_query("https://www.youtube.com/playlist?list=PL123".as_bytes()),
        QueryKind::Playlist
    );
    assert_eq!(classify_query("httpplaylist".as_bytes()), QueryKind::Playlist);
}

#[test]
fn other_urls_are_direct() {
    assert_eq!(
        classify_query("https://www.youtube.com/watch?v=dQw4w9WgXcQ".as_bytes()),
        QueryKind::DirectUrl
    );
    assert_eq!(classify_query("http".as_bytes()), QueryKind::DirectUrl);
}

fn entry(id: &str) -> String {
    format!("{{\"title\": \"t\", \"url\": \"https://www.youtube.com/watch?v={}\"}}", id)
}

#[test]
fn playlist_with_three_entries_yields_three_urls_in_order() {
    let out = format!("{}\n{}\n{}\n", entry("AAAAAAAAAAA"), entry("BBBBB22222b"), entry("cccCCCCC333"));
    let urls = expand_playlist(out.as_bytes()).unwrap();
    assert_eq!(urls.len(), 3);
    assert_eq!(urls[0], "https://www.youtube.com/watch?v=AAAAAAAAAAA".as_bytes().to_vec());
    assert_eq!(urls[1], "https://www.youtube.com/watch?v=BBBBB22222b".as_bytes().to_vec());
    assert_eq!(urls[2], "https://www.youtube.com/watch?v=cccCCCCC333".as_bytes().to_vec());
}

#[test]
fn empty_tool_output_fails_the_whole_playlist() {
    assert_eq!(expand_playlist("".as_bytes()), Err(MusicError::PlaylistExpansionFailed));
}

#[test]
fn malformed_tool_output_fails_the_whole_playlist() {
    // A short id, an id with a bad character, and an unclosed entry: nothing extractable.
    let out = format!(
        "{}\n{}\n\"url\": \"https://www.youtube.com/watch?v=AAAAAAAAAAA",
        entry("SHORT"),
        entry("BAD-CHAR-ID")
    );
    assert_eq!(expand_playlist(out.as_bytes()), Err(MusicError::PlaylistExpansionFailed));
}

#[test]
fn one_good_entry_among_bad_ones_is_extracted() {
    let out = format!("{}\n{}\n", entry("tooshort"), entry("GoodVideo01"));
    let urls = expand_playlist(out.as_bytes()).unwrap();
    assert_eq!(urls.len(), 1);
    assert_eq!(urls[0], "https://www.youtube.com/watch?v=GoodVideo01".as_bytes().to_vec());
}

#[test]
fn timestamps_are_zero_padded() {
    assert_eq!(to_timestamp(45), "00:45");
    assert_eq!(to_timestamp(125), "02:05");
    assert_eq!(to_timestamp(3725), "01:02:05");
}

#[test]
fn timestamp_edges() {
    assert_eq!(to_timestamp(0), "00:00");
    assert_eq!(to_timestamp(59), "00:59");
    assert_eq!(to_timestamp(60), "01:00");
    assert_eq!(to_timestamp(3599), "59:59");
    assert_eq!(to_timestamp(3600), "01:00:00");
    assert_eq!(to_timestamp(362999), "100:49:59");
}

#[test]
fn mention_and_fields_format() {
    assert_eq!(user_mention(42), "<@42>".as_bytes().to_vec());
    assert_eq!(user_mention(0), "<@0>".as_bytes().to_vec());
    assert_eq!(
        song_field("My Song".as_bytes(), "https://example.invalid/s".as_bytes()),
        "[My Song](https://example.invalid/s)".as_bytes().to_vec()
    );
    assert_eq!(requested_by_line(7), "Requested by <@7>".as_bytes().to_vec());
}

#[test]
fn now_playing_notice_composes_all_fields() {
    let meta = AuxMeta {
        title: Some("Tune".as_bytes().to_vec()),
        source_url: Some("https://example.invalid/t".as_bytes().to_vec()),
        thumbnail: Some("https://example.invalid/thumb.jpg".as_bytes().to_vec()),
        duration_secs: Some(125),
    };
    let n = NowPlayingNotice::compose(&meta, 99);
    assert_eq!(n.song, "[Tune](https://example.invalid/t)".as_bytes().to_vec());
    assert_eq!(n.duration, "02:05");
    assert_eq!(n.requested_by, "<@99>".as_bytes().to_vec());
    assert_eq!(n.thumbnail, "https://example.invalid/thumb.jpg".as_bytes().to_vec());
}

#[test]
fn error_messages_name_the_failure() {
    assert_eq!(MusicError::NotInVoiceChannel.message(), "You are not in a voice channel");
    assert_eq!(MusicError::VoiceJoinFailed.message(), "Failed to join voice channel");
    assert_eq!(MusicError::NoActiveSession.message(), "Bami is not in a voice channel");
    assert_eq!(MusicError::TrackResolutionFailed.message(), "Error processing your request");
    assert_eq!(MusicError::PlaylistExpansionFailed.message(), "Failed to expand the playlist");
    assert_eq!(MusicError::UnknownCommand.message(), "Unknown command");
}

#[test]
fn track_playable_handler_notifies_only_once_resolved() {
    let full = AuxMeta {
        title: Some("Tune".as_bytes().to_vec()),
        source_url: Some("https://example.invalid/t".as_bytes().to_vec()),
        thumbnail: Some("https://example.invalid/thumb.jpg".as_bytes().to_vec()),
        duration_secs: Some(45),
    };
    let handler = TrackPlayableHandler { user: 3, channel_id: 8, metadata: full };
    let notice = handler.act().unwrap();
    assert_eq!(notice.song, "[Tune](https://example.invalid/t)".as_bytes().to_vec());
    assert_eq!(notice.duration, "00:45");
    assert_eq!(notice.requested_by, "<@3>".as_bytes().to_vec());

    let partial = AuxMeta {
        title: None,
        source_url: Some("https://example.invalid/t".as_bytes().to_vec()),
        thumbnail: None,
        duration_secs: Some(45),
    };
    let handler = TrackPlayableHandler { user: 3, channel_id: 8, metadata: partial };
    assert!(handler.act().is_none());
}
