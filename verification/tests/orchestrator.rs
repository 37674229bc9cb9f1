use std::collections::VecDeque;

use luna_rs::actions;
use luna_rs::actions::SkipOutcome;
use luna_rs::actions::StartPlayback;
use luna_rs::event_handlers::TrackEndAction;
use luna_rs::event_handlers::handle_disconnect;
use luna_rs::event_handlers::handle_track_end;
use luna_rs::models::playlist_metadata::PlaylistMetadata;
use luna_rs::models::queue_element::QueueElement;
use luna_rs::models::video_metadata::VideoMetadata;
use luna_rs::registry::GuildRegistry;

const GUILD: u64 = 77;

fn track(n: &str) -> VideoMetadata {
    VideoMetadata {
        id: n.to_string(),
        title: format!("title {n}"),
        channel: format!("channel {n}"),
        url: format!("https://youtube.com/watch?v={n}"),
        thumbnail_url: format!("https://img.example/{n}.jpg"),
    }
}

fn empty_playlist() -> PlaylistMetadata {
    PlaylistMetadata {
        id: "p0".to_string(),
        title: "empty".to_string(),
        channel: "c".to_string(),
        url: "https://youtube.com/playlist?list=p0".to_string(),
        thumbnail_url: "https://img.example/p0.jpg".to_string(),
        items: VecDeque::new(),
    }
}

#[test]
fn enqueue_creates_the_session_lazily() {
    let mut reg = GuildRegistry::new();
    assert!(!reg.has_session(GUILD));
    let was_playing = actions::add_element_to_queue(&mut reg, GUILD, QueueElement::Track(track("a")));
    assert!(!was_playing);
    assert!(reg.has_session(GUILD));
}

#[test]
fn start_playback_without_session_reports_missing() {
    let mut reg = GuildRegistry::new();
    assert!(matches!(actions::start_queue_playback(&mut reg, GUILD), StartPlayback::MissingSession));
}

#[test]
fn start_playback_plays_the_queue_front_once() {
    let mut reg = GuildRegistry::new();
    actions::add_element_to_queue(&mut reg, GUILD, QueueElement::Track(track("a")));
    actions::add_element_to_queue(&mut reg, GUILD, QueueElement::Track(track("b")));
    match actions::start_queue_playback(&mut reg, GUILD) {
        StartPlayback::Started(t) => assert_eq!(t.id, "a"),
        other => panic!("expected playback to start, got {other:?}"),
    }
    // a second start must not double the audio
    assert!(matches!(actions::start_queue_playback(&mut reg, GUILD), StartPlayback::AlreadyPlaying));
    // enqueueing while playing reports that a track is already playing
    let was_playing = actions::add_element_to_queue(&mut reg, GUILD, QueueElement::Track(track("c")));
    assert!(was_playing);
}

#[test]
fn start_playback_on_exhausted_queue_stays_idle() {
    let mut reg = GuildRegistry::new();
    actions::add_element_to_queue(&mut reg, GUILD, QueueElement::Playlist(empty_playlist()));
    assert!(matches!(actions::start_queue_playback(&mut reg, GUILD), StartPlayback::QueueEmpty));
    let snapshot = actions::show_queue(&reg, GUILD, 5).expect("session exists");
    assert_eq!(snapshot.n_items, 0);
}

#[test]
fn attach_handle_then_pause_target_is_available() {
    let mut reg = GuildRegistry::new();
    actions::add_element_to_queue(&mut reg, GUILD, QueueElement::Track(track("a")));
    assert!(matches!(actions::start_queue_playback(&mut reg, GUILD), StartPlayback::Started(_)));
    assert!(actions::current_track_and_handle(&reg, GUILD).is_none());
    assert!(actions::attach_stream_handle(&mut reg, GUILD, 9001));
    let (t, h) = actions::current_track_and_handle(&reg, GUILD).expect("playing with a handle");
    assert_eq!(t.id, "a");
    assert_eq!(h, 9001);
}

#[test]
fn attach_handle_after_disconnect_race_is_a_noop() {
    let mut reg = GuildRegistry::new();
    assert!(!actions::attach_stream_handle(&mut reg, GUILD, 1));
    assert!(!reg.has_session(GUILD));
}

#[test]
fn stop_resets_the_session_and_reports_whether_one_existed() {
    let mut reg = GuildRegistry::new();
    assert!(!actions::stop(&mut reg, GUILD));
    actions::add_element_to_queue(&mut reg, GUILD, QueueElement::Track(track("a")));
    actions::add_element_to_queue(&mut reg, GUILD, QueueElement::Track(track("b")));
    assert!(matches!(actions::start_queue_playback(&mut reg, GUILD), StartPlayback::Started(_)));
    assert!(actions::stop(&mut reg, GUILD));
    let snapshot = actions::show_queue(&reg, GUILD, 5).expect("entry stays after stop");
    assert_eq!(snapshot.n_items, 0);
    assert_eq!(snapshot.n_tracks, 0);
    assert!(actions::current_track_and_handle(&reg, GUILD).is_none());
}

#[test]
fn skip_two_with_two_upcoming_discards_one_and_reports_two() {
    let mut reg = GuildRegistry::new();
    for id in ["one", "two", "three"] {
        actions::add_element_to_queue(&mut reg, GUILD, QueueElement::Track(track(id)));
    }
    assert!(matches!(actions::start_queue_playback(&mut reg, GUILD), StartPlayback::Started(_)));
    assert!(actions::attach_stream_handle(&mut reg, GUILD, 5));
    match actions::skip(&mut reg, GUILD, 2) {
        SkipOutcome::Skipped { skipped, next, remaining_tracks, handle } => {
            assert_eq!(skipped, 2);
            assert_eq!(remaining_tracks, 1);
            assert_eq!(handle, 5);
            match next {
                Some(QueueElement::Track(t)) => assert_eq!(t.id, "three"),
                other => panic!("expected the third track next, got {other:?}"),
            }
        },
        other => panic!("expected a skip, got {other:?}"),
    }
    // the shell stops the stream; the chained track end plays the survivor
    match handle_track_end(&mut reg, GUILD) {
        TrackEndAction::Play(t) => assert_eq!(t.id, "three"),
        other => panic!("expected the chain to continue, got {other:?}"),
    }
}

#[test]
fn skip_more_than_queued_exhausts_and_reports_the_true_count() {
    let mut reg = GuildRegistry::new();
    actions::add_element_to_queue(&mut reg, GUILD, QueueElement::Track(track("one")));
    actions::add_element_to_queue(&mut reg, GUILD, QueueElement::Track(track("two")));
    assert!(matches!(actions::start_queue_playback(&mut reg, GUILD), StartPlayback::Started(_)));
    assert!(actions::attach_stream_handle(&mut reg, GUILD, 5));
    match actions::skip(&mut reg, GUILD, 10) {
        SkipOutcome::Skipped { skipped, next, remaining_tracks, .. } => {
            assert_eq!(skipped, 2); // the playing track plus the one discarded
            assert_eq!(remaining_tracks, 0);
            assert!(next.is_none());
        },
        other => panic!("expected a skip, got {other:?}"),
    }
    // the induced track end finds nothing left: idle, no error
    assert!(matches!(handle_track_end(&mut reg, GUILD), TrackEndAction::Finished));
    assert!(actions::current_track_and_handle(&reg, GUILD).is_none());
}

#[test]
fn skip_without_a_stream_reports_nothing_playing() {
    let mut reg = GuildRegistry::new();
    actions::add_element_to_queue(&mut reg, GUILD, QueueElement::Track(track("one")));
    assert!(matches!(actions::skip(&mut reg, GUILD, 1), SkipOutcome::NothingPlaying));
    assert!(matches!(actions::skip(&mut reg, 404, 1), SkipOutcome::MissingSession));
}

#[test]
fn track_end_chain_walks_the_queue_to_exhaustion() {
    let mut reg = GuildRegistry::new();
    for id in ["one", "two"] {
        actions::add_element_to_queue(&mut reg, GUILD, QueueElement::Track(track(id)));
    }
    match handle_track_end(&mut reg, GUILD) {
        TrackEndAction::Play(t) => assert_eq!(t.id, "one"),
        other => panic!("unexpected {other:?}"),
    }
    match handle_track_end(&mut reg, GUILD) {
        TrackEndAction::Play(t) => assert_eq!(t.id, "two"),
        other => panic!("unexpected {other:?}"),
    }
    assert!(matches!(handle_track_end(&mut reg, GUILD), TrackEndAction::Finished));
}

#[test]
fn track_end_after_registry_removal_is_a_silent_noop() {
    let mut reg = GuildRegistry::new();
    actions::add_element_to_queue(&mut reg, GUILD, QueueElement::Track(track("one")));
    assert!(handle_disconnect(&mut reg, GUILD));
    assert!(matches!(handle_track_end(&mut reg, GUILD), TrackEndAction::NoSession));
    assert!(!reg.has_session(GUILD));
}

#[test]
fn disconnect_is_idempotent() {
    let mut reg = GuildRegistry::new();
    actions::add_element_to_queue(&mut reg, GUILD, QueueElement::Track(track("one")));
    assert!(handle_disconnect(&mut reg, GUILD));
    assert!(!handle_disconnect(&mut reg, GUILD));
}

#[test]
fn show_queue_reports_one_consistent_snapshot() {
    let mut reg = GuildRegistry::new();
    assert!(actions::show_queue(&reg, GUILD, 5).is_none());
    for id in ["one", "two", "three"] {
        actions::add_element_to_queue(&mut reg, GUILD, QueueElement::Track(track(id)));
    }
    let snapshot = actions::show_queue(&reg, GUILD, 2).expect("session exists");
    assert_eq!(snapshot.n_items, 3);
    assert_eq!(snapshot.n_tracks, 3);
    assert_eq!(snapshot.next_items.len(), 2);
    match &snapshot.next_items[0] {
        QueueElement::Track(t) => assert_eq!(t.id, "one"),
        other => panic!("unexpected {other:?}"),
    }
}

#[test]
fn sessions_are_independent() {
    let mut reg = GuildRegistry::new();
    actions::add_element_to_queue(&mut reg, 1, QueueElement::Track(track("a")));
    actions::add_element_to_queue(&mut reg, 2, QueueElement::Track(track("b")));
    assert!(matches!(actions::start_queue_playback(&mut reg, 1), StartPlayback::Started(_)));
    assert!(actions::stop(&mut reg, 1));
    match actions::start_queue_playback(&mut reg, 2) {
        StartPlayback::Started(t) => assert_eq!(t.id, "b"),
        other => panic!("unexpected {other:?}"),
    }
}
