use voicebot::observer::{observe_track_errors, PlayStatus, TrackSnapshot};
use voicebot::registry::{RegistryError, VoiceSessionRegistry};
use voicebot::session::{AudioSource, SourceKind, VoiceSession};

#[test]
fn registry_join_then_get_and_remove() {
    let mut registry = VoiceSessionRegistry::new();
    assert!(!registry.contains(42));
    assert_eq!(registry.join(42, 7), Ok(()));
    assert!(registry.contains(42));
    let session = registry.get(42).expect("session stored by join");
    assert_eq!(session.guild, 42);
    assert_eq!(session.channel, 7);
    assert_eq!(registry.remove(42), Ok(()));
    assert!(!registry.contains(42));
}

#[test]
fn registry_join_refuses_a_second_session() {
    let mut registry = VoiceSessionRegistry::new();
    assert_eq!(registry.join(42, 7), Ok(()));
    assert_eq!(registry.join(42, 9), Err(RegistryError::AlreadyConnected));
    assert_eq!(registry.get(42).unwrap().channel, 7);
}

#[test]
fn registry_remove_without_session_fails_not_connected() {
    let mut registry = VoiceSessionRegistry::new();
    assert_eq!(registry.remove(99), Err(RegistryError::NotConnected));
}

#[test]
fn registry_playback_operations_need_a_session() {
    let mut registry = VoiceSessionRegistry::new();
    let source =
        AudioSource { kind: SourceKind::Search, locator: String::from("lofi beats") };
    assert_eq!(registry.append_source(42, source), Err(RegistryError::NotConnected));
    assert_eq!(registry.skip_head(42), Err(RegistryError::NotConnected));
    assert_eq!(registry.clear_queue(42), Err(RegistryError::NotConnected));
}

#[test]
fn registry_guilds_are_independent() {
    let mut registry = VoiceSessionRegistry::new();
    registry.join(42, 7).unwrap();
    registry.join(99, 3).unwrap();
    let source =
        AudioSource { kind: SourceKind::Search, locator: String::from("lofi beats") };
    registry.append_source(42, source).unwrap();
    registry.clear_queue(99).unwrap();
    assert_eq!(registry.get(42).unwrap().queue_len(), 1);
    assert_eq!(registry.get(99).unwrap().queue_len(), 0);
    registry.remove(99).unwrap();
    assert!(registry.contains(42));
}

#[test]
fn registry_skip_head_reports_whether_playback_advances() {
    let mut registry = VoiceSessionRegistry::new();
    registry.join(42, 7).unwrap();
    assert_eq!(registry.skip_head(42), Ok(false));
    let source = AudioSource {
        kind: SourceKind::Direct,
        locator: String::from("https://example.com/a.mp3"),
    };
    registry.append_source(42, source).unwrap();
    assert_eq!(registry.skip_head(42), Ok(true));
    assert_eq!(registry.get(42).unwrap().queue_len(), 0);
}

#[test]
fn session_queue_is_fifo() {
    let mut session = VoiceSession::new(42, 7);
    session.enqueue(AudioSource {
        kind: SourceKind::Direct,
        locator: String::from("https://example.com/a.mp3"),
    });
    session.enqueue(AudioSource {
        kind: SourceKind::Search,
        locator: String::from("lofi beats"),
    });
    assert_eq!(session.queue_len(), 2);
    assert_eq!(session.sources()[0].locator, "https://example.com/a.mp3");
    assert_eq!(session.sources()[1].locator, "lofi beats");
    assert!(session.skip_head());
    assert_eq!(session.queue_len(), 1);
    assert_eq!(session.sources()[0].locator, "lofi beats");
    session.clear();
    assert_eq!(session.queue_len(), 0);
    assert!(!session.skip_head());
}

#[test]
fn observer_logs_one_record_per_track() {
    let tracks = vec![
        TrackSnapshot { track: 11, status: PlayStatus::Errored },
        TrackSnapshot { track: 22, status: PlayStatus::Ended },
    ];
    let records = observe_track_errors(&tracks);
    assert_eq!(records.len(), 2);
    assert_eq!(records[0].track, 11);
    assert_eq!(records[0].status, PlayStatus::Errored);
    assert_eq!(records[1].track, 22);
    assert_eq!(records[1].status, PlayStatus::Ended);
}

#[test]
fn observer_on_an_empty_event_logs_nothing() {
    let tracks: Vec<TrackSnapshot> = Vec::new();
    let records = observe_track_errors(&tracks);
    assert!(records.is_empty());
}
