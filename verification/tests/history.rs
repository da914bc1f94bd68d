use shairport_dashboard::history::{
    has_track_data, HistoryState, LegacyPersistedHistory, PersistedHistory, TimedEvent,
    HISTORY_MAX_POINTS,
};
use shairport_dashboard::models::{
    IwEventSample, SampleEvent, ShairportMetadataSample, SystemSample,
};

fn system(ts: u64) -> SampleEvent {
    SampleEvent::System(SystemSample {
        timestamp_ms: ts,
        cpu_temp_c: "48.3".to_string(),
        cpu_usage_pct: "12.5".to_string(),
        ram_usage_pct: "40".to_string(),
        fan_speed_rpm: None,
        fan_speeds_rpm: vec![],
        throttled_now: Some(false),
    })
}

fn metadata(track: Option<&str>) -> SampleEvent {
    SampleEvent::ShairportMetadata(ShairportMetadataSample {
        timestamp_ms: 1,
        track: track.map(|t| t.to_string()),
        artist: None,
        album: None,
        genre: None,
        artwork_base64: None,
    })
}

#[test]
fn telemetry_keeps_the_newest_samples() {
    let mut h = HistoryState::new();
    for i in 0..(HISTORY_MAX_POINTS as u64 + 5) {
        h.apply_event(system(i), i * 10);
    }
    let replay = h.replay_events();
    assert_eq!(replay.len(), HISTORY_MAX_POINTS);
    assert_eq!(replay[0].recorded_at_ms, 50);
    assert_eq!(replay[HISTORY_MAX_POINTS - 1].recorded_at_ms, 1240);
}

#[test]
fn only_metadata_with_track_data_is_kept() {
    let mut h = HistoryState::new();
    h.apply_event(metadata(None), 1);
    assert!(h.replay_events().is_empty());
    h.apply_event(metadata(Some("Shape of You")), 2);
    h.apply_event(metadata(None), 3);
    h.apply_event(
        SampleEvent::IwEvent(IwEventSample { timestamp_ms: 4, line: "x".to_string() }),
        4,
    );
    h.apply_event(system(5), 5);
    let replay = h.replay_events();
    assert_eq!(replay.len(), 2);
    assert_eq!(replay[0].recorded_at_ms, 5);
    assert_eq!(replay[1].recorded_at_ms, 2);
    assert_eq!(replay[1].event, metadata(Some("Shape of You")));
}

#[test]
fn persisted_history_restores_the_same_history() {
    let mut h = HistoryState::new();
    h.apply_event(system(1), 10);
    h.apply_event(metadata(Some("t")), 11);
    let saved = h.to_persisted();
    let restored = HistoryState::from_persisted(PersistedHistory { telemetry: saved.telemetry.clone(), last_track: saved.last_track.clone() });
    assert_eq!(restored.to_persisted(), saved);
}

#[test]
fn restoring_keeps_the_newest_samples() {
    let telemetry: Vec<TimedEvent> = (0..130)
        .map(|i| TimedEvent { recorded_at_ms: i, event: system(i) })
        .collect();
    let h = HistoryState::from_persisted(PersistedHistory { telemetry, last_track: None });
    let saved = h.to_persisted();
    assert_eq!(saved.telemetry.len(), HISTORY_MAX_POINTS);
    assert_eq!(saved.telemetry[0].recorded_at_ms, 10);
}

#[test]
fn legacy_history_is_stamped() {
    let legacy = LegacyPersistedHistory {
        telemetry: vec![system(1), system(2)],
        last_track: Some(ShairportMetadataSample {
            timestamp_ms: 3,
            track: Some("t".to_string()),
            artist: None,
            album: None,
            genre: None,
            artwork_base64: None,
        }),
    };
    let p = legacy.into_timed_at(99);
    assert_eq!(p.telemetry.len(), 2);
    assert!(p.telemetry.iter().all(|e| e.recorded_at_ms == 99));
    assert_eq!(p.telemetry[1].event, system(2));
    let last = p.last_track.expect("track");
    assert_eq!(last.recorded_at_ms, 99);
    assert!(matches!(last.event, SampleEvent::ShairportMetadata(_)));
}

#[test]
fn track_data_detection() {
    let mut m = ShairportMetadataSample {
        timestamp_ms: 0,
        track: None,
        artist: None,
        album: None,
        genre: None,
        artwork_base64: None,
    };
    assert!(!has_track_data(&m));
    m.artwork_base64 = Some("x".to_string());
    assert!(has_track_data(&m));
}
