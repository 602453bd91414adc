use daneel_web::collector::{
    assemble_metrics, connection_drive_step, content_preview, emotional_intensity,
    identity_counters, latest_emotion, recent_thoughts, IdentityCounters, IdentityPayload,
    StreamEntry, StreamPoll, DRIVE_CENTER, DRIVE_MAX, DRIVE_MIN,
};
use daneel_web::metrics::{
    default_metrics, EntropyMetrics, ExtendedMetrics, FractalityMetrics, MemorySlot,
    MemoryWindowsMetrics, PhilosophyMetrics, StageMetrics, StreamCompetitionMetrics,
    SystemMetrics, HALF,
};
use daneel_web::store::SnapshotStore;

fn entry(id: &str, importance: f64, valence: f64, arousal: f64) -> StreamEntry {
    StreamEntry {
        id: id.to_string(),
        content: format!("{{\"Symbol\":{{\"id\":\"{}\"}}}}", id),
        symbol_id: Some(format!("sym_{}", id)),
        importance: Some((importance * 1_000_000.0).round() as i64),
        valence: Some((valence * 1_000_000.0).round() as i64),
        arousal: Some((arousal * 1_000_000.0).round() as i64),
    }
}

fn poll(entries: Vec<StreamEntry>, seed: u64) -> StreamPoll {
    StreamPoll {
        now_ms: 1_700_000_000_000,
        uptime_seconds: 42,
        identity: IdentityCounters { lifetime_thoughts: 1000, restart_count: 3, lifetime_dreams: 7 },
        session_thoughts: 55,
        entries,
        conscious_memories: 11,
        unconscious_memories: 22,
        drive_seed: seed,
    }
}

fn three_entries() -> Vec<StreamEntry> {
    vec![
        entry("3-0", 0.9, 0.2, 0.7),
        entry("2-0", 0.4, -0.1, 0.3),
        entry("1-0", 0.1, 0.0, 0.5),
    ]
}

#[test]
fn test_default_metrics() {
    let m = default_metrics(0);
    assert_eq!(m.identity.name, "Timmy");
}

#[test]
fn default_snapshot_is_neutral() {
    let m = default_metrics(5);
    assert_eq!(m.timestamp_ms, 5);
    assert_eq!(m.emotional.valence, 0);
    assert_eq!(m.emotional.arousal, HALF);
    assert_eq!(m.emotional.connection_drive, HALF);
    assert_eq!(m.actors.memory_actor.name, "MemoryActor");
    assert_eq!(m.actors.volition_actor.name, "VolitionActor");
    assert!(m.actors.salience_actor.alive);
    assert!(m.recent_thoughts.is_empty());
}

#[test]
fn three_entries_give_newest_emotion() {
    let mut store = SnapshotStore::new(0);
    store.apply_stream_poll(Some(poll(three_entries(), 99)));
    let m = store.metrics();
    assert_eq!(m.emotional.valence, 200_000);
    assert_eq!(m.emotional.arousal, 700_000);
    assert_eq!(m.emotional.emotional_intensity, 140_000);
    assert_eq!(m.recent_thoughts.len(), 3);
    assert_eq!(m.recent_thoughts[0].id, "3-0");
    assert_eq!(m.recent_thoughts[1].id, "2-0");
    assert_eq!(m.recent_thoughts[2].id, "1-0");
    assert_eq!(m.recent_thoughts[0].salience, 900_000);
    assert_eq!(m.recent_thoughts[0].content_preview, "sym_3-0");
    assert_eq!(m.cognitive.current_cycle, 55);
    assert_eq!(m.cognitive.lifetime_dreams, 7);
    assert_eq!(m.identity.restart_count, 3);
    assert_eq!(m.emotional.dominance, HALF);
}

#[test]
fn intensity_formula() {
    assert_eq!(emotional_intensity(200_000, 700_000), 140_000);
    assert_eq!(emotional_intensity(-500_000, 500_000), 250_000);
    assert_eq!(emotional_intensity(0, 1_000_000), 0);
    assert_eq!(emotional_intensity(-1_000_000, 1_000_000), 1_000_000);
}

#[test]
fn empty_stream_is_neutral() {
    assert_eq!(latest_emotion(&vec![]), (0, HALF));
    let e = StreamEntry {
        id: "x".to_string(),
        content: String::new(),
        symbol_id: None,
        importance: None,
        valence: None,
        arousal: None,
    };
    assert_eq!(latest_emotion(&vec![e]), (0, HALF));
}

#[test]
fn out_of_range_scores_are_clamped() {
    let e = StreamEntry {
        id: "x".to_string(),
        content: String::new(),
        symbol_id: None,
        importance: Some(3_000_000),
        valence: Some(-2_000_000),
        arousal: Some(-4),
    };
    assert_eq!(latest_emotion(&vec![e]), (-1_000_000, 0));
    let e = StreamEntry {
        id: "y".to_string(),
        content: String::new(),
        symbol_id: None,
        importance: Some(3_000_000),
        valence: None,
        arousal: None,
    };
    let t = recent_thoughts(&vec![e], 0);
    assert_eq!(t[0].salience, 1_000_000);
}

#[test]
fn preview_falls_back_to_raw_content() {
    let long: String = "abcdefghij".repeat(10);
    let p = content_preview(&long, &None);
    assert_eq!(p, "abcdefghij".repeat(8));
    assert_eq!(content_preview(&"short".to_string(), &None), "short");
    assert_eq!(content_preview(&long, &Some("thought_1".to_string())), "thought_1");
    let wide: String = "é".repeat(100);
    assert_eq!(content_preview(&wide, &None).chars().count(), 80);
}

#[test]
fn at_most_twenty_recent_thoughts() {
    let entries: Vec<StreamEntry> = (0..25).map(|i| entry(&format!("{}-0", i), 0.5, 0.0, 0.5)).collect();
    let t = recent_thoughts(&entries, 0);
    assert_eq!(t.len(), 20);
    assert_eq!(t[19].id, "19-0");
}

#[test]
fn drive_step_exact_value() {
    // seed 0 mixes to 12345: (345 - 500) * 40 = -6200; reversion 0 at the centre.
    assert_eq!(connection_drive_step(DRIVE_CENTER, 0), 843_800);
    // From 0.5: reversion (0.85 - 0.5) / 20 = 17500.
    assert_eq!(connection_drive_step(500_000, 0), 511_300);
    assert_eq!(connection_drive_step(i64::MIN, 0), DRIVE_MIN);
    assert_eq!(connection_drive_step(i64::MAX, 0), DRIVE_MAX);
}

#[test]
fn drive_walk_stays_bounded() {
    let mut d = DRIVE_CENTER;
    let mut seed: u64 = 7;
    for _ in 0..10_000 {
        seed = seed.wrapping_mul(6364136223846793005).wrapping_add(1442695040888963407);
        d = connection_drive_step(d, seed);
        assert!((DRIVE_MIN..=DRIVE_MAX).contains(&d));
    }
    let mut store = SnapshotStore::new(0);
    for s in 0..500u64 {
        store.apply_stream_poll(Some(poll(vec![], s * 977)));
        let d = store.connection_drive();
        assert!((DRIVE_MIN..=DRIVE_MAX).contains(&d));
        assert_eq!(store.metrics().emotional.connection_drive, d);
    }
}

#[test]
fn identity_defaults() {
    assert_eq!(
        identity_counters(&None),
        IdentityCounters { lifetime_thoughts: 0, restart_count: 0, lifetime_dreams: 0 }
    );
    let p = IdentityPayload {
        lifetime_thought_count: Some(12),
        restart_count: None,
        lifetime_dream_count: Some(4),
    };
    assert_eq!(
        identity_counters(&Some(p)),
        IdentityCounters { lifetime_thoughts: 12, restart_count: 0, lifetime_dreams: 4 }
    );
}

#[test]
fn failed_poll_keeps_prior_snapshot() {
    let mut store = SnapshotStore::new(0);
    store.apply_stream_poll(Some(poll(three_entries(), 1)));
    let before = store.metrics().clone();
    let drive = store.connection_drive();
    store.apply_stream_poll(None);
    store.apply_stream_poll(None);
    assert_eq!(store.metrics().timestamp_ms, before.timestamp_ms);
    assert_eq!(store.metrics().emotional, before.emotional);
    assert_eq!(store.metrics().recent_thoughts.len(), 3);
    assert_eq!(store.connection_drive(), drive);
    let mut next = poll(vec![entry("9-0", 0.3, -0.5, 0.2)], 2);
    next.now_ms += 150;
    store.apply_stream_poll(Some(next));
    assert_eq!(store.metrics().timestamp_ms, 1_700_000_000_150);
    assert_eq!(store.metrics().emotional.valence, -500_000);
    assert_eq!(store.metrics().recent_thoughts.len(), 1);
    assert_eq!(store.connection_drive(), connection_drive_step(drive, 2));
}

#[test]
fn write_replaces_whole_snapshot() {
    let mut store = SnapshotStore::new(0);
    store.apply_stream_poll(Some(poll(three_entries(), 5)));
    let m = store.metrics();
    assert_eq!(m.identity.uptime_seconds, 42);
    assert_eq!(m.recent_thoughts.len(), 3);
    store.apply_stream_poll(Some(poll(vec![], 6)));
    let m = store.metrics();
    assert!(m.recent_thoughts.is_empty());
    assert_eq!(m.emotional.valence, 0);
    assert_eq!(m.emotional.emotional_intensity, 0);
    let p = poll(three_entries(), 0);
    let built = assemble_metrics(&p, 900_000);
    assert_eq!(built.emotional.connection_drive, 900_000);
}

fn extended(dominant: usize, active: usize, normalized: i64) -> ExtendedMetrics {
    ExtendedMetrics {
        timestamp_ms: 1,
        stream_competition: StreamCompetitionMetrics {
            stages: vec![
                StageMetrics { name: "Trigger".into(), activity: 100_000, history: vec![1, 2] },
                StageMetrics { name: "Autoflow".into(), activity: 200_000, history: vec![] },
            ],
            dominant_stream: dominant,
            active_count: active,
            competition_level: "Calm".into(),
        },
        entropy: EntropyMetrics {
            current: 2_100_000,
            history: vec![],
            description: "BALANCED".into(),
            normalized,
        },
        fractality: FractalityMetrics {
            score: 400_000,
            inter_arrival_sigma: 1,
            boot_sigma: 2,
            burst_ratio: 3,
            description: "x".into(),
            history: vec![],
        },
        memory_windows: MemoryWindowsMetrics {
            slots: vec![MemorySlot { id: 0, active: true }],
            active_count: 4,
            conscious_count: 10,
            unconscious_count: 20,
        },
        philosophy: PhilosophyMetrics { quote: "q".into(), quote_index: 2 },
        system: SystemMetrics {
            uptime_seconds: 1,
            session_thoughts: 2,
            lifetime_thoughts: 3,
            thoughts_per_hour: 4,
            dream_cycles: 5,
            veto_count: 6,
        },
    }
}

#[test]
fn extended_poll_is_brought_into_range() {
    let mut store = SnapshotStore::new(0);
    assert!(store.extended().is_none());
    store.apply_extended_poll(Some(extended(9, 7, 1_300_000)));
    let e = store.extended().as_ref().unwrap();
    assert_eq!(e.stream_competition.dominant_stream, 0);
    assert_eq!(e.stream_competition.active_count, 2);
    assert_eq!(e.entropy.normalized, 1_000_000);
    assert_eq!(e.memory_windows.active_count, 1);
    store.apply_extended_poll(None);
    assert_eq!(store.extended().as_ref().unwrap().stream_competition.active_count, 2);
    store.apply_extended_poll(Some(extended(1, 1, 300_000)));
    let e = store.extended().as_ref().unwrap();
    assert_eq!(e.stream_competition.dominant_stream, 1);
    assert_eq!(e.entropy.normalized, 300_000);
}
