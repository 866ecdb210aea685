use adas_drive_mode::buffer::EventBuffer;
use adas_drive_mode::types::{DriveModeKind, HeartRateEvent, Mood, MoodEvent};
use adas_drive_mode::window::{process_window, tick};

#[test]
fn end_to_end_happy_falling_window() {
    let mut buffer = EventBuffer::new();
    for mood in [Mood::Happy, Mood::Happy, Mood::Sad] {
        buffer.append_mood(MoodEvent { mood });
    }
    for bpm in [80, 85, 70] {
        buffer.append_heart_rate(HeartRateEvent { bpm });
    }
    let decision = tick(&mut buffer).expect("a non-empty window yields a decision");
    assert_eq!(decision.mode, DriveModeKind::Normal);
    assert_eq!(decision.reason, "Emotion: happy, Heartbeat: nominal");
    assert!(decision.reason.contains("happy"));
    assert!(decision.reason.contains("nominal"));
    assert_eq!(buffer.mood_events.len(), 0);
    assert_eq!(buffer.heart_rate_events.len(), 0);
}

#[test]
fn empty_window_yields_no_decision_and_empty_buffer() {
    let mut buffer = EventBuffer::new();
    assert!(tick(&mut buffer).is_none());
    assert_eq!(buffer.mood_events.len(), 0);
    assert_eq!(buffer.heart_rate_events.len(), 0);
}

#[test]
fn mood_only_window_reads_heartbeat_unknown() {
    let moods = vec![MoodEvent { mood: Mood::Sad }];
    let decision = process_window(&moods, &Vec::new()).unwrap();
    assert_eq!(decision.mode, DriveModeKind::Restricted);
    assert_eq!(decision.reason, "Emotion: sad, Heartbeat: unknown");
}

#[test]
fn heart_rate_only_window_reads_emotion_unknown() {
    let rates = vec![HeartRateEvent { bpm: 80 }, HeartRateEvent { bpm: 85 }];
    let decision = process_window(&Vec::new(), &rates).unwrap();
    assert_eq!(decision.mode, DriveModeKind::Normal);
    assert_eq!(decision.reason, "Emotion: Unknown, Heartbeat: nominal");
}

#[test]
fn unknown_emotion_with_high_heartbeat_restricts() {
    let rates = vec![
        HeartRateEvent { bpm: 150 },
        HeartRateEvent { bpm: 160 },
        HeartRateEvent { bpm: 170 },
    ];
    let decision = process_window(&Vec::new(), &rates).unwrap();
    assert_eq!(decision.mode, DriveModeKind::Restricted);
    assert_eq!(decision.reason, "Emotion: Unknown, Heartbeat: High");
}

#[test]
fn single_heart_rate_sample_is_nominal_not_unknown() {
    let rates = vec![HeartRateEvent { bpm: 200 }];
    let decision = process_window(&Vec::new(), &rates).unwrap();
    assert_eq!(decision.mode, DriveModeKind::Normal);
    assert_eq!(decision.reason, "Emotion: Unknown, Heartbeat: nominal");
}

#[test]
fn drain_returns_contents_in_arrival_order() {
    let mut buffer = EventBuffer::new();
    buffer.append_heart_rate(HeartRateEvent { bpm: 70 });
    buffer.append_mood(MoodEvent { mood: Mood::Neutral });
    buffer.append_heart_rate(HeartRateEvent { bpm: 75 });
    buffer.append_mood(MoodEvent { mood: Mood::Angry });
    let (moods, rates) = buffer.drain_and_clear();
    assert_eq!(
        moods,
        vec![MoodEvent { mood: Mood::Neutral }, MoodEvent { mood: Mood::Angry }]
    );
    assert_eq!(rates, vec![HeartRateEvent { bpm: 70 }, HeartRateEvent { bpm: 75 }]);
    assert_eq!(buffer.mood_events.len(), 0);
    assert_eq!(buffer.heart_rate_events.len(), 0);
    let (moods2, rates2) = buffer.drain_and_clear();
    assert!(moods2.is_empty());
    assert!(rates2.is_empty());
}

#[test]
fn interleaved_appends_around_a_drain_lose_nothing() {
    // Three producers appending four events each, with one drain after the
    // seventh append: the drained window and the next window together hold
    // exactly the twelve appended events, none lost, none duplicated.
    let producers = 3usize;
    let per_producer = 4usize;
    let mut buffer = EventBuffer::new();
    let mut appended = 0usize;
    let mut drained = Vec::new();
    for round in 0..per_producer {
        for producer in 0..producers {
            let bpm = (60 + 10 * producer + round) as u32;
            buffer.append_heart_rate(HeartRateEvent { bpm });
            appended += 1;
            if appended == 7 {
                let (_, rates) = buffer.drain_and_clear();
                drained = rates;
            }
        }
    }
    assert_eq!(appended, producers * per_producer);
    assert_eq!(drained.len(), 7);
    assert_eq!(buffer.heart_rate_events.len(), 5);
    let mut all: Vec<u32> = drained
        .iter()
        .chain(buffer.heart_rate_events.iter())
        .map(|e| e.bpm)
        .collect();
    all.sort();
    let mut expected: Vec<u32> = (0..per_producer)
        .flat_map(|round| (0..producers).map(move |producer| (60 + 10 * producer + round) as u32))
        .collect();
    expected.sort();
    assert_eq!(all, expected);
}
