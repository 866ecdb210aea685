use adas_drive_mode::mood::analyze_mood_patterns;
use adas_drive_mode::types::{EmotionLabel, Mood, MoodEvent, parse_mood};

fn events(moods: &[Mood]) -> Vec<MoodEvent> {
    moods.iter().map(|&mood| MoodEvent { mood }).collect()
}

#[test]
fn empty_batch_is_unknown() {
    assert_eq!(analyze_mood_patterns(&Vec::new()), EmotionLabel::Unknown);
}

#[test]
fn happy_majority_is_happy() {
    let v = events(&[Mood::Happy, Mood::Happy, Mood::Sad]);
    assert_eq!(analyze_mood_patterns(&v), EmotionLabel::Happy);
}

#[test]
fn all_sad_is_sad() {
    let v = events(&[Mood::Sad, Mood::Sad]);
    assert_eq!(analyze_mood_patterns(&v), EmotionLabel::Sad);
}

#[test]
fn sad_happy_tie_resolves_sad() {
    let v = events(&[Mood::Sad, Mood::Happy]);
    assert_eq!(analyze_mood_patterns(&v), EmotionLabel::Sad);
}

#[test]
fn neutral_majority_over_happy_is_neutral() {
    let v = events(&[Mood::Neutral, Mood::Neutral, Mood::Happy]);
    assert_eq!(analyze_mood_patterns(&v), EmotionLabel::Neutral);
}

#[test]
fn lone_angry_counts_toward_sad() {
    let v = events(&[Mood::Angry]);
    assert_eq!(analyze_mood_patterns(&v), EmotionLabel::Sad);
}

#[test]
fn happy_neutral_tie_resolves_happy() {
    let v = events(&[Mood::Happy, Mood::Neutral]);
    assert_eq!(analyze_mood_patterns(&v), EmotionLabel::Happy);
}

#[test]
fn label_is_order_independent() {
    let a = events(&[Mood::Happy, Mood::Sad, Mood::Happy]);
    let b = events(&[Mood::Sad, Mood::Happy, Mood::Happy]);
    let c = events(&[Mood::Happy, Mood::Happy, Mood::Sad]);
    let la = analyze_mood_patterns(&a);
    assert_eq!(la, analyze_mood_patterns(&b));
    assert_eq!(la, analyze_mood_patterns(&c));
}

#[test]
fn parse_mood_accepts_the_four_channel_values() {
    assert_eq!(parse_mood("neutral"), Some(Mood::Neutral));
    assert_eq!(parse_mood("happy"), Some(Mood::Happy));
    assert_eq!(parse_mood("sad"), Some(Mood::Sad));
    assert_eq!(parse_mood("angry"), Some(Mood::Angry));
}

#[test]
fn parse_mood_rejects_other_text() {
    assert_eq!(parse_mood(""), None);
    assert_eq!(parse_mood("HAPPY"), None);
    assert_eq!(parse_mood("joyful"), None);
    assert_eq!(parse_mood("sad "), None);
}
