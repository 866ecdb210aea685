//! Event and label types shared by the analyzers and the resolver.

use vstd::prelude::*;

verus! {

/// Categorical mood reported by the inbound mood channel.
#[derive(Clone, Copy, Debug, PartialEq, Eq, Structural)]
pub enum Mood {
    Neutral,
    Happy,
    Sad,
    Angry,
}

/// One inbound mood reading; immutable once created.
#[derive(Clone, Copy, Debug, PartialEq, Eq, Structural)]
pub struct MoodEvent {
    pub mood: Mood,
}

/// One inbound heart-rate reading in beats per minute; immutable once created.
#[derive(Clone, Copy, Debug, PartialEq, Eq, Structural)]
pub struct HeartRateEvent {
    pub bpm: u32,
}

/// Summary of a window's mood events.
#[derive(Clone, Copy, Debug, PartialEq, Eq, Structural)]
pub enum EmotionLabel {
    Sad,
    Happy,
    Neutral,
    Unknown,
}

/// Summary of a window's heart-rate events.
#[derive(Clone, Copy, Debug, PartialEq, Eq, Structural)]
pub enum HeartbeatLabel {
    High,
    Nominal,
    Unknown,
}

/// The advisory mode half of a decision.
#[derive(Clone, Copy, Debug, PartialEq, Eq, Structural)]
pub enum DriveModeKind {
    Normal,
    Restricted,
}

/// A window's decision: the advisory mode and a human-readable reason that
/// encodes the (emotion, heartbeat) pair that produced it.
#[derive(Clone, Debug)]
pub struct DriveMode {
    pub mode: DriveModeKind,
    pub reason: String,
}

/// The mood named by an inbound text value, if it names one.
pub open spec fn mood_of_text(t: Seq<char>) -> Option<Mood> {
    if t == "neutral"@ {
        Some(Mood::Neutral)
    } else if t == "happy"@ {
        Some(Mood::Happy)
    } else if t == "sad"@ {
        Some(Mood::Sad)
    } else if t == "angry"@ {
        Some(Mood::Angry)
    } else {
        None
    }
}

/// Maps the mood channel's text values to [`Mood`]; any other text is
/// rejected so that a malformed reading never enters the window.
pub fn parse_mood(text: &str) -> (r: Option<Mood>)
    ensures
        r == mood_of_text(text@),
{
    let t = text.to_owned();
    if t == "neutral".to_owned() {
        Some(Mood::Neutral)
    } else if t == "happy".to_owned() {
        Some(Mood::Happy)
    } else if t == "sad".to_owned() {
        Some(Mood::Sad)
    } else if t == "angry".to_owned() {
        Some(Mood::Angry)
    } else {
        None
    }
}

/// The text that names a mode on the outbound channel.
pub open spec fn mode_text(m: DriveModeKind) -> Seq<char> {
    match m {
        DriveModeKind::Normal => "normal"@,
        DriveModeKind::Restricted => "restricted"@,
    }
}

impl DriveModeKind {
    /// The outbound text for this mode.
    pub fn label(&self) -> (r: String)
        ensures
            r@ == mode_text(*self),
    {
        match self {
            DriveModeKind::Normal => "normal".to_owned(),
            DriveModeKind::Restricted => "restricted".to_owned(),
        }
    }
}

} // verus!
