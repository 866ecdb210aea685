//! Drive-mode resolution: combines the emotion and heartbeat labels into the
//! final advisory decision through a fixed priority table.

use vstd::prelude::*;

use crate::types::{DriveMode, DriveModeKind, EmotionLabel, HeartbeatLabel};

verus! {

/// The decision table's mode column.
///
/// The emotion signal takes strict priority: a sad window is always
/// `Restricted` and a happy or neutral window always `Normal`, whatever the
/// heartbeat label says. Only when the emotion is unknown does the heartbeat
/// decide, restricting exactly on `High`.
pub open spec fn drive_mode_of(emotion: EmotionLabel, heartbeat: HeartbeatLabel) -> DriveModeKind {
    match emotion {
        EmotionLabel::Sad => DriveModeKind::Restricted,
        EmotionLabel::Happy => DriveModeKind::Normal,
        EmotionLabel::Neutral => DriveModeKind::Normal,
        EmotionLabel::Unknown => match heartbeat {
            HeartbeatLabel::High => DriveModeKind::Restricted,
            _ => DriveModeKind::Normal,
        },
    }
}

/// The decision table's reason column: a fixed text for each of the twelve
/// (emotion, heartbeat) pairs, encoding the pair that produced the decision.
pub open spec fn reason_of(emotion: EmotionLabel, heartbeat: HeartbeatLabel) -> Seq<char> {
    match (emotion, heartbeat) {
        (EmotionLabel::Sad, HeartbeatLabel::High) => "Emotion: sad, Heartbeat: high"@,
        (EmotionLabel::Sad, HeartbeatLabel::Nominal) => "Emotion: sad, Heartbeat: nominal"@,
        (EmotionLabel::Sad, HeartbeatLabel::Unknown) => "Emotion: sad, Heartbeat: unknown"@,
        (EmotionLabel::Happy, HeartbeatLabel::High) => "Emotion: happy, Heartbeat: high"@,
        (EmotionLabel::Happy, HeartbeatLabel::Nominal) => "Emotion: happy, Heartbeat: nominal"@,
        (EmotionLabel::Happy, HeartbeatLabel::Unknown) => "Emotion: happy, Heartbeat: unknown"@,
        (EmotionLabel::Neutral, HeartbeatLabel::High) => "Emotion: neutral, Heartbeat: high"@,
        (EmotionLabel::Neutral, HeartbeatLabel::Nominal) => "Emotion: neutral, Heartbeat: nominal"@,
        (EmotionLabel::Neutral, HeartbeatLabel::Unknown) => "Emotion: neutral, Heartbeat: unknown"@,
        (EmotionLabel::Unknown, HeartbeatLabel::High) => "Emotion: Unknown, Heartbeat: High"@,
        (EmotionLabel::Unknown, HeartbeatLabel::Nominal) => "Emotion: Unknown, Heartbeat: nominal"@,
        (EmotionLabel::Unknown, HeartbeatLabel::Unknown) => "Emotion: Unknown, Heartbeat: unknown"@,
    }
}

/// Combines the two labels into the final decision. Stateless and
/// deterministic: the returned mode and reason are exactly the table's row
/// for the pair, for every one of the twelve label pairs.
pub fn determine_drive_mode(emotion: EmotionLabel, heartbeat: HeartbeatLabel) -> (r: DriveMode)
    ensures
        r.mode == drive_mode_of(emotion, heartbeat),
        r.reason@ == reason_of(emotion, heartbeat),
{
    match (emotion, heartbeat) {
        (EmotionLabel::Sad, HeartbeatLabel::High) => DriveMode {
            mode: DriveModeKind::Restricted,
            reason: "Emotion: sad, Heartbeat: high".to_owned(),
        },
        (EmotionLabel::Sad, HeartbeatLabel::Nominal) => DriveMode {
            mode: DriveModeKind::Restricted,
            reason: "Emotion: sad, Heartbeat: nominal".to_owned(),
        },
        (EmotionLabel::Sad, HeartbeatLabel::Unknown) => DriveMode {
            mode: DriveModeKind::Restricted,
            reason: "Emotion: sad, Heartbeat: unknown".to_owned(),
        },
        (EmotionLabel::Happy, HeartbeatLabel::High) => DriveMode {
            mode: DriveModeKind::Normal,
            reason: "Emotion: happy, Heartbeat: high".to_owned(),
        },
        (EmotionLabel::Happy, HeartbeatLabel::Nominal) => DriveMode {
            mode: DriveModeKind::Normal,
            reason: "Emotion: happy, Heartbeat: nominal".to_owned(),
        },
        (EmotionLabel::Happy, HeartbeatLabel::Unknown) => DriveMode {
            mode: DriveModeKind::Normal,
            reason: "Emotion: happy, Heartbeat: unknown".to_owned(),
        },
        (EmotionLabel::Neutral, HeartbeatLabel::High) => DriveMode {
            mode: DriveModeKind::Normal,
            reason: "Emotion: neutral, Heartbeat: high".to_owned(),
        },
        (EmotionLabel::Neutral, HeartbeatLabel::Nominal) => DriveMode {
            mode: DriveModeKind::Normal,
            reason: "Emotion: neutral, Heartbeat: nominal".to_owned(),
        },
        (EmotionLabel::Neutral, HeartbeatLabel::Unknown) => DriveMode {
            mode: DriveModeKind::Normal,
            reason: "Emotion: neutral, Heartbeat: unknown".to_owned(),
        },
        (EmotionLabel::Unknown, HeartbeatLabel::High) => DriveMode {
            mode: DriveModeKind::Restricted,
            reason: "Emotion: Unknown, Heartbeat: High".to_owned(),
        },
        (EmotionLabel::Unknown, HeartbeatLabel::Nominal) => DriveMode {
            mode: DriveModeKind::Normal,
            reason: "Emotion: Unknown, Heartbeat: nominal".to_owned(),
        },
        (EmotionLabel::Unknown, HeartbeatLabel::Unknown) => DriveMode {
            mode: DriveModeKind::Normal,
            reason: "Emotion: Unknown, Heartbeat: unknown".to_owned(),
        },
    }
}

} // verus!
