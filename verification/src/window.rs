//! The per-window processing step that the periodic scheduler drives.
//!
//! A tick drains the buffer atomically and, unless the window was entirely
//! empty, turns its contents into one decision. The timer itself and the
//! publishing of the decision are the caller's business: analysis here runs
//! on a private snapshot, never inside any lock.

use vstd::prelude::*;

use crate::buffer::EventBuffer;
use crate::drive_mode::{determine_drive_mode, drive_mode_of, reason_of};
use crate::heart_rate::{analyze_heartbeat_patterns, heartbeat_label};
use crate::mood::{analyze_mood_patterns, mood_label};
use crate::types::{DriveMode, HeartRateEvent, HeartbeatLabel, MoodEvent};

verus! {

/// The heartbeat label a window reports: an empty heart-rate batch is
/// `Unknown` — the analyzer, whose two-sample floor would say `Nominal`, is
/// not consulted at all for it.
pub open spec fn window_heartbeat(s: Seq<HeartRateEvent>) -> HeartbeatLabel {
    if s.len() == 0 {
        HeartbeatLabel::Unknown
    } else {
        heartbeat_label(s)
    }
}

/// Turns one window's snapshot into a decision.
///
/// A window with no events at all produces no decision. Otherwise each
/// analyzer reduces its batch (an empty batch reading `Unknown`) and the
/// resolver's table gives the decision.
pub fn process_window(mood_data: &Vec<MoodEvent>, heartbeat_data: &Vec<HeartRateEvent>) -> (r:
    Option<DriveMode>)
    ensures
        r is None <==> (mood_data@.len() == 0 && heartbeat_data@.len() == 0),
        r matches Some(d) ==> d.mode == drive_mode_of(
            mood_label(mood_data@),
            window_heartbeat(heartbeat_data@),
        ) && d.reason@ == reason_of(mood_label(mood_data@), window_heartbeat(heartbeat_data@)),
{
    if mood_data.len() == 0 && heartbeat_data.len() == 0 {
        return None;
    }
    let emotion = analyze_mood_patterns(mood_data);
    let heartbeat = if heartbeat_data.len() == 0 {
        HeartbeatLabel::Unknown
    } else {
        analyze_heartbeat_patterns(heartbeat_data)
    };
    Some(determine_drive_mode(emotion, heartbeat))
}

/// One scheduler tick: drains the buffer atomically and processes the
/// snapshot. The buffer is empty afterwards in every case, an entirely
/// empty window yields no decision, and a non-empty one yields exactly the
/// table's decision for the drained contents.
pub fn tick(buffer: &mut EventBuffer) -> (r: Option<DriveMode>)
    ensures
        final(buffer).mood_events@.len() == 0,
        final(buffer).heart_rate_events@.len() == 0,
        r is None <==> (old(buffer).mood_events@.len() == 0 && old(
            buffer,
        ).heart_rate_events@.len() == 0),
        r matches Some(d) ==> d.mode == drive_mode_of(
            mood_label(old(buffer).mood_events@),
            window_heartbeat(old(buffer).heart_rate_events@),
        ) && d.reason@ == reason_of(
            mood_label(old(buffer).mood_events@),
            window_heartbeat(old(buffer).heart_rate_events@),
        ),
{
    let (moods, rates) = buffer.drain_and_clear();
    process_window(&moods, &rates)
}

} // verus!
