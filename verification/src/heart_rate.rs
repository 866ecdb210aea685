//! Heart-rate pattern analysis: reduces a window's heart-rate events to one
//! heartbeat label, including first-versus-last trend detection.

use vstd::prelude::*;

use crate::types::{HeartRateEvent, HeartbeatLabel};

verus! {

/// A reading above this many beats per minute counts as elevated.
pub const ELEVATED_BPM: u32 = 100;

/// Direction of the batch, judged by its last sample against its first
/// (not a regression over the whole series).
#[derive(Clone, Copy, Debug, PartialEq, Eq, Structural)]
pub enum Trend {
    Rising,
    Falling,
    Stable,
}

/// The trend of a batch with at least one sample.
pub open spec fn trend_of(s: Seq<HeartRateEvent>) -> Trend
    recommends
        s.len() >= 1,
{
    if s.last().bpm > s[0].bpm {
        Trend::Rising
    } else if s.last().bpm < s[0].bpm {
        Trend::Falling
    } else {
        Trend::Stable
    }
}

/// How many samples of `s` are elevated (strictly above [`ELEVATED_BPM`]).
pub open spec fn elevated_count(s: Seq<HeartRateEvent>) -> nat
    decreases s.len(),
{
    if s.len() == 0 {
        0
    } else {
        elevated_count(s.drop_last()) + if s.last().bpm > ELEVATED_BPM {
            1nat
        } else {
            0nat
        }
    }
}

/// More than half of the samples are elevated. This is a strict majority:
/// an elevated share of exactly one half does not qualify.
pub open spec fn majority_elevated(s: Seq<HeartRateEvent>) -> bool {
    2 * elevated_count(s) > s.len()
}

/// The heartbeat label of a batch of heart-rate events.
///
/// Fewer than two samples cannot show a trend, and by policy such a batch is
/// `Nominal`, not `Unknown`. A falling trend is always `Nominal`; a rising or
/// stable trend is `High` exactly when a strict majority of the samples is
/// elevated.
pub open spec fn heartbeat_label(s: Seq<HeartRateEvent>) -> HeartbeatLabel {
    if s.len() < 2 {
        HeartbeatLabel::Nominal
    } else {
        match trend_of(s) {
            Trend::Falling => HeartbeatLabel::Nominal,
            _ => if majority_elevated(s) {
                HeartbeatLabel::High
            } else {
                HeartbeatLabel::Nominal
            },
        }
    }
}

/// A batch of fewer than two samples is always labelled `Nominal`: too
/// little data for trend analysis is not treated as an anomaly.
pub proof fn lemma_insufficient_samples_nominal(s: Seq<HeartRateEvent>)
    requires
        s.len() < 2,
    ensures
        heartbeat_label(s) == HeartbeatLabel::Nominal,
{
}

/// The smallest reading of a non-empty batch.
pub open spec fn min_bpm(s: Seq<HeartRateEvent>) -> u32
    recommends
        s.len() > 0,
    decreases s.len(),
{
    if s.len() <= 1 {
        s[0].bpm
    } else {
        let rest = min_bpm(s.drop_last());
        if s.last().bpm < rest {
            s.last().bpm
        } else {
            rest
        }
    }
}

/// The largest reading of a non-empty batch.
pub open spec fn max_bpm(s: Seq<HeartRateEvent>) -> u32
    recommends
        s.len() > 0,
    decreases s.len(),
{
    if s.len() <= 1 {
        s[0].bpm
    } else {
        let rest = max_bpm(s.drop_last());
        if s.last().bpm > rest {
            s.last().bpm
        } else {
            rest
        }
    }
}

/// Descriptive range of a batch: its minimum and maximum reading, or
/// nothing for an empty batch. Purely informational — the classification
/// never looks at it.
pub fn heart_rate_stats(heartbeat_data: &Vec<HeartRateEvent>) -> (r: Option<(u32, u32)>)
    ensures
        r is Some <==> heartbeat_data@.len() > 0,
        r matches Some(range) ==> range.0 == min_bpm(heartbeat_data@) && range.1 == max_bpm(
            heartbeat_data@,
        ),
{
    if heartbeat_data.len() == 0 {
        return None;
    }
    let mut lo = heartbeat_data[0].bpm;
    let mut hi = heartbeat_data[0].bpm;
    let mut i: usize = 1;
    while i < heartbeat_data.len()
        invariant
            1 <= i <= heartbeat_data@.len(),
            lo == min_bpm(heartbeat_data@.take(i as int)),
            hi == max_bpm(heartbeat_data@.take(i as int)),
        decreases heartbeat_data@.len() - i,
    {
        proof {
            assert(heartbeat_data@.take(i + 1).drop_last() =~= heartbeat_data@.take(i as int));
            assert(heartbeat_data@.take(i + 1).last() == heartbeat_data@[i as int]);
        }
        let bpm = heartbeat_data[i].bpm;
        if bpm < lo {
            lo = bpm;
        }
        if bpm > hi {
            hi = bpm;
        }
        i = i + 1;
    }
    proof {
        assert(heartbeat_data@.take(i as int) =~= heartbeat_data@);
    }
    Some((lo, hi))
}

/// Reduces a window's heart-rate events to one heartbeat label.
pub fn analyze_heartbeat_patterns(heartbeat_data: &Vec<HeartRateEvent>) -> (r: HeartbeatLabel)
    ensures
        r == heartbeat_label(heartbeat_data@),
{
    let n = heartbeat_data.len();
    if n < 2 {
        return HeartbeatLabel::Nominal;
    }
    let first = heartbeat_data[0].bpm;
    let last = heartbeat_data[n - 1].bpm;
    if last < first {
        // Falling trend: always nominal, whatever the elevated share.
        return HeartbeatLabel::Nominal;
    }
    let mut elevated: usize = 0;
    let mut i: usize = 0;
    while i < n
        invariant
            i <= n,
            n == heartbeat_data@.len(),
            elevated == elevated_count(heartbeat_data@.take(i as int)),
            elevated <= i,
        decreases n - i,
    {
        proof {
            assert(heartbeat_data@.take(i + 1).drop_last() =~= heartbeat_data@.take(i as int));
            assert(heartbeat_data@.take(i + 1).last() == heartbeat_data@[i as int]);
        }
        if heartbeat_data[i].bpm > ELEVATED_BPM {
            elevated = elevated + 1;
        }
        i = i + 1;
    }
    proof {
        assert(heartbeat_data@.take(i as int) =~= heartbeat_data@);
    }
    // `elevated > n - elevated` states the strict majority without the
    // doubling, which could overflow a usize.
    if elevated > n - elevated {
        HeartbeatLabel::High
    } else {
        HeartbeatLabel::Nominal
    }
}

} // verus!
