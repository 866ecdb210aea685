//! Mood pattern analysis: reduces a window's mood events to one emotion label.

use vstd::prelude::*;

use crate::types::{EmotionLabel, Mood, MoodEvent};

verus! {

/// How many events of `s` carry the mood `m`.
pub open spec fn count_mood(s: Seq<MoodEvent>, m: Mood) -> nat
    decreases s.len(),
{
    if s.len() == 0 {
        0
    } else {
        count_mood(s.drop_last(), m) + if s.last().mood == m {
            1nat
        } else {
            0nat
        }
    }
}

/// The emotion label of a batch of mood events.
///
/// An empty batch carries no information and is labelled `Unknown`.
/// Otherwise three rules are tried in a fixed priority order, ties
/// resolving toward the earlier rule. The rules are comparisons between
/// per-mood percentages of the batch; all four shares have the batch
/// length as their denominator, so comparing the raw counts decides
/// exactly the same inequalities, without any division.
pub open spec fn mood_label(s: Seq<MoodEvent>) -> EmotionLabel {
    if s.len() == 0 {
        EmotionLabel::Unknown
    } else {
        let sad = count_mood(s, Mood::Sad);
        let happy = count_mood(s, Mood::Happy);
        let neutral = count_mood(s, Mood::Neutral);
        let angry = count_mood(s, Mood::Angry);
        if sad + angry >= happy && sad >= neutral {
            EmotionLabel::Sad
        } else if happy >= neutral {
            EmotionLabel::Happy
        } else {
            EmotionLabel::Neutral
        }
    }
}

/// The count of a mood is determined by the multiset of events alone.
proof fn lemma_count_mood_multiset(s: Seq<MoodEvent>, m: Mood)
    ensures
        count_mood(s, m) == s.to_multiset().count(MoodEvent { mood: m }),
    decreases s.len(),
{
    broadcast use vstd::seq_lib::group_to_multiset_ensures;
    broadcast use vstd::multiset::group_multiset_axioms;

    if s.len() == 0 {
        assert(!s.contains(MoodEvent { mood: m }));
    } else {
        lemma_count_mood_multiset(s.drop_last(), m);
        assert(s =~= s.drop_last().push(s.last()));
        assert(s.to_multiset() =~= s.drop_last().to_multiset().insert(s.last()));
    }
}

/// Two batches holding the same multiset of mood events get the same
/// emotion label: only the per-mood shares of the batch matter, not the
/// order in which the events arrived.
pub proof fn lemma_mood_label_order_independent(a: Seq<MoodEvent>, b: Seq<MoodEvent>)
    requires
        a.to_multiset() == b.to_multiset(),
    ensures
        mood_label(a) == mood_label(b),
{
    broadcast use vstd::seq_lib::group_to_multiset_ensures;

    lemma_count_mood_multiset(a, Mood::Sad);
    lemma_count_mood_multiset(a, Mood::Happy);
    lemma_count_mood_multiset(a, Mood::Neutral);
    lemma_count_mood_multiset(a, Mood::Angry);
    lemma_count_mood_multiset(b, Mood::Sad);
    lemma_count_mood_multiset(b, Mood::Happy);
    lemma_count_mood_multiset(b, Mood::Neutral);
    lemma_count_mood_multiset(b, Mood::Angry);
}

/// Reduces a window's mood events to one emotion label.
pub fn analyze_mood_patterns(mood_data: &Vec<MoodEvent>) -> (r: EmotionLabel)
    ensures
        r == mood_label(mood_data@),
{
    if mood_data.len() == 0 {
        return EmotionLabel::Unknown;
    }
    let mut sad: usize = 0;
    let mut happy: usize = 0;
    let mut neutral: usize = 0;
    let mut angry: usize = 0;
    let mut i: usize = 0;
    while i < mood_data.len()
        invariant
            i <= mood_data@.len(),
            sad == count_mood(mood_data@.take(i as int), Mood::Sad),
            happy == count_mood(mood_data@.take(i as int), Mood::Happy),
            neutral == count_mood(mood_data@.take(i as int), Mood::Neutral),
            angry == count_mood(mood_data@.take(i as int), Mood::Angry),
            sad + happy + neutral + angry == i,
        decreases mood_data@.len() - i,
    {
        proof {
            assert(mood_data@.take(i + 1).drop_last() =~= mood_data@.take(i as int));
            assert(mood_data@.take(i + 1).last() == mood_data@[i as int]);
        }
        match mood_data[i].mood {
            Mood::Sad => {
                sad = sad + 1;
            },
            Mood::Happy => {
                happy = happy + 1;
            },
            Mood::Neutral => {
                neutral = neutral + 1;
            },
            Mood::Angry => {
                angry = angry + 1;
            },
        }
        i = i + 1;
    }
    proof {
        assert(mood_data@.take(i as int) =~= mood_data@);
    }
    if sad + angry >= happy && sad >= neutral {
        EmotionLabel::Sad
    } else if happy >= neutral {
        EmotionLabel::Happy
    } else {
        EmotionLabel::Neutral
    }
}

} // verus!
