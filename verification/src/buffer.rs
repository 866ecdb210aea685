//! The window's event accumulator.
//!
//! An [`EventBuffer`] holds the current window's events in arrival order.
//! Appends go through a caller-supplied mutual-exclusion wrapper when several
//! producers share one buffer; the contracts here state what each operation
//! does to the contents, and [`lemma_drain_conserves_events`] states that any
//! stream of appends split around one atomic drain loses and duplicates
//! nothing.

use vstd::prelude::*;

use crate::types::{HeartRateEvent, MoodEvent};

verus! {

/// Accumulates one window's events in arrival order.
pub struct EventBuffer {
    pub mood_events: Vec<MoodEvent>,
    pub heart_rate_events: Vec<HeartRateEvent>,
}

impl EventBuffer {
    /// An empty buffer: the state at startup and right after every drain.
    pub fn new() -> (r: EventBuffer)
        ensures
            r.mood_events@ == Seq::<MoodEvent>::empty(),
            r.heart_rate_events@ == Seq::<HeartRateEvent>::empty(),
    {
        EventBuffer { mood_events: Vec::new(), heart_rate_events: Vec::new() }
    }

    /// Appends one mood event: the event lands at the end of the mood
    /// sequence and nothing else changes.
    pub fn append_mood(&mut self, event: MoodEvent)
        ensures
            final(self).mood_events@ == old(self).mood_events@.push(event),
            final(self).heart_rate_events@ == old(self).heart_rate_events@,
    {
        self.mood_events.push(event);
    }

    /// Appends one heart-rate event: the event lands at the end of the
    /// heart-rate sequence and nothing else changes.
    pub fn append_heart_rate(&mut self, event: HeartRateEvent)
        ensures
            final(self).heart_rate_events@ == old(self).heart_rate_events@.push(event),
            final(self).mood_events@ == old(self).mood_events@,
    {
        self.heart_rate_events.push(event);
    }

    /// Snapshots and clears the buffer as one step: returns exactly the
    /// current contents, in arrival order, and leaves the buffer empty.
    /// The two swaps move the vectors without touching their elements, so
    /// the critical section around this call stays O(1).
    pub fn drain_and_clear(&mut self) -> (r: (Vec<MoodEvent>, Vec<HeartRateEvent>))
        ensures
            r.0@ == old(self).mood_events@,
            r.1@ == old(self).heart_rate_events@,
            final(self).mood_events@ == Seq::<MoodEvent>::empty(),
            final(self).heart_rate_events@ == Seq::<HeartRateEvent>::empty(),
    {
        let mut moods: Vec<MoodEvent> = Vec::new();
        let mut rates: Vec<HeartRateEvent> = Vec::new();
        core::mem::swap(&mut moods, &mut self.mood_events);
        core::mem::swap(&mut rates, &mut self.heart_rate_events);
        (moods, rates)
    }
}

/// One append, as seen by the buffer. A run of concurrent producers is
/// modelled by the sequence of their appends in the order the buffer served
/// them; quantifying over all such sequences covers every interleaving.
#[derive(Clone, Copy, Debug, PartialEq, Eq, Structural)]
pub enum BufferOp {
    AppendMood(MoodEvent),
    AppendHeartRate(HeartRateEvent),
}

/// The mood events that a stream of appends contributes, in order.
pub open spec fn moods_of(ops: Seq<BufferOp>) -> Seq<MoodEvent>
    decreases ops.len(),
{
    if ops.len() == 0 {
        Seq::empty()
    } else {
        moods_of(ops.drop_last()) + match ops.last() {
            BufferOp::AppendMood(e) => seq![e],
            BufferOp::AppendHeartRate(_) => Seq::empty(),
        }
    }
}

/// The heart-rate events that a stream of appends contributes, in order.
pub open spec fn heart_rates_of(ops: Seq<BufferOp>) -> Seq<HeartRateEvent>
    decreases ops.len(),
{
    if ops.len() == 0 {
        Seq::empty()
    } else {
        heart_rates_of(ops.drop_last()) + match ops.last() {
            BufferOp::AppendMood(_) => Seq::empty(),
            BufferOp::AppendHeartRate(e) => seq![e],
        }
    }
}

/// The mood contents after a stream of appends runs on a buffer holding `m`:
/// exactly `m` followed by the stream's mood events.
pub open spec fn moods_after(m: Seq<MoodEvent>, ops: Seq<BufferOp>) -> Seq<MoodEvent> {
    m + moods_of(ops)
}

/// The heart-rate contents after a stream of appends runs on a buffer
/// holding `h`.
pub open spec fn heart_rates_after(h: Seq<HeartRateEvent>, ops: Seq<BufferOp>) -> Seq<
    HeartRateEvent,
> {
    h + heart_rates_of(ops)
}

/// Contributions distribute over splitting the append stream.
proof fn lemma_events_of_concat(a: Seq<BufferOp>, b: Seq<BufferOp>)
    ensures
        moods_of(a + b) == moods_of(a) + moods_of(b),
        heart_rates_of(a + b) == heart_rates_of(a) + heart_rates_of(b),
    decreases b.len(),
{
    if b.len() == 0 {
        assert(a + b =~= a);
        assert(moods_of(a) + moods_of(b) =~= moods_of(a));
        assert(heart_rates_of(a) + heart_rates_of(b) =~= heart_rates_of(a));
    } else {
        lemma_events_of_concat(a, b.drop_last());
        assert((a + b).drop_last() =~= a + b.drop_last());
        assert((a + b).last() == b.last());
        match b.last() {
            BufferOp::AppendMood(e) => {
                assert(moods_of(a + b) =~= moods_of(a) + moods_of(b));
                assert(heart_rates_of(a + b) =~= heart_rates_of(a) + heart_rates_of(b));
            },
            BufferOp::AppendHeartRate(e) => {
                assert(moods_of(a + b) =~= moods_of(a) + moods_of(b));
                assert(heart_rates_of(a + b) =~= heart_rates_of(a) + heart_rates_of(b));
            },
        }
    }
}

/// No loss and no duplication across one atomic drain: however a stream of
/// appends is split around the drain, the drained window (the appends served
/// before it, on an initially empty buffer) and the buffer left afterwards
/// (the appends served after it) together hold exactly the whole stream's
/// events — in particular, exactly as many as were appended.
pub proof fn lemma_drain_conserves_events(before: Seq<BufferOp>, after: Seq<BufferOp>)
    ensures
        moods_after(Seq::empty(), before) + moods_after(Seq::empty(), after) == moods_of(
            before + after,
        ),
        heart_rates_after(Seq::empty(), before) + heart_rates_after(Seq::empty(), after)
            == heart_rates_of(before + after),
        moods_after(Seq::empty(), before).len() + moods_after(Seq::empty(), after).len()
            == moods_of(before + after).len(),
        heart_rates_after(Seq::empty(), before).len() + heart_rates_after(
            Seq::empty(),
            after,
        ).len() == heart_rates_of(before + after).len(),
{
    lemma_events_of_concat(before, after);
    assert(moods_after(Seq::empty(), before) + moods_after(Seq::empty(), after) =~= moods_of(
        before,
    ) + moods_of(after));
    assert(heart_rates_after(Seq::empty(), before) + heart_rates_after(Seq::empty(), after)
        =~= heart_rates_of(before) + heart_rates_of(after));
}

} // verus!
