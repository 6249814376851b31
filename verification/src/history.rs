//! Bounded per-metric sample history with trend classification.
//!
//! A history keeps the most recent samples of one metric, oldest first, for a
//! sparkline whose width may change between pushes. Samples are thousandths
//! of the metric's unit.

use vstd::prelude::*;

verus! {

/// Width of the trend band on either side of the previous value: one whole
/// unit of the metric.
pub const TREND_BAND: i64 = 1000;

/// Number of samples kept while the display width is not known.
pub const FALLBACK_CAPACITY: usize = 120;

/// Direction of a metric relative to its previous value.
#[derive(Clone, Copy, Debug, PartialEq, Eq, Structural)]
pub enum Trend {
    Up,
    Down,
    Stable,
}

/// The trend of `value` against the previous value `last`: a move of more than
/// one unit up or down counts, anything inside the band is stable, and a
/// previous value of zero means there is nothing to compare with.
pub open spec fn classify(last: int, value: int) -> Trend {
    if last == 0 {
        Trend::Stable
    } else if value > last + 1000 {
        Trend::Up
    } else if value + 1000 < last {
        Trend::Down
    } else {
        Trend::Stable
    }
}

/// The newest `capacity` entries of `samples`, or all of them if there are
/// fewer.
pub open spec fn retained(samples: Seq<i64>, capacity: nat) -> Seq<i64> {
    if samples.len() <= capacity {
        samples
    } else {
        samples.subrange(samples.len() - capacity, samples.len() as int)
    }
}

/// What a history holds after `value` is pushed with room for `capacity`.
pub open spec fn pushed(samples: Seq<i64>, value: i64, capacity: nat) -> Seq<i64> {
    retained(samples.push(value), capacity)
}

/// The smaller of two readings.
pub open spec fn lesser(a: i64, b: i64) -> i64 {
    if a <= b {
        a
    } else {
        b
    }
}

/// The number of samples that fit a chart `width` pixels wide, one sample per
/// pixel; an unknown width (zero or negative) gets the fallback.
pub open spec fn capacity_of_width(width: i32) -> nat {
    if width > 0 {
        width as nat
    } else {
        FALLBACK_CAPACITY as nat
    }
}

/// Computes `capacity_of_width`; the result is never zero.
pub fn capacity_for_width(width: i32) -> (capacity: usize)
    ensures
        capacity == capacity_of_width(width),
        capacity >= 1,
{
    if width > 0 {
        width as usize
    } else {
        FALLBACK_CAPACITY
    }
}

/// Computes `classify` without overflow.
pub fn classify_trend(last: i64, value: i64) -> (trend: Trend)
    ensures
        trend == classify(last as int, value as int),
{
    let wide_last: i128 = last as i128;
    let wide_value: i128 = value as i128;
    if last == 0 {
        Trend::Stable
    } else if wide_value > wide_last + (TREND_BAND as i128) {
        Trend::Up
    } else if wide_value + (TREND_BAND as i128) < wide_last {
        Trend::Down
    } else {
        Trend::Stable
    }
}

/// The values of a run of pushes, in push order.
pub open spec fn pushed_values(pushes: Seq<(i64, nat)>) -> Seq<i64> {
    pushes.map_values(|p: (i64, nat)| p.0)
}

/// What an initially empty history holds after a run of pushes, each given as
/// its value and the capacity in force for it.
pub open spec fn replay(pushes: Seq<(i64, nat)>) -> Seq<i64>
    decreases pushes.len(),
{
    if pushes.len() == 0 {
        Seq::empty()
    } else {
        pushed(replay(pushes.drop_last()), pushes.last().0, pushes.last().1)
    }
}

/// The smaller of two counts.
pub open spec fn fewer(a: int, b: int) -> int {
    if a <= b {
        a
    } else {
        b
    }
}

/// One more push extends a replay by one step.
pub proof fn lemma_replay_step(pushes: Seq<(i64, nat)>, value: i64, capacity: nat)
    ensures
        replay(pushes.push((value, capacity))) == pushed(replay(pushes), value, capacity),
{
    assert(pushes.push((value, capacity)).drop_last() == pushes);
}

/// After any run of pushes, with capacities that may change from push to
/// push, the history holds no more than the latest capacity, and what it
/// holds is an unbroken run of the newest pushed values in push order.
pub proof fn lemma_replay_is_newest_run(pushes: Seq<(i64, nat)>)
    ensures
        replay(pushes).len() <= pushes.len(),
        pushes.len() > 0 ==> replay(pushes).len() <= pushes.last().1,
        replay(pushes) == pushed_values(pushes).subrange(
            pushes.len() - replay(pushes).len(),
            pushes.len() as int,
        ),
    decreases pushes.len(),
{
    if pushes.len() > 0 {
        let before = pushes.drop_last();
        lemma_replay_is_newest_run(before);
        assert(pushed_values(before) == pushed_values(pushes).drop_last());
    }
}

/// A replay keeps at least `floor` samples when no push along the way had a
/// capacity too small for the `floor` newest values to survive it.
pub proof fn lemma_replay_keeps_at_least(pushes: Seq<(i64, nat)>, floor: int)
    requires
        floor <= pushes.len(),
        forall|k: int|
            0 <= k < pushes.len() ==> (#[trigger] pushes[k]).1 + (pushes.len() - 1 - k) >= floor,
    ensures
        replay(pushes).len() >= floor,
    decreases pushes.len(),
{
    if pushes.len() > 0 && floor > 0 {
        let before = pushes.drop_last();
        assert forall|k: int| 0 <= k < before.len() implies (#[trigger] before[k]).1 + (before.len()
            - 1 - k) >= floor - 1 by {
            assert(before[k] == pushes[k]);
        }
        lemma_replay_keeps_at_least(before, floor - 1);
        assert(pushes[pushes.len() - 1].1 >= floor);
    }
}

/// Whether no push of the run had a capacity so small that it evicted one of
/// the values that the latest capacity has room for.
pub open spec fn never_cut_short(pushes: Seq<(i64, nat)>) -> bool {
    forall|k: int|
        0 <= k < pushes.len() ==> (#[trigger] pushes[k]).1 + (pushes.len() - 1 - k) >= fewer(
            pushes.len() as int,
            pushes.last().1 as int,
        )
}

/// A replay keeps no more samples than the capacity of any one push of the
/// run left, plus the pushes that came after it.
pub proof fn lemma_replay_keeps_at_most(pushes: Seq<(i64, nat)>, k: int)
    requires
        0 <= k < pushes.len(),
    ensures
        replay(pushes).len() <= pushes[k].1 + (pushes.len() - 1 - k),
    decreases pushes.len(),
{
    if k < pushes.len() - 1 {
        lemma_replay_keeps_at_most(pushes.drop_last(), k);
    }
}

/// After a run of pushes the history holds exactly the newest values, as many
/// as the latest capacity allows, in push order, if and only if no earlier
/// push had a capacity so small that it evicted one of them.
pub proof fn lemma_replay_keeps_most_recent(pushes: Seq<(i64, nat)>)
    requires
        pushes.len() > 0,
    ensures
        replay(pushes) == retained(pushed_values(pushes), pushes.last().1) <==> never_cut_short(
            pushes,
        ),
{
    lemma_replay_is_newest_run(pushes);
    let room = fewer(pushes.len() as int, pushes.last().1 as int);
    assert(retained(pushed_values(pushes), pushes.last().1).len() == room);
    if never_cut_short(pushes) {
        lemma_replay_keeps_at_least(pushes, room);
        assert(replay(pushes) =~= retained(pushed_values(pushes), pushes.last().1));
    } else {
        let k = choose|k: int|
            0 <= k < pushes.len() && (#[trigger] pushes[k]).1 + (pushes.len() - 1 - k) < fewer(
                pushes.len() as int,
                pushes.last().1 as int,
            );
        lemma_replay_keeps_at_most(pushes, k);
    }
}

/// With one capacity throughout, the history holds exactly the newest
/// `capacity` pushed values in push order, or all of them while there are
/// fewer.
pub proof fn lemma_constant_capacity_keeps_most_recent(pushes: Seq<(i64, nat)>, capacity: nat)
    requires
        forall|k: int| 0 <= k < pushes.len() ==> (#[trigger] pushes[k]).1 == capacity,
    ensures
        replay(pushes) == retained(pushed_values(pushes), capacity),
{
    if pushes.len() > 0 {
        lemma_replay_keeps_most_recent(pushes);
    }
}

/// The abstract state of a `HistoryBuffer`.
pub struct HistoryView {
    /// Retained samples, oldest first.
    pub samples: Seq<i64>,
    /// The capacity given with the latest push.
    pub capacity: nat,
    /// The raw value seen by the latest trend classification.
    pub last_value: i64,
}

/// The sample series and trend state of one metric.
#[derive(Debug)]
pub struct HistoryBuffer {
    samples: Vec<i64>,
    capacity: usize,
    last_value: i64,
}

impl View for HistoryBuffer {
    type V = HistoryView;

    closed spec fn view(&self) -> HistoryView {
        HistoryView {
            samples: self.samples@,
            capacity: self.capacity as nat,
            last_value: self.last_value,
        }
    }
}

impl HistoryBuffer {
    #[verifier::type_invariant]
    spec fn within_capacity(&self) -> bool {
        self.samples@.len() <= self.capacity
    }

    /// An empty history with no previous value.
    pub fn new() -> (history: HistoryBuffer)
        ensures
            history@.samples == Seq::<i64>::empty(),
            history@.capacity == FALLBACK_CAPACITY,
            history@.last_value == 0,
    {
        HistoryBuffer { samples: Vec::new(), capacity: FALLBACK_CAPACITY, last_value: 0 }
    }

    /// Appends `value` and evicts from the front, oldest first, until at most
    /// `capacity` samples remain.
    pub fn push(&mut self, value: i64, capacity: usize)
        ensures
            final(self)@.samples == pushed(old(self)@.samples, value, capacity as nat),
            final(self)@.samples.len() <= capacity,
            final(self)@.capacity == capacity,
            final(self)@.last_value == old(self)@.last_value,
    {
        let mut samples: Vec<i64> = Vec::new();
        std::mem::swap(&mut samples, &mut self.samples);
        samples.push(value);
        let ghost full = samples@;
        while samples.len() > capacity
            invariant
                samples@.len() <= full.len(),
                samples@.len() >= capacity || samples@.len() == full.len(),
                samples@ == full.subrange(full.len() - samples@.len(), full.len() as int),
            decreases samples@.len(),
        {
            samples.remove(0);
        }
        *self = HistoryBuffer { samples, capacity, last_value: self.last_value };
    }

    /// Classifies `new_value` against the value of the previous call and
    /// remembers it for the next one.
    pub fn trend(&mut self, new_value: i64) -> (trend: Trend)
        ensures
            trend == classify(old(self)@.last_value as int, new_value as int),
            final(self)@.last_value == new_value,
            final(self)@.samples == old(self)@.samples,
            final(self)@.capacity == old(self)@.capacity,
    {
        proof {
            use_type_invariant(&*self);
        }
        let trend = classify_trend(self.last_value, new_value);
        self.last_value = new_value;
        trend
    }

    /// Takes in one new reading of the metric: classifies the raw value, then
    /// records it in the series, clamped to the top of the scale.
    pub fn update(&mut self, numeric: i64, scale_max: i64, capacity: usize) -> (trend: Trend)
        ensures
            trend == classify(old(self)@.last_value as int, numeric as int),
            final(self)@.last_value == numeric,
            final(self)@.samples == pushed(
                old(self)@.samples,
                lesser(numeric, scale_max),
                capacity as nat,
            ),
            final(self)@.samples.len() <= capacity,
            final(self)@.capacity == capacity,
    {
        let trend = self.trend(numeric);
        let clamped = if numeric <= scale_max {
            numeric
        } else {
            scale_max
        };
        self.push(clamped, capacity);
        trend
    }

    /// The retained samples, oldest first.
    pub fn samples(&self) -> (samples: &Vec<i64>)
        ensures
            samples@ == self@.samples,
            samples@.len() <= self@.capacity,
    {
        proof {
            use_type_invariant(self);
        }
        &self.samples
    }

    /// The number of retained samples.
    pub fn len(&self) -> (len: usize)
        ensures
            len == self@.samples.len(),
            len <= self@.capacity,
    {
        proof {
            use_type_invariant(self);
        }
        self.samples.len()
    }

    /// The capacity given with the latest push.
    pub fn capacity(&self) -> (capacity: usize)
        ensures
            capacity == self@.capacity,
    {
        self.capacity
    }

    /// The raw value seen by the latest trend classification.
    pub fn last_value(&self) -> (value: i64)
        ensures
            value == self@.last_value,
    {
        self.last_value
    }
}

} // verus!
