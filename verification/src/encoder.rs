//! Quadrature decoding and the push-button.
//!
//! The decoder keeps the last two accepted level pairs of the two quadrature
//! lines. A sample that repeats the last accepted pair is a re-read and
//! changes nothing. A sample that completes one of the two three-pair
//! signatures is a tick and moves the counter by one; any other change of
//! levels is taken into the history without a tick.

use vstd::prelude::*;

verus! {

/// The levels of the two quadrature lines, read together.
#[derive(Clone, Copy, Debug, PartialEq, Eq, Structural)]
pub struct LinePair {
    pub s1: bool,
    pub s2: bool,
}

/// The direction of one detent of rotation.
#[derive(Clone, Copy, Debug, PartialEq, Eq, Structural)]
pub enum Direction {
    Clockwise,
    Anticlockwise,
}

/// The last accepted pair (`ps1`, `ps2`) and the one accepted before it
/// (`pps1`, `pps2`).
#[derive(Clone, Copy, Debug, PartialEq, Eq, Structural)]
pub struct History {
    pub ps1: bool,
    pub ps2: bool,
    pub pps1: bool,
    pub pps2: bool,
}

/// The counter and the sample history of one encoder.
#[derive(Clone, Copy, Debug, PartialEq, Eq, Structural)]
pub struct EncoderState {
    pub counter: i32,
    pub history: History,
}

/// Both lines high: the level of an encoder at rest.
pub open spec fn idle_pair() -> LinePair {
    LinePair { s1: true, s2: true }
}

/// Both lines low: the middle of every detent.
pub open spec fn low_pair() -> LinePair {
    LinePair { s1: false, s2: false }
}

/// The pair that opens a clockwise detent and closes an anticlockwise one.
pub open spec fn s1_high_pair() -> LinePair {
    LinePair { s1: true, s2: false }
}

/// The pair that closes a clockwise detent and opens an anticlockwise one.
pub open spec fn s2_high_pair() -> LinePair {
    LinePair { s1: false, s2: true }
}

/// The counter one step up, wrapping from the largest value to the smallest.
pub open spec fn counter_up(counter: i32) -> i32 {
    if counter == i32::MAX {
        i32::MIN
    } else {
        (counter + 1) as i32
    }
}

/// The counter one step down, wrapping from the smallest value to the largest.
pub open spec fn counter_down(counter: i32) -> i32 {
    if counter == i32::MIN {
        i32::MAX
    } else {
        (counter - 1) as i32
    }
}

/// The counter after a sample that was classified as `tick`.
pub open spec fn counter_after(counter: i32, tick: Option<Direction>) -> i32 {
    match tick {
        Some(Direction::Clockwise) => counter_up(counter),
        Some(Direction::Anticlockwise) => counter_down(counter),
        None => counter,
    }
}

impl History {
    /// The last accepted pair.
    pub open spec fn last(self) -> LinePair {
        LinePair { s1: self.ps1, s2: self.ps2 }
    }

    /// The pair accepted before the last one.
    pub open spec fn before_last(self) -> LinePair {
        LinePair { s1: self.pps1, s2: self.pps2 }
    }

    /// The history of an encoder that has not moved yet.
    pub open spec fn at_rest() -> History {
        History { ps1: true, ps2: true, pps1: true, pps2: true }
    }

    /// Whether two successive accepted pairs differ, as they do in every
    /// history but the one at rest.
    pub open spec fn debounced(self) -> bool {
        self.last() != self.before_last() || self == History::at_rest()
    }

    /// What `sample` completes: a clockwise detent, an anticlockwise one, or
    /// nothing.
    pub open spec fn classify(self, sample: LinePair) -> Option<Direction> {
        if sample == s2_high_pair() && self.last() == low_pair() && self.before_last()
            == s1_high_pair() {
            Some(Direction::Clockwise)
        } else if sample == s1_high_pair() && self.last() == low_pair() && self.before_last()
            == s2_high_pair() {
            Some(Direction::Anticlockwise)
        } else {
            None
        }
    }

    /// The history after `sample`: shifted by one pair where the sample
    /// differs from the last accepted pair, unchanged where it repeats it.
    pub open spec fn accept(self, sample: LinePair) -> History {
        if sample == self.last() {
            self
        } else {
            History { ps1: sample.s1, ps2: sample.s2, pps1: self.ps1, pps2: self.ps2 }
        }
    }

    /// The history of an encoder that has not moved yet: both lines high,
    /// twice.
    pub fn new() -> (h: History)
        ensures
            h == History::at_rest(),
    {
        History { ps1: true, ps2: true, pps1: true, pps2: true }
    }

    /// Classifies a sample against this history.
    pub fn detect(&self, s1: bool, s2: bool) -> (tick: Option<Direction>)
        ensures
            tick == self.classify(LinePair { s1, s2 }),
    {
        let after_low: bool = !self.ps1 && !self.ps2;
        if !s1 && s2 && after_low && self.pps1 && !self.pps2 {
            Some(Direction::Clockwise)
        } else if s1 && !s2 && after_low && !self.pps1 && self.pps2 {
            Some(Direction::Anticlockwise)
        } else {
            None
        }
    }

    /// Takes a sample into the history, unless it repeats the last accepted
    /// pair.
    pub fn record(&mut self, s1: bool, s2: bool)
        ensures
            *final(self) == old(self).accept(LinePair { s1, s2 }),
    {
        if s1 != self.ps1 || s2 != self.ps2 {
            self.pps1 = self.ps1;
            self.pps2 = self.ps2;
            self.ps1 = s1;
            self.ps2 = s2;
        }
    }
}

impl EncoderState {
    /// The state after one sample: the counter moved by the tick that the
    /// sample completes, and the sample taken into the history.
    pub open spec fn after_sample(self, sample: LinePair) -> EncoderState {
        EncoderState {
            counter: counter_after(self.counter, self.history.classify(sample)),
            history: self.history.accept(sample),
        }
    }

    /// The state after a run of samples, taken first to last.
    pub open spec fn after_samples(self, samples: Seq<LinePair>) -> EncoderState
        decreases samples.len(),
    {
        if samples.len() == 0 {
            self
        } else {
            self.after_samples(samples.drop_last()).after_sample(samples.last())
        }
    }

    /// The state after a press of the button: the counter at zero, the history
    /// untouched.
    pub open spec fn after_press(self) -> EncoderState {
        EncoderState { counter: 0, history: self.history }
    }

    /// An encoder at rest with its counter at zero.
    pub fn new() -> (state: EncoderState)
        ensures
            state.counter == 0,
            state.history == History::at_rest(),
    {
        EncoderState { counter: 0, history: History::new() }
    }

    /// The position counter.
    pub fn counter(&self) -> (c: i32)
        ensures
            c == self.counter,
    {
        self.counter
    }

    /// Handles one read of the two quadrature lines.
    ///
    /// Returns the direction of the detent that the sample completes, if it
    /// completes one; the counter has then moved by one, wrapping at the ends
    /// of its range. The history is shifted exactly when the sample differs
    /// from the last accepted pair.
    pub fn sample(&mut self, s1: bool, s2: bool) -> (tick: Option<Direction>)
        ensures
            tick == old(self).history.classify(LinePair { s1, s2 }),
            *final(self) == old(self).after_sample(LinePair { s1, s2 }),
    {
        let tick = self.history.detect(s1, s2);
        match tick {
            Some(Direction::Clockwise) => {
                self.counter = self.counter.wrapping_add(1);
            },
            Some(Direction::Anticlockwise) => {
                self.counter = self.counter.wrapping_sub(1);
            },
            None => {},
        }
        self.history.record(s1, s2);
        tick
    }

    /// Handles a falling edge of the button line: the counter goes to zero,
    /// whatever it was.
    pub fn press(&mut self)
        ensures
            *final(self) == old(self).after_press(),
            final(self).counter == 0,
            final(self).history == old(self).history,
    {
        self.counter = 0;
    }
}

/// The three samples of a clockwise detent, in order.
pub open spec fn clockwise_detent() -> Seq<LinePair> {
    seq![s1_high_pair(), low_pair(), s2_high_pair()]
}

/// The three samples of an anticlockwise detent, in order.
pub open spec fn anticlockwise_detent() -> Seq<LinePair> {
    seq![s2_high_pair(), low_pair(), s1_high_pair()]
}

/// Whether no sample of a run, taken from `state`, completes a detent.
pub open spec fn all_noise(state: EncoderState, samples: Seq<LinePair>) -> bool {
    forall|i: int|
        0 <= i < samples.len() ==> (#[trigger] state.after_samples(
            samples.take(i),
        )).history.classify(samples[i]) is None
}

/// A run of one sample is that sample.
pub proof fn lemma_single_sample(state: EncoderState, sample: LinePair)
    ensures
        state.after_samples(seq![sample]) == state.after_sample(sample),
{
    let run = seq![sample];
    assert(run.drop_last() =~= Seq::<LinePair>::empty());
    assert(state.after_samples(run.drop_last()) == state);
}

/// A run of three samples is the three samples one after another.
pub proof fn lemma_three_samples(state: EncoderState, a: LinePair, b: LinePair, c: LinePair)
    ensures
        state.after_samples(seq![a, b, c]) == state.after_sample(a).after_sample(b).after_sample(
            c,
        ),
{
    let run = seq![a, b, c];
    assert(run.drop_last() =~= seq![a, b]);
    assert(seq![a, b].drop_last() =~= seq![a]);
    lemma_single_sample(state, a);
    assert(state.after_samples(seq![a, b]) == state.after_sample(a).after_sample(b));
}

/// A clockwise detent moves the counter up by exactly one.
///
/// From any state, after the pairs (high, low), (low, low), (low, high), the
/// counter is one above what it was after the first of the three: the third
/// sample is a clockwise tick and the second is none. The first sample leaves
/// the counter alone unless it closes an anticlockwise detent that the history
/// already held; then the two ticks cancel.
pub proof fn lemma_clockwise_detent_counts_up(state: EncoderState)
    ensures
        state.after_samples(clockwise_detent()).counter == counter_up(
            state.after_sample(s1_high_pair()).counter,
        ),
        state.history.classify(s1_high_pair()) is None ==> state.after_samples(
            clockwise_detent(),
        ).counter == counter_up(state.counter),
        state.counter < i32::MAX && state.history.classify(s1_high_pair()) is None
            ==> state.after_samples(clockwise_detent()).counter == state.counter + 1,
        state.after_samples(clockwise_detent()).history == (History {
            ps1: false,
            ps2: true,
            pps1: false,
            pps2: false,
        }),
{
    lemma_three_samples(state, s1_high_pair(), low_pair(), s2_high_pair());
}

/// An anticlockwise detent moves the counter down by exactly one.
///
/// From any state, after the pairs (low, high), (low, low), (high, low), the
/// counter is one below what it was after the first of the three. The first
/// sample leaves the counter alone unless it closes a clockwise detent that
/// the history already held.
pub proof fn lemma_anticlockwise_detent_counts_down(state: EncoderState)
    ensures
        state.after_samples(anticlockwise_detent()).counter == counter_down(
            state.after_sample(s2_high_pair()).counter,
        ),
        state.history.classify(s2_high_pair()) is None ==> state.after_samples(
            anticlockwise_detent(),
        ).counter == counter_down(state.counter),
        state.counter > i32::MIN && state.history.classify(s2_high_pair()) is None
            ==> state.after_samples(anticlockwise_detent()).counter == state.counter - 1,
        state.after_samples(anticlockwise_detent()).history == (History {
            ps1: true,
            ps2: false,
            pps1: false,
            pps2: false,
        }),
{
    lemma_three_samples(state, s2_high_pair(), low_pair(), s1_high_pair());
}

/// A tick is the last step of its signature: whenever a sample is classified,
/// the two accepted pairs before it are the first two pairs of that detent.
pub proof fn lemma_tick_needs_full_signature(history: History, sample: LinePair)
    ensures
        history.classify(sample) == Some(Direction::Clockwise) <==> seq![
            history.before_last(),
            history.last(),
            sample,
        ] == clockwise_detent(),
        history.classify(sample) == Some(Direction::Anticlockwise) <==> seq![
            history.before_last(),
            history.last(),
            sample,
        ] == anticlockwise_detent(),
{
    let seen = seq![history.before_last(), history.last(), sample];
    assert(seen[0] == history.before_last() && seen[1] == history.last() && seen[2] == sample);
    let cw = clockwise_detent();
    assert(cw[0] == s1_high_pair() && cw[1] == low_pair() && cw[2] == s2_high_pair());
    let acw = anticlockwise_detent();
    assert(acw[0] == s2_high_pair() && acw[1] == low_pair() && acw[2] == s1_high_pair());
    if history.classify(sample) == Some(Direction::Clockwise) {
        assert(seen =~= cw);
    }
    if history.classify(sample) == Some(Direction::Anticlockwise) {
        assert(seen =~= acw);
    }
}

/// A sample that repeats the last accepted pair changes nothing: the history
/// does not shift and the counter stays.
pub proof fn lemma_reread_changes_nothing(state: EncoderState, sample: LinePair)
    requires
        sample == state.history.last(),
    ensures
        state.after_sample(sample) == state,
{
}

/// Reading the same levels again is idempotent: after the first read, every
/// further read of the same pair leaves the state as it is.
pub proof fn lemma_sample_idempotent(state: EncoderState, sample: LinePair)
    ensures
        state.after_sample(sample).history.last() == sample,
        state.after_sample(sample).after_sample(sample) == state.after_sample(sample),
{
}

/// Any number of reads of one pair of levels does what the first read does;
/// where the pair is the last accepted one, they do nothing at all.
pub proof fn lemma_repeated_reads(state: EncoderState, sample: LinePair, count: nat)
    ensures
        count >= 1 ==> state.after_samples(Seq::new(count, |i: int| sample)) == state.after_sample(
            sample,
        ),
        sample == state.history.last() ==> state.after_samples(Seq::new(count, |i: int| sample))
            == state,
    decreases count,
{
    let run = Seq::new(count, |i: int| sample);
    if count >= 1 {
        let shorter = Seq::new((count - 1) as nat, |i: int| sample);
        assert(run.drop_last() =~= shorter);
        assert(run.last() == sample);
        lemma_repeated_reads(state, sample, (count - 1) as nat);
        lemma_sample_idempotent(state, sample);
    }
}

/// Noise never moves the counter: over a run of samples none of which
/// completes a detent, the counter ends where it began.
pub proof fn lemma_noise_keeps_counter(state: EncoderState, samples: Seq<LinePair>)
    requires
        all_noise(state, samples),
    ensures
        state.after_samples(samples).counter == state.counter,
    decreases samples.len(),
{
    if samples.len() > 0 {
        let shorter = samples.drop_last();
        assert forall|i: int| 0 <= i < shorter.len() implies (#[trigger] state.after_samples(
            shorter.take(i),
        )).history.classify(shorter[i]) is None by {
            assert(shorter.take(i) =~= samples.take(i));
            assert(shorter[i] == samples[i]);
        }
        lemma_noise_keeps_counter(state, shorter);
        let last = samples.len() - 1;
        assert(samples.take(last) =~= shorter);
        assert(state.after_samples(samples.take(last)).history.classify(samples[last]) is None);
    }
}

/// The integer `v` brought into the range of the counter by wrapping.
pub open spec fn wrapped(v: int) -> i32 {
    ((v + 0x8000_0000) % 0x1_0000_0000 - 0x8000_0000) as i32
}

/// What one classified sample adds to the count: one for a clockwise tick,
/// minus one for an anticlockwise tick, nothing for noise.
pub open spec fn tick_value(tick: Option<Direction>) -> int {
    match tick {
        Some(Direction::Clockwise) => 1,
        Some(Direction::Anticlockwise) => -1,
        None => 0,
    }
}

/// The clockwise ticks less the anticlockwise ticks of a run of samples taken
/// from `state`.
pub open spec fn net_ticks(state: EncoderState, samples: Seq<LinePair>) -> int
    decreases samples.len(),
{
    if samples.len() == 0 {
        0
    } else {
        net_ticks(state, samples.drop_last()) + tick_value(
            state.after_samples(samples.drop_last()).history.classify(samples.last()),
        )
    }
}

/// The counter counts ticks and nothing else: after any run of samples it
/// stands at its old value plus the clockwise ticks less the anticlockwise
/// ticks of the run, wrapped into its range.
pub proof fn lemma_counter_counts_ticks(state: EncoderState, samples: Seq<LinePair>)
    ensures
        state.after_samples(samples).counter == wrapped(state.counter + net_ticks(state, samples)),
    decreases samples.len(),
{
    if samples.len() > 0 {
        lemma_counter_counts_ticks(state, samples.drop_last());
    }
}

/// Sampling keeps successive accepted pairs distinct.
pub proof fn lemma_sample_keeps_debounced(state: EncoderState, sample: LinePair)
    requires
        state.history.debounced(),
    ensures
        state.after_sample(sample).history.debounced(),
{
}

/// The button resets the counter from any value and is idempotent.
pub proof fn lemma_press_resets(state: EncoderState)
    ensures
        state.after_press().counter == 0,
        state.after_press().after_press() == state.after_press(),
{
}

} // verus!
