//! Quadrature decoding of a rotary encoder.
//!
//! The two phase lines of the encoder walk through a four-step Gray code,
//! one step per quarter of a detent. The decoder follows that walk, throws
//! away anything that is not a single step, and reports a direction each time
//! the walk arrives at one of the two rest positions.

use vstd::prelude::*;

verus! {

/// Position of the encoder inside its four-step cycle.
///
/// `Zero` and `OneEighty` are the rest positions; `Ninety` and `SevenTwenty`
/// are the quarter positions between them.
#[derive(Clone, Copy, Debug, PartialEq, Eq, Structural)]
pub enum EncoderState {
    Zero,
    Ninety,
    OneEighty,
    SevenTwenty,
}

/// What a reading of the decoder amounts to.
#[derive(Clone, Copy, Debug, PartialEq, Eq, Structural)]
pub enum EncoderDirection {
    Clockwise,
    AntiClockwise,
    Bounce,
}

/// The decoder: the position the phase lines are at now, and the position
/// that the caller last committed.
#[derive(Debug, PartialEq, Eq, Structural)]
pub struct MetaEncoderState {
    pub current: EncoderState,
    pub last: EncoderState,
}

/// The position in the cycle, counted in quarter steps, that a pair of phase
/// levels names: `(low, low)` is 0, `(high, low)` is 1, `(high, high)` is 2
/// and `(low, high)` is 3.
pub open spec fn phase_quarter(clk: bool, dt: bool) -> int {
    if clk {
        if dt { 2 } else { 1 }
    } else {
        if dt { 3 } else { 0 }
    }
}

impl EncoderState {
    /// The position counted in quarter steps from `Zero`, anticlockwise.
    pub open spec fn quarter(self) -> int {
        match self {
            EncoderState::Zero => 0,
            EncoderState::Ninety => 1,
            EncoderState::OneEighty => 2,
            EncoderState::SevenTwenty => 3,
        }
    }

    /// The position that lies `q` quarter steps from `Zero`, for `q` in `0..4`.
    pub open spec fn at_quarter(q: int) -> EncoderState {
        if q == 0 {
            EncoderState::Zero
        } else if q == 1 {
            EncoderState::Ninety
        } else if q == 2 {
            EncoderState::OneEighty
        } else {
            EncoderState::SevenTwenty
        }
    }

    /// Whether this is one of the two positions at which a detent rests.
    pub open spec fn is_rest(self) -> bool {
        self is Zero || self is OneEighty
    }

    /// Whether `other` is exactly one quarter step anticlockwise of `self`.
    pub open spec fn steps_anticlockwise_to(self, other: EncoderState) -> bool {
        other.quarter() == (self.quarter() + 1) % 4
    }

    /// Whether `other` is exactly one quarter step clockwise of `self`.
    pub open spec fn steps_clockwise_to(self, other: EncoderState) -> bool {
        other.quarter() == (self.quarter() + 3) % 4
    }

    /// Whether the phase pair is a legal change at this position: it names a
    /// position exactly one quarter step away.
    pub open spec fn accepts(self, clk: bool, dt: bool) -> bool {
        let target = EncoderState::at_quarter(phase_quarter(clk, dt));
        self.steps_anticlockwise_to(target) || self.steps_clockwise_to(target)
    }

    /// The rest position.
    pub fn new() -> (state: EncoderState)
        ensures
            state == EncoderState::Zero,
    {
        EncoderState::Zero
    }
}

impl Default for EncoderState {
    fn default() -> (state: EncoderState)
        ensures
            state == EncoderState::Zero,
    {
        EncoderState::new()
    }
}

impl MetaEncoderState {
    /// The decoder at rest with nothing to report.
    pub open spec fn initial() -> MetaEncoderState {
        MetaEncoderState { current: EncoderState::Zero, last: EncoderState::Zero }
    }

    /// The decoder after a sample of the two phase lines.
    ///
    /// A legal change moves `current` to the position the pair names and
    /// leaves `last` alone. Anything else, a repeated pair included, puts the
    /// whole decoder back to its initial state.
    pub open spec fn stepped(self, clk: bool, dt: bool) -> MetaEncoderState {
        if self.current.accepts(clk, dt) {
            MetaEncoderState {
                current: EncoderState::at_quarter(phase_quarter(clk, dt)),
                last: self.last,
            }
        } else {
            MetaEncoderState::initial()
        }
    }

    /// What the decoder reports: the sense of the step from `last` to
    /// `current` when that step arrived at a rest position, and `Bounce` in
    /// every other case.
    pub open spec fn direction(self) -> EncoderDirection {
        if self.current.is_rest() && self.last.steps_anticlockwise_to(self.current) {
            EncoderDirection::AntiClockwise
        } else if self.current.is_rest() && self.last.steps_clockwise_to(self.current) {
            EncoderDirection::Clockwise
        } else {
            EncoderDirection::Bounce
        }
    }

    /// The decoder after the caller has consumed a reading.
    pub open spec fn committed(self) -> MetaEncoderState {
        MetaEncoderState { current: self.current, last: self.current }
    }

    pub fn new() -> (state: MetaEncoderState)
        ensures
            state == MetaEncoderState::initial(),
    {
        MetaEncoderState { current: EncoderState::new(), last: EncoderState::new() }
    }

    /// Commits `current` into `last`. The caller does this after it has read
    /// a direction, so that one detent is never counted twice.
    pub fn update_last(&mut self)
        ensures
            *final(self) == old(self).committed(),
    {
        self.last = self.current
    }

    /// Feeds one sample of the phase lines to the decoder.
    pub fn next(&mut self, clk: bool, dt: bool)
        ensures
            *final(self) == old(self).stepped(clk, dt),
    {
        match self.current {
            EncoderState::Zero => {
                if clk && !dt {
                    self.current = EncoderState::Ninety
                } else if !clk && dt {
                    self.current = EncoderState::SevenTwenty
                } else {
                    self.current = EncoderState::Zero;
                    self.last = EncoderState::Zero;
                }
            },
            EncoderState::Ninety => {
                if clk && dt {
                    self.current = EncoderState::OneEighty
                } else if !clk && !dt {
                    self.current = EncoderState::Zero
                } else {
                    self.current = EncoderState::Zero;
                    self.last = EncoderState::Zero;
                }
            },
            EncoderState::OneEighty => {
                if !clk && dt {
                    self.current = EncoderState::SevenTwenty
                } else if clk && !dt {
                    self.current = EncoderState::Ninety
                } else {
                    self.current = EncoderState::Zero;
                    self.last = EncoderState::Zero;
                }
            },
            EncoderState::SevenTwenty => {
                if !clk && !dt {
                    self.current = EncoderState::Zero
                } else if clk && dt {
                    self.current = EncoderState::OneEighty
                } else {
                    self.current = EncoderState::Zero;
                    self.last = EncoderState::Zero;
                }
            },
        }
    }

    /// Reads the direction without changing the decoder.
    pub fn get_direction(&mut self) -> (direction: EncoderDirection)
        ensures
            direction == old(self).direction(),
            *final(self) == *old(self),
    {
        match self.current {
            EncoderState::Zero => match self.last {
                EncoderState::Ninety => EncoderDirection::Clockwise,
                EncoderState::SevenTwenty => EncoderDirection::AntiClockwise,
                _ => EncoderDirection::Bounce,
            },
            EncoderState::OneEighty => match self.last {
                EncoderState::Ninety => EncoderDirection::AntiClockwise,
                EncoderState::SevenTwenty => EncoderDirection::Clockwise,
                _ => EncoderDirection::Bounce,
            },
            _ => EncoderDirection::Bounce,
        }
    }
}

impl Default for MetaEncoderState {
    fn default() -> (state: MetaEncoderState)
        ensures
            state == MetaEncoderState::initial(),
    {
        MetaEncoderState::new()
    }
}

/// The decoder after a caller has run the first `n` of `samples` through it,
/// reading a direction and committing after each one.
pub open spec fn state_after(
    start: MetaEncoderState,
    samples: Seq<(bool, bool)>,
    n: nat,
) -> MetaEncoderState
    decreases n,
{
    if n == 0 {
        start
    } else {
        let sample = samples[n - 1];
        state_after(start, samples, (n - 1) as nat).stepped(sample.0, sample.1).committed()
    }
}

/// The direction that the caller reads right after sample number `i`.
pub open spec fn reading_at(
    start: MetaEncoderState,
    samples: Seq<(bool, bool)>,
    i: nat,
) -> EncoderDirection {
    let sample = samples[i as int];
    state_after(start, samples, i).stepped(sample.0, sample.1).direction()
}

/// Whether each of the first `n` samples is a legal change at the position
/// the decoder has reached when the sample arrives.
pub open spec fn all_legal(start: MetaEncoderState, samples: Seq<(bool, bool)>, n: nat) -> bool
    decreases n,
{
    n == 0 || {
        let sample = samples[n - 1];
        &&& all_legal(start, samples, (n - 1) as nat)
        &&& state_after(start, samples, (n - 1) as nat).current.accepts(sample.0, sample.1)
    }
}

/// Whether sample number `i` moves the decoder one quarter step anticlockwise.
pub open spec fn turns_anticlockwise(
    start: MetaEncoderState,
    samples: Seq<(bool, bool)>,
    i: nat,
) -> bool {
    state_after(start, samples, i).current.steps_anticlockwise_to(
        state_after(start, samples, i + 1).current,
    )
}

/// How many of the first `n` readings are a direction rather than `Bounce`.
pub open spec fn directions_among(
    start: MetaEncoderState,
    samples: Seq<(bool, bool)>,
    n: nat,
) -> nat
    decreases n,
{
    if n == 0 {
        0
    } else {
        let earlier = directions_among(start, samples, (n - 1) as nat);
        if reading_at(start, samples, (n - 1) as nat) == EncoderDirection::Bounce {
            earlier
        } else {
            earlier + 1
        }
    }
}

/// A run of legal changes that starts at a rest position is at a rest
/// position again after every even number of changes, and only then.
pub proof fn lemma_legal_run_alternates(
    start: MetaEncoderState,
    samples: Seq<(bool, bool)>,
    n: nat,
)
    requires
        start.current.is_rest(),
        n <= samples.len(),
        all_legal(start, samples, n),
    ensures
        state_after(start, samples, n).current.is_rest() <==> n % 2 == 0,
        n > 0 ==> state_after(start, samples, n).last == state_after(start, samples, n).current,
    decreases n,
{
    if n > 0 {
        lemma_legal_run_alternates(start, samples, (n - 1) as nat);
    }
}

/// In a run of legal changes that starts at a rest position, arriving at a
/// quarter position reads as `Bounce`, and arriving at a rest position reads
/// as the sense of the change that arrived there: never `Bounce`, and never
/// the opposite sense.
pub proof fn lemma_legal_run_readings(
    start: MetaEncoderState,
    samples: Seq<(bool, bool)>,
    i: nat,
)
    requires
        start.current.is_rest(),
        i < samples.len(),
        all_legal(start, samples, i + 1),
    ensures
        i % 2 == 0 ==> reading_at(start, samples, i) == EncoderDirection::Bounce,
        i % 2 == 1 ==> reading_at(start, samples, i) == (if turns_anticlockwise(
            start,
            samples,
            i,
        ) {
            EncoderDirection::AntiClockwise
        } else {
            EncoderDirection::Clockwise
        }),
{
    lemma_legal_run_alternates(start, samples, i);
}

/// Every detent, two legal changes from rest to rest, yields exactly one
/// direction: the first `n` readings of a legal run hold `n / 2` directions.
pub proof fn lemma_one_direction_per_detent(
    start: MetaEncoderState,
    samples: Seq<(bool, bool)>,
    n: nat,
)
    requires
        start.current.is_rest(),
        n <= samples.len(),
        all_legal(start, samples, n),
    ensures
        directions_among(start, samples, n) == n / 2,
    decreases n,
{
    if n > 0 {
        lemma_one_direction_per_detent(start, samples, (n - 1) as nat);
        lemma_legal_run_readings(start, samples, (n - 1) as nat);
    }
}

/// A full turn, four legal changes in one sense from a rest position, comes
/// back to where it started, reads `Bounce` at both quarter positions and
/// reads the same direction at both rest positions: the sense of the turn,
/// and never the other one.
pub proof fn lemma_full_turn_reads_one_direction(
    start: MetaEncoderState,
    samples: Seq<(bool, bool)>,
)
    requires
        start.current.is_rest(),
        samples.len() == 4,
        all_legal(start, samples, 4),
        turns_anticlockwise(start, samples, 0) == turns_anticlockwise(start, samples, 1),
        turns_anticlockwise(start, samples, 1) == turns_anticlockwise(start, samples, 2),
        turns_anticlockwise(start, samples, 2) == turns_anticlockwise(start, samples, 3),
    ensures
        state_after(start, samples, 4).current == start.current,
        reading_at(start, samples, 0) == EncoderDirection::Bounce,
        reading_at(start, samples, 2) == EncoderDirection::Bounce,
        reading_at(start, samples, 1) == reading_at(start, samples, 3),
        reading_at(start, samples, 1) == (if turns_anticlockwise(start, samples, 0) {
            EncoderDirection::AntiClockwise
        } else {
            EncoderDirection::Clockwise
        }),
{
    reveal_with_fuel(state_after, 5);
    reveal_with_fuel(all_legal, 5);
    lemma_legal_run_readings(start, samples, 0);
    lemma_legal_run_readings(start, samples, 1);
    lemma_legal_run_readings(start, samples, 2);
    lemma_legal_run_readings(start, samples, 3);
}

/// A phase pair that is not a legal change puts the decoder back to its
/// initial state, whatever state it was in, and reads as `Bounce`.
pub proof fn lemma_illegal_pair_resets(state: MetaEncoderState, clk: bool, dt: bool)
    requires
        !state.current.accepts(clk, dt),
    ensures
        state.stepped(clk, dt) == MetaEncoderState::initial(),
        state.stepped(clk, dt).direction() == EncoderDirection::Bounce,
{
}

/// Feeding the same phase pair twice never reads as a direction, whether or
/// not the caller committed in between.
pub proof fn lemma_repeated_pair_is_bounce(state: MetaEncoderState, clk: bool, dt: bool)
    ensures
        state.stepped(clk, dt).stepped(clk, dt).direction() == EncoderDirection::Bounce,
        state.stepped(clk, dt).committed().stepped(clk, dt).direction()
            == EncoderDirection::Bounce,
{
}

} // verus!
