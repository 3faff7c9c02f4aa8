//! The counting state machine: one machine, parameterized by a successor
//! strategy and a tie-break policy. The plain machine instantiates it with
//! [`SimpleSuccessor`], the pattern-aware machine with a [`Pattern`].

use crate::pattern::{Count, Pattern, SimpleSuccessor, Successor};
use vstd::prelude::*;

verus! {

/// Tie-break policy: which expectation is carried into desynchronization.
/// `Square` advances the expectation as if the original pattern continued;
/// `Jagged` freezes it at its last known value until resynchronization.
/// The policy acts only at the transition into desynchronization.
#[derive(Clone, Copy, Debug, PartialEq, Eq, Structural)]
pub enum PatternType {
    Square,
    Jagged,
}

/// The machine's instantaneous state.
#[derive(Clone, Copy, Debug, PartialEq, Eq, Structural)]
pub enum CountState {
    /// No count seen yet.
    Uninitialized,
    /// In sync; the payload is the value that must appear next.
    Counting(Count),
    /// Desynchronized; the payloads are the value the original pattern
    /// still predicts, and the last observed out-of-pattern value.
    Unexpected(Count, Count),
}

/// How one observed count was classified by a machine step.
#[derive(Clone, Copy, Debug, PartialEq, Eq, Structural)]
pub enum Outcome {
    /// The first observation; trivially in sync.
    Started,
    /// The observation matched the expected value.
    InSync,
    /// The first mismatch: the machine desynchronized on this observation.
    Desynced,
    /// Sync was regained by matching the original pattern's expectation.
    ResyncExpected,
    /// Sync was regained by matching the continuation of the last
    /// observed out-of-pattern value.
    ResyncActual,
    /// Desynchronization persisted with a new mismatch.
    StillDesynced,
}

/// The state after one machine step under successor strategy `s` and
/// tie-break policy `pt`: the first observation is trivially expected;
/// while counting, a match advances the expectation and a mismatch
/// desynchronizes, keeping the expectation `pt` selects; while
/// desynchronized, matching the kept expectation or the continuation of
/// the last observed value resynchronizes, and anything else stays
/// desynchronized with the expectation advanced past the new observation.
pub open spec fn step_state_spec<S: Successor>(
    s: S,
    pt: PatternType,
    st: CountState,
    observed: Count,
) -> CountState {
    match st {
        CountState::Uninitialized => CountState::Counting(s.succ_spec(observed)),
        CountState::Counting(expected) => {
            if observed == expected {
                CountState::Counting(s.succ_spec(expected))
            } else {
                let kept = match pt {
                    PatternType::Square => s.succ_spec(expected),
                    PatternType::Jagged => expected,
                };
                CountState::Unexpected(kept, observed)
            }
        },
        CountState::Unexpected(expected, actual) => {
            if observed == expected {
                CountState::Counting(s.succ_spec(expected))
            } else if observed == s.succ_spec(actual) {
                CountState::Counting(s.succ_spec(actual))
            } else {
                CountState::Unexpected(s.succ_spec(observed), observed)
            }
        },
    }
}

/// The classification of one observed count, under successor strategy `s`.
/// It does not depend on the tie-break policy.
pub open spec fn step_outcome_spec<S: Successor>(s: S, st: CountState, observed: Count) -> Outcome {
    match st {
        CountState::Uninitialized => Outcome::Started,
        CountState::Counting(expected) => {
            if observed == expected {
                Outcome::InSync
            } else {
                Outcome::Desynced
            }
        },
        CountState::Unexpected(expected, actual) => {
            if observed == expected {
                Outcome::ResyncExpected
            } else if observed == s.succ_spec(actual) {
                Outcome::ResyncActual
            } else {
                Outcome::StillDesynced
            }
        },
    }
}

impl CountState {
    /// One step of the unified machine: consume `observed` under successor
    /// strategy `s` and tie-break policy `pt`, returning the next state
    /// and the classification of the observation.
    pub fn step<S: Successor>(&self, s: &S, pt: PatternType, observed: Count) -> (r: (
        CountState,
        Outcome,
    ))
        requires
            s.valid(),
        ensures
            r.0 == step_state_spec(*s, pt, *self, observed),
            r.1 == step_outcome_spec(*s, *self, observed),
    {
        match *self {
            CountState::Uninitialized => (CountState::Counting(s.succ(observed)), Outcome::Started),
            CountState::Counting(expected) => {
                if observed == expected {
                    (CountState::Counting(s.succ(expected)), Outcome::InSync)
                } else {
                    let kept = match pt {
                        PatternType::Square => s.succ(expected),
                        PatternType::Jagged => expected,
                    };
                    (CountState::Unexpected(kept, observed), Outcome::Desynced)
                }
            },
            CountState::Unexpected(expected, actual) => {
                if observed == expected {
                    (CountState::Counting(s.succ(expected)), Outcome::ResyncExpected)
                } else {
                    let actual_next = s.succ(actual);
                    if observed == actual_next {
                        (CountState::Counting(actual_next), Outcome::ResyncActual)
                    } else {
                        (CountState::Unexpected(s.succ(observed), observed), Outcome::StillDesynced)
                    }
                }
            },
        }
    }

    /// The plain counting machine: the unified machine instantiated with
    /// the implicit `+ 1` successor, the expectation always advanced by it
    /// (no tie-break). The classification is discarded; the new state is
    /// the sole result.
    pub fn process(&self, count: Count) -> (r: CountState)
        ensures
            r == step_state_spec(SimpleSuccessor, PatternType::Square, *self, count),
    {
        let (next, _outcome) = self.step(&SimpleSuccessor, PatternType::Square, count);
        next
    }
}

/// The pattern-aware machine: a pattern, a tie-break policy, the current
/// state, and three counters that never decrease over a validation run.
#[derive(Clone, Debug, PartialEq, Eq)]
pub struct PatternState {
    /// The counting pattern that defines the expected successor.
    pub pattern: Pattern,
    /// The machine's current state.
    pub state: CountState,
    /// Which expectation survives at the moment of desynchronization.
    pub pattern_type: PatternType,
    /// Times sync was regained by matching the original pattern.
    pub resync_expected: usize,
    /// Times sync was regained by matching the continuation of the
    /// observed-but-unexpected sequence.
    pub resync_actual: usize,
    /// Times desynchronization persisted with a new mismatch.
    pub unexpected_counts: usize,
}

impl PatternState {
    /// A machine is well formed when its pattern is.
    pub open spec fn wf(self) -> bool {
        self.pattern.wf()
    }

    /// The whole effect of feeding one observed count: the state steps
    /// under the machine's own pattern and policy, and exactly the counter
    /// matching the step's classification grows by one.
    pub open spec fn count_spec(self, observed: Count) -> PatternState {
        let next = step_state_spec(self.pattern, self.pattern_type, self.state, observed);
        let outcome = step_outcome_spec(self.pattern, self.state, observed);
        PatternState {
            state: next,
            resync_expected: if outcome is ResyncExpected {
                (self.resync_expected + 1) as usize
            } else {
                self.resync_expected
            },
            resync_actual: if outcome is ResyncActual {
                (self.resync_actual + 1) as usize
            } else {
                self.resync_actual
            },
            unexpected_counts: if outcome is StillDesynced {
                (self.unexpected_counts + 1) as usize
            } else {
                self.unexpected_counts
            },
            ..self
        }
    }

    /// A fresh machine for one validation run: counting from `start` when
    /// a starting count is given, otherwise uninitialized, with all
    /// counters at zero.
    pub fn make_pattern_state(
        pattern: Pattern,
        pattern_type: PatternType,
        start: Option<Count>,
    ) -> (r: PatternState)
        ensures
            r.pattern == pattern,
            r.pattern_type == pattern_type,
            r.state == (match start {
                Some(starting_count) => CountState::Counting(starting_count),
                None => CountState::Uninitialized,
            }),
            r.resync_expected == 0,
            r.resync_actual == 0,
            r.unexpected_counts == 0,
    {
        let counting_state = match start {
            Some(starting_count) => CountState::Counting(starting_count),
            None => CountState::Uninitialized,
        };
        PatternState {
            pattern,
            state: counting_state,
            pattern_type,
            resync_expected: 0,
            resync_actual: 0,
            unexpected_counts: 0,
        }
    }

    /// Feed one observed count into the machine, in row order. The new
    /// value is exactly [`PatternState::count_spec`] of the old one. The
    /// counter bounds only keep the bookkeeping within the machine word.
    pub fn count(&mut self, count: Count)
        requires
            old(self).wf(),
            old(self).resync_expected < usize::MAX,
            old(self).resync_actual < usize::MAX,
            old(self).unexpected_counts < usize::MAX,
        ensures
            *final(self) == old(self).count_spec(count),
    {
        let (next, outcome) = self.state.step(&self.pattern, self.pattern_type, count);
        self.state = next;
        match outcome {
            Outcome::ResyncExpected => {
                self.resync_expected = self.resync_expected + 1;
            },
            Outcome::ResyncActual => {
                self.resync_actual = self.resync_actual + 1;
            },
            Outcome::StillDesynced => {
                self.unexpected_counts = self.unexpected_counts + 1;
            },
            _ => {},
        }
    }
}

} // verus!
