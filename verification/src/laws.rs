//! Laws of the counting machine, stated over whole observation streams and
//! over single transitions.

use crate::machine::{CountState, PatternState, PatternType};
use crate::pattern::{Count, Pattern};
use vstd::prelude::*;

verus! {

/// The machine after feeding the counts of `s` in order, one
/// [`PatternState::count`] call each.
pub open spec fn run_spec(ps: PatternState, s: Seq<Count>) -> PatternState
    decreases s.len(),
{
    if s.len() == 0 {
        ps
    } else {
        run_spec(ps.count_spec(s[0]), s.drop_first())
    }
}

/// Feeding one more count after a run is one more step of the run.
pub proof fn lemma_run_snoc(ps: PatternState, s: Seq<Count>, v: Count)
    ensures
        run_spec(ps, s.push(v)) == run_spec(ps, s).count_spec(v),
    decreases s.len(),
{
    if s.len() == 0 {
        assert(s.push(v)[0] == v);
        assert(s.push(v).drop_first() =~= Seq::<Count>::empty());
        assert(run_spec(ps, s.push(v)) == run_spec(
            ps.count_spec(v),
            Seq::<Count>::empty(),
        ));
        assert(run_spec(ps.count_spec(v), Seq::<Count>::empty()) == ps.count_spec(v));
        assert(run_spec(ps, s) == ps);
    } else {
        assert(s.push(v)[0] == s[0]);
        assert(s.push(v).drop_first() =~= s.drop_first().push(v));
        assert(run_spec(ps, s.push(v)) == run_spec(
            ps.count_spec(s[0]),
            s.drop_first().push(v),
        ));
        lemma_run_snoc(ps.count_spec(s[0]), s.drop_first(), v);
        assert(run_spec(ps, s) == run_spec(ps.count_spec(s[0]), s.drop_first()));
    }
}

/// A stream follows the pattern when every element past the first is the
/// pattern's successor of its predecessor.
pub open spec fn follows_pattern(p: Pattern, s: Seq<Count>) -> bool {
    forall|i: int| 1 <= i < s.len() ==> #[trigger] s[i] == p.next_expected_spec(s[i - 1])
}

/// Law: starting uninitialized, a stream that follows the pattern keeps
/// the machine in `Counting`, expecting the successor of the last count
/// fed, after every step, and no counter ever moves.
pub proof fn lemma_in_pattern_stream_stays_counting(ps: PatternState, s: Seq<Count>)
    requires
        ps.state is Uninitialized,
        ps.resync_expected == 0,
        ps.resync_actual == 0,
        ps.unexpected_counts == 0,
        follows_pattern(ps.pattern, s),
    ensures
        forall|i: int|
            1 <= i <= s.len() ==> {
                let r = #[trigger] run_spec(ps, s.take(i));
                &&& r.state == CountState::Counting(ps.pattern.next_expected_spec(s[i - 1]))
                &&& r.resync_expected == 0
                &&& r.resync_actual == 0
                &&& r.unexpected_counts == 0
                &&& r.pattern == ps.pattern
                &&& r.pattern_type == ps.pattern_type
            },
{
    assert forall|i: int| 1 <= i <= s.len() implies {
        let r = #[trigger] run_spec(ps, s.take(i));
        &&& r.state == CountState::Counting(ps.pattern.next_expected_spec(s[i - 1]))
        &&& r.resync_expected == 0
        &&& r.resync_actual == 0
        &&& r.unexpected_counts == 0
        &&& r.pattern == ps.pattern
        &&& r.pattern_type == ps.pattern_type
    } by {
        lemma_in_pattern_prefix(ps, s, i);
    }
}

/// The inductive core of [`lemma_in_pattern_stream_stays_counting`], for
/// one prefix length `i`.
proof fn lemma_in_pattern_prefix(ps: PatternState, s: Seq<Count>, i: int)
    requires
        ps.state is Uninitialized,
        ps.resync_expected == 0,
        ps.resync_actual == 0,
        ps.unexpected_counts == 0,
        follows_pattern(ps.pattern, s),
        1 <= i <= s.len(),
    ensures
        ({
            let r = run_spec(ps, s.take(i));
            &&& r.state == CountState::Counting(ps.pattern.next_expected_spec(s[i - 1]))
            &&& r.resync_expected == 0
            &&& r.resync_actual == 0
            &&& r.unexpected_counts == 0
            &&& r.pattern == ps.pattern
            &&& r.pattern_type == ps.pattern_type
        }),
    decreases i,
{
    if i == 1 {
        assert(s.take(1)[0] == s[0]);
        assert(s.take(1).drop_first() =~= Seq::<Count>::empty());
        assert(run_spec(ps, s.take(1)) == run_spec(
            ps.count_spec(s[0]),
            Seq::<Count>::empty(),
        ));
        assert(run_spec(ps.count_spec(s[0]), Seq::<Count>::empty()) == ps.count_spec(s[0]));
    } else {
        lemma_in_pattern_prefix(ps, s, i - 1);
        assert(s.take(i) =~= s.take(i - 1).push(s[i - 1]));
        lemma_run_snoc(ps, s.take(i - 1), s[i - 1]);
        assert(s[i - 1] == ps.pattern.next_expected_spec(s[i - 2]));
    }
}

/// Law: the three counters never decrease — each step leaves every counter
/// equal or one greater, and moves at most one of them.
pub proof fn lemma_counters_never_decrease(ps: PatternState, observed: Count)
    requires
        ps.resync_expected < usize::MAX,
        ps.resync_actual < usize::MAX,
        ps.unexpected_counts < usize::MAX,
    ensures
        ({
            let r = ps.count_spec(observed);
            &&& ps.resync_expected <= r.resync_expected <= ps.resync_expected + 1
            &&& ps.resync_actual <= r.resync_actual <= ps.resync_actual + 1
            &&& ps.unexpected_counts <= r.unexpected_counts <= ps.unexpected_counts + 1
            &&& (r.resync_expected - ps.resync_expected) + (r.resync_actual - ps.resync_actual) + (
            r.unexpected_counts - ps.unexpected_counts) <= 1
        }),
{
}

/// Law: a first mismatch while in sync desynchronizes, the kept
/// expectation following the tie-break policy, and touches no counter.
pub proof fn lemma_mismatch_desyncs(ps: PatternState, expected: Count, observed: Count)
    requires
        ps.state == CountState::Counting(expected),
        observed != expected,
    ensures
        ({
            let r = ps.count_spec(observed);
            &&& r.state == CountState::Unexpected(
                match ps.pattern_type {
                    PatternType::Square => ps.pattern.next_expected_spec(expected),
                    PatternType::Jagged => expected,
                },
                observed,
            )
            &&& r.resync_expected == ps.resync_expected
            &&& r.resync_actual == ps.resync_actual
            &&& r.unexpected_counts == ps.unexpected_counts
        }),
{
}

/// Law: feeding the kept expectation while desynchronized regains sync and
/// increments `resync_expected` by exactly one, the other counters
/// untouched.
pub proof fn lemma_resync_expected(ps: PatternState, expected: Count, actual: Count)
    requires
        ps.state == CountState::Unexpected(expected, actual),
        ps.resync_expected < usize::MAX,
    ensures
        ({
            let r = ps.count_spec(expected);
            &&& r.state == CountState::Counting(ps.pattern.next_expected_spec(expected))
            &&& r.resync_expected == ps.resync_expected + 1
            &&& r.resync_actual == ps.resync_actual
            &&& r.unexpected_counts == ps.unexpected_counts
        }),
{
}

/// Law: feeding the continuation of the last observed out-of-pattern value
/// while desynchronized — where it differs from the kept expectation —
/// regains sync and increments `resync_actual` by exactly one, the other
/// counters untouched.
pub proof fn lemma_resync_actual(ps: PatternState, expected: Count, actual: Count)
    requires
        ps.state == CountState::Unexpected(expected, actual),
        ps.pattern.next_expected_spec(actual) != expected,
        ps.resync_actual < usize::MAX,
    ensures
        ({
            let r = ps.count_spec(ps.pattern.next_expected_spec(actual));
            &&& r.state == CountState::Counting(ps.pattern.next_expected_spec(actual))
            &&& r.resync_expected == ps.resync_expected
            &&& r.resync_actual == ps.resync_actual + 1
            &&& r.unexpected_counts == ps.unexpected_counts
        }),
{
}

/// Law: a still-mismatched count while desynchronized increments
/// `unexpected_counts` by exactly one and stays desynchronized, the
/// observation recorded as the new actual value, the other counters
/// untouched.
pub proof fn lemma_still_desynced(
    ps: PatternState,
    expected: Count,
    actual: Count,
    observed: Count,
)
    requires
        ps.state == CountState::Unexpected(expected, actual),
        observed != expected,
        observed != ps.pattern.next_expected_spec(actual),
        ps.unexpected_counts < usize::MAX,
    ensures
        ({
            let r = ps.count_spec(observed);
            &&& r.state == CountState::Unexpected(
                ps.pattern.next_expected_spec(observed),
                observed,
            )
            &&& r.resync_expected == ps.resync_expected
            &&& r.resync_actual == ps.resync_actual
            &&& r.unexpected_counts == ps.unexpected_counts + 1
        }),
{
}

} // verus!
