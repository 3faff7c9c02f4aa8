use count_pattern::{CountState, Pattern, PatternState, PatternType};

fn fresh(rollover: u32, pattern_type: PatternType, start: Option<u32>) -> PatternState {
    let pattern = Pattern::new(1, rollover, vec![0], vec![]).unwrap();
    PatternState::make_pattern_state(pattern, pattern_type, start)
}

fn assert_counters(ps: &PatternState, expected: usize, actual: usize, unexpected: usize) {
    assert_eq!(ps.resync_expected, expected);
    assert_eq!(ps.resync_actual, actual);
    assert_eq!(ps.unexpected_counts, unexpected);
}

#[test]
fn make_pattern_state_with_start() {
    let ps = fresh(4, PatternType::Square, Some(7));
    assert_eq!(ps.state, CountState::Counting(7));
    assert_counters(&ps, 0, 0, 0);
}

#[test]
fn make_pattern_state_without_start() {
    let ps = fresh(4, PatternType::Jagged, None);
    assert_eq!(ps.state, CountState::Uninitialized);
    assert_counters(&ps, 0, 0, 0);
}

#[test]
fn in_sequence_run_stays_counting() {
    // A strictly in-sequence run keeps the state `Counting` throughout and
    // never moves a counter.
    let mut ps = fresh(100, PatternType::Square, None);
    for v in [0u32, 1, 2, 3, 4] {
        ps.count(v);
        assert_eq!(ps.state, CountState::Counting(v + 1));
        assert_counters(&ps, 0, 0, 0);
    }
}

#[test]
fn rollover_run_stays_counting() {
    // Pattern { dims: 1, rollover: 4, steps: [0], sizes: [] } over
    // 0, 1, 2, 3, 0, 1, 2: every step stays `Counting`, zero counters.
    let mut ps = fresh(4, PatternType::Square, None);
    let feed = [0u32, 1, 2, 3, 0, 1, 2];
    let expect = [1u32, 2, 3, 0, 1, 2, 3];
    for (v, e) in feed.iter().zip(expect.iter()) {
        ps.count(*v);
        assert_eq!(ps.state, CountState::Counting(*e));
        assert_counters(&ps, 0, 0, 0);
    }
}

#[test]
fn single_mismatch_desyncs_square() {
    // After Counting(3), feeding 10 desynchronizes without touching any
    // counter; Square advances the expectation past the missed value.
    let mut ps = fresh(100, PatternType::Square, Some(3));
    ps.count(10);
    assert_eq!(ps.state, CountState::Unexpected(4, 10));
    assert_counters(&ps, 0, 0, 0);
}

#[test]
fn single_mismatch_desyncs_jagged() {
    // Jagged freezes the expectation at its last known value.
    let mut ps = fresh(100, PatternType::Jagged, Some(3));
    ps.count(10);
    assert_eq!(ps.state, CountState::Unexpected(3, 10));
    assert_counters(&ps, 0, 0, 0);
}

#[test]
fn resync_by_expected_value() {
    // Feeding the pattern's own expected value right after a desync
    // increments resync_expected by exactly one and returns to Counting.
    let mut ps = fresh(100, PatternType::Square, Some(1));
    ps.count(5);
    assert_eq!(ps.state, CountState::Unexpected(2, 5));
    ps.count(2);
    assert_eq!(ps.state, CountState::Counting(3));
    assert_counters(&ps, 1, 0, 0);
}

#[test]
fn resync_by_actual_continuation() {
    // Feeding the continuation of the unexpected value increments
    // resync_actual by exactly one and returns to Counting.
    let mut ps = fresh(100, PatternType::Square, Some(1));
    ps.count(5);
    assert_eq!(ps.state, CountState::Unexpected(2, 5));
    ps.count(6);
    assert_eq!(ps.state, CountState::Counting(6));
    assert_counters(&ps, 0, 1, 0);
}

#[test]
fn still_mismatched_increments_unexpected() {
    // A third, still-mismatched value increments unexpected_counts by
    // exactly one and stays Unexpected with the actual value updated.
    let mut ps = fresh(100, PatternType::Square, Some(1));
    ps.count(5);
    assert_eq!(ps.state, CountState::Unexpected(2, 5));
    ps.count(9);
    assert_eq!(ps.state, CountState::Unexpected(10, 9));
    assert_counters(&ps, 0, 0, 1);
}

#[test]
fn scenario_mismatch_then_resync_square() {
    // Pattern { dims: 1, rollover: 4, steps: [0], sizes: [] }, Square,
    // over 0, 1, 5, 2, 3: the third value desynchronizes, the fourth is
    // still mismatched (the continuation of 5 wraps to 0), the fifth
    // matches the advanced expectation and resynchronizes.
    let mut ps = fresh(4, PatternType::Square, None);
    ps.count(0);
    assert_eq!(ps.state, CountState::Counting(1));
    ps.count(1);
    assert_eq!(ps.state, CountState::Counting(2));
    ps.count(5);
    assert_eq!(ps.state, CountState::Unexpected(3, 5));
    assert_counters(&ps, 0, 0, 0);
    ps.count(2);
    assert_eq!(ps.state, CountState::Unexpected(3, 2));
    assert_counters(&ps, 0, 0, 1);
    ps.count(3);
    assert_eq!(ps.state, CountState::Counting(0));
    assert_counters(&ps, 1, 0, 1);
}

#[test]
fn scenario_mismatch_then_resync_jagged() {
    // Same feed under Jagged: the frozen expectation is 2, so the fourth
    // value resynchronizes by matching it.
    let mut ps = fresh(4, PatternType::Jagged, None);
    ps.count(0);
    ps.count(1);
    ps.count(5);
    assert_eq!(ps.state, CountState::Unexpected(2, 5));
    ps.count(2);
    assert_eq!(ps.state, CountState::Counting(3));
    assert_counters(&ps, 1, 0, 0);
}

#[test]
fn process_first_observation() {
    let st = CountState::Uninitialized.process(5);
    assert_eq!(st, CountState::Counting(6));
}

#[test]
fn process_in_sequence() {
    let mut st = CountState::Uninitialized;
    for v in [3u32, 4, 5, 6] {
        st = st.process(v);
        assert_eq!(st, CountState::Counting(v + 1));
    }
}

#[test]
fn process_mismatch_and_resyncs() {
    let st = CountState::Counting(7).process(9);
    assert_eq!(st, CountState::Unexpected(8, 9));
    // Resync by the expected value advances past it.
    assert_eq!(st.process(8), CountState::Counting(9));
    // Resync by the continuation of the unexpected value.
    assert_eq!(st.process(10), CountState::Counting(10));
    // A still-mismatched value stays desynchronized.
    assert_eq!(st.process(3), CountState::Unexpected(4, 3));
}

#[test]
fn process_wraps_at_word_end() {
    // The plain machine's +1 successor wraps only at the end of the word.
    let st = CountState::Counting(u32::MAX).process(u32::MAX);
    assert_eq!(st, CountState::Counting(0));
}
