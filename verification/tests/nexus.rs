use orion_eira_nexus::nexus::{InferenceResult, InferenceRule, PrecausalBuffer, StateSnapshot};

type Snap = StateSnapshot<Vec<f64>>;
type Pre = Box<dyn Fn(&[Snap]) -> bool + Send + Sync>;
type Proj = Box<dyn Fn(&[Snap]) -> Snap + Send + Sync>;
type Buffer = PrecausalBuffer<Vec<f64>, Pre, Proj>;

/// The standard linear-trend rule: project the last first-order difference.
fn linear_trend_rule(dim: usize) -> InferenceRule<Pre, Proj> {
    InferenceRule::new(
        "linear_trend",
        2,
        Box::new(move |history: &[Snap]| {
            history.last().map(|s| s.values.len() == dim).unwrap_or(false)
        }),
        Box::new(move |history: &[Snap]| {
            let n = history.len();
            let last = &history[n - 1];
            let prev = &history[n - 2];
            let next_values: Vec<f64> = (0..dim)
                .map(|i| last.values[i] + (last.values[i] - prev.values[i]))
                .collect();
            StateSnapshot::new(last.tick + 1, next_values, "linear_trend_prediction")
        }),
    )
}

/// The steady-state rule: all deltas below `epsilon` predict the same values.
fn steady_state_rule(dim: usize, epsilon: f64) -> InferenceRule<Pre, Proj> {
    InferenceRule::new(
        "steady_state",
        2,
        Box::new(move |history: &[Snap]| {
            let n = history.len();
            if history[n - 1].values.len() != dim {
                return false;
            }
            let last = &history[n - 1];
            let prev = &history[n - 2];
            (0..dim).all(|i| (last.values[i] - prev.values[i]).abs() < epsilon)
        }),
        Box::new(move |history: &[Snap]| {
            let last = &history[history.len() - 1];
            StateSnapshot::new(last.tick + 1, last.values.clone(), "steady_state_prediction")
        }),
    )
}

fn snap(tick: u64, values: Vec<f64>, label: &str) -> Snap {
    StateSnapshot::new(tick, values, label)
}

#[test]
fn test_insufficient_history_empty_buffer() {
    let mut buf: Buffer = PrecausalBuffer::new(10);
    buf.register_rule(linear_trend_rule(1));
    assert_eq!(buf.infer(), InferenceResult::InsufficientHistory);
}

#[test]
fn test_insufficient_history_one_snapshot() {
    let mut buf: Buffer = PrecausalBuffer::new(10);
    buf.register_rule(linear_trend_rule(1));
    buf.push(snap(0, vec![1.0], "s0"));
    assert_eq!(buf.infer(), InferenceResult::InsufficientHistory);
}

#[test]
fn test_linear_trend_prediction() {
    let mut buf: Buffer = PrecausalBuffer::new(10);
    buf.register_rule(linear_trend_rule(1));
    buf.push(snap(0, vec![0.0], "s0"));
    buf.push(snap(1, vec![1.0], "s1"));
    match buf.infer() {
        InferenceResult::Predicted(s) => {
            assert!((s.values[0] - 2.0).abs() < 1e-12);
            assert_eq!(s.tick, 2);
        }
        other => panic!("Expected Predicted, got {:?}", other),
    }
}

#[test]
fn test_steady_state_prediction() {
    let mut buf: Buffer = PrecausalBuffer::new(10);
    buf.register_rule(steady_state_rule(2, 1e-9));
    buf.push(snap(0, vec![5.0, 3.0], "s0"));
    buf.push(snap(1, vec![5.0, 3.0], "s1"));
    match buf.infer() {
        InferenceResult::Predicted(s) => {
            assert!((s.values[0] - 5.0).abs() < 1e-12);
            assert!((s.values[1] - 3.0).abs() < 1e-12);
        }
        other => panic!("Expected Predicted, got {:?}", other),
    }
}

#[test]
fn test_buffer_capacity_eviction() {
    let mut buf: Buffer = PrecausalBuffer::new(3);
    for i in 0..5_u64 {
        buf.push(snap(i, vec![i as f64], "s"));
    }
    assert_eq!(buf.history().len(), 3);
    assert_eq!(buf.history()[0].tick, 2);
    assert_eq!(buf.history()[2].tick, 4);
}

#[test]
fn test_inference_log_grows() {
    let mut buf: Buffer = PrecausalBuffer::new(10);
    buf.register_rule(linear_trend_rule(1));
    buf.infer();
    buf.push(snap(0, vec![1.0], "s0"));
    buf.infer();
    assert_eq!(buf.inference_log().len(), 2);
}

#[test]
fn test_deterministic_repeated_inference() {
    let make_buf = || {
        let mut buf: Buffer = PrecausalBuffer::new(10);
        buf.register_rule(linear_trend_rule(2));
        buf.push(snap(0, vec![1.0, 2.0], "s0"));
        buf.push(snap(1, vec![3.0, 5.0], "s1"));
        buf
    };
    let mut b1 = make_buf();
    let mut b2 = make_buf();
    let r1 = b1.infer();
    let r2 = b2.infer();
    assert_eq!(r1, r2);
}

#[test]
fn no_rule_matched_when_dimension_differs() {
    let mut buf: Buffer = PrecausalBuffer::new(4);
    buf.register_rule(linear_trend_rule(3));
    buf.push(snap(0, vec![1.0], "s0"));
    buf.push(snap(1, vec![2.0], "s1"));
    assert_eq!(buf.infer(), InferenceResult::NoRuleMatched);
}

#[test]
fn empty_rule_set_with_history_matches_nothing() {
    let mut buf: Buffer = PrecausalBuffer::new(4);
    buf.push(snap(7, vec![1.0], "s0"));
    assert_eq!(buf.infer(), InferenceResult::NoRuleMatched);
    assert_eq!(buf.inference_log()[0].0, 7);
    assert_eq!(buf.inference_log()[0].1, "no_rule");
}

#[test]
fn first_registered_matching_rule_wins() {
    let mut buf: Buffer = PrecausalBuffer::new(4);
    buf.register_rule(steady_state_rule(1, 1e-9));
    buf.register_rule(linear_trend_rule(1));
    buf.push(snap(0, vec![1.0], "s0"));
    buf.push(snap(1, vec![2.0], "s1"));
    match buf.infer() {
        InferenceResult::Predicted(s) => assert_eq!(s.label, "linear_trend_prediction"),
        other => panic!("Expected Predicted, got {:?}", other),
    }
    buf.push(snap(2, vec![2.0], "s2"));
    match buf.infer() {
        InferenceResult::Predicted(s) => assert_eq!(s.label, "steady_state_prediction"),
        other => panic!("Expected Predicted, got {:?}", other),
    }
    let log = buf.inference_log();
    assert_eq!(log[0].0, 1);
    assert_eq!(log[1].0, 2);
    assert_eq!(log[1].1, "matched");
}

#[test]
fn insufficient_history_logged_with_tick_zero() {
    let mut buf: Buffer = PrecausalBuffer::new(2);
    buf.register_rule(linear_trend_rule(1));
    buf.infer();
    assert_eq!(buf.inference_log()[0].0, 0);
    assert_eq!(buf.inference_log()[0].1, "insufficient_history");
}

#[test]
fn capacity_one_keeps_newest() {
    let mut buf: Buffer = PrecausalBuffer::new(1);
    buf.push(snap(1, vec![], "a"));
    buf.push(snap(2, vec![], "b"));
    assert_eq!(buf.history().len(), 1);
    assert_eq!(buf.history()[0].label, "b");
}

#[test]
fn linear_trend_of_three_values() {
    let mut buf: Buffer = PrecausalBuffer::new(16);
    buf.register_rule(linear_trend_rule(3));
    buf.push(snap(0, vec![1.0, 2.0, 3.0], "t0"));
    buf.push(snap(1, vec![2.0, 4.0, 6.0], "t1"));
    match buf.infer() {
        InferenceResult::Predicted(s) => assert_eq!(s.values, vec![3.0, 6.0, 9.0]),
        other => panic!("Expected Predicted, got {:?}", other),
    }
}

#[test]
fn logged_result_is_the_returned_one() {
    let mut buf: Buffer = PrecausalBuffer::new(4);
    buf.register_rule(linear_trend_rule(2));
    buf.push(snap(0, vec![1.0, 2.0], "s0"));
    buf.push(snap(1, vec![3.0, 5.0], "s1"));
    let r = buf.infer();
    assert_eq!(buf.inference_log()[0].2, r);
    let mut empty: Buffer = PrecausalBuffer::new(4);
    let r = empty.infer();
    assert_eq!(empty.inference_log()[0].2, r);
}
