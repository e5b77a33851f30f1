use orion_eira_nexus::policy_gate::{Decision, EpistemicState, PolicyGate, Proposal};

fn stable_gate() -> PolicyGate {
    let mut gate = PolicyGate::new();
    gate.update_state(true);
    gate
}

#[test]
fn test_policy_gate_approval() {
    let mut gate = PolicyGate::with_threshold(7000);
    gate.update_state(true);
    let proposal = Proposal::new(
        1,
        "Test Action",
        "This action is beneficial",
        8000,
        "2026-04-19T18:54:38Z",
        vec!["info1".to_string()],
    );
    assert_eq!(gate.evaluate(proposal), Decision::Approved);
}

#[test]
fn test_abstain_when_uncertain() {
    let mut gate = PolicyGate::new();
    let proposal = Proposal::new(2, "Action", "Reasoning", 9900, "2026-04-19T00:00:00Z", vec![]);
    assert_eq!(gate.evaluate(proposal), Decision::Abstain);
}

#[test]
fn test_rejected_on_contradiction() {
    let mut gate = stable_gate();
    gate.update_state(false);
    let proposal = Proposal::new(3, "Action", "Reasoning", 9900, "2026-04-19T00:00:00Z", vec![]);
    assert_eq!(gate.evaluate(proposal), Decision::Rejected);
}

#[test]
fn test_request_info_low_confidence() {
    let mut gate = stable_gate();
    let proposal =
        Proposal::new(4, "Risky Action", "Some reasoning", 5000, "2026-04-19T00:00:00Z", vec![]);
    assert_eq!(gate.evaluate(proposal), Decision::RequestInfo);
}

#[test]
fn test_rejected_empty_reasoning() {
    let mut gate = stable_gate();
    let proposal = Proposal::new(5, "Action", "", 9000, "2026-04-19T00:00:00Z", vec![]);
    assert_eq!(gate.evaluate(proposal), Decision::Rejected);
}

#[test]
fn test_request_info_empty_required_field() {
    let mut gate = stable_gate();
    let proposal = Proposal::new(
        6,
        "Action",
        "Reasoning",
        9000,
        "2026-04-19T00:00:00Z",
        vec!["".to_string()],
    );
    assert_eq!(gate.evaluate(proposal), Decision::RequestInfo);
}

#[test]
fn test_audit_trail_immutable_growth() {
    let mut gate = stable_gate();
    assert_eq!(gate.audit_log().len(), 0);

    let p1 = Proposal::new(7, "A", "R", 9500, "t", vec![]);
    gate.evaluate(p1);
    assert_eq!(gate.audit_log().len(), 1);

    let p2 = Proposal::new(8, "B", "R2", 9000, "t", vec![]);
    gate.evaluate(p2);
    assert_eq!(gate.audit_log().len(), 2);
}

#[test]
fn test_default_confidence_threshold_is_085() {
    let gate = PolicyGate::new();
    assert_eq!(gate.confidence_threshold(), 8500);
}

#[test]
fn test_epistemic_state_transitions() {
    let mut gate = PolicyGate::new();
    assert_eq!(gate.state(), &EpistemicState::Uncertain);
    gate.update_state(true);
    assert_eq!(gate.state(), &EpistemicState::VerifiedStable);
    gate.update_state(false);
    assert_eq!(gate.state(), &EpistemicState::Contradiction);
    gate.update_state(true);
    assert_eq!(gate.state(), &EpistemicState::Contradiction);
}

#[test]
fn inconsistent_evidence_while_uncertain_changes_nothing() {
    let mut gate = PolicyGate::new();
    gate.update_state(false);
    assert_eq!(gate.state(), &EpistemicState::Uncertain);
    gate.update_state(true);
    gate.update_state(true);
    assert_eq!(gate.state(), &EpistemicState::VerifiedStable);
}

#[test]
fn contradiction_never_approves_again() {
    let mut gate = stable_gate();
    gate.update_state(false);
    for evidence in [true, false, true, true] {
        gate.update_state(evidence);
        let p = Proposal::new(9, "A", "R", 10000, "t", vec![]);
        assert_eq!(gate.evaluate(p), Decision::Rejected);
    }
}

#[test]
fn confidence_equal_to_threshold_is_enough() {
    let mut gate = stable_gate();
    let at = Proposal::new(10, "A", "R", 8500, "t", vec![]);
    assert_eq!(gate.evaluate(at), Decision::Approved);
    let below = Proposal::new(11, "A", "R", 8499, "t", vec![]);
    assert_eq!(gate.evaluate(below), Decision::RequestInfo);
}

#[test]
fn low_confidence_checked_before_reasoning() {
    let mut gate = stable_gate();
    let p = Proposal::new(12, "A", "", 100, "t", vec!["".to_string()]);
    assert_eq!(gate.evaluate(p), Decision::RequestInfo);
}

#[test]
fn empty_reasoning_checked_before_required_info() {
    let mut gate = stable_gate();
    let p = Proposal::new(13, "A", "", 9000, "t", vec!["".to_string()]);
    assert_eq!(gate.evaluate(p), Decision::Rejected);
}

#[test]
fn any_empty_required_item_requests_info() {
    let mut gate = stable_gate();
    let p = Proposal::new(14, "A", "R", 9000, "t", vec!["x".to_string(), "".to_string()]);
    assert_eq!(gate.evaluate(p), Decision::RequestInfo);
}

#[test]
fn audit_entry_records_state_and_decision() {
    let mut gate = PolicyGate::new();
    gate.evaluate(Proposal::new(15, "first", "R", 9000, "t", vec![]));
    gate.update_state(true);
    gate.evaluate(Proposal::new(16, "second", "R", 9000, "t", vec![]));
    let log = gate.audit_log();
    assert_eq!(log[0].proposal.id, 15);
    assert_eq!(log[0].decision, Decision::Abstain);
    assert_eq!(log[0].state_at_evaluation, EpistemicState::Uncertain);
    assert_eq!(log[1].proposal.action, "second");
    assert_eq!(log[1].decision, Decision::Approved);
    assert_eq!(log[1].state_at_evaluation, EpistemicState::VerifiedStable);
}

#[test]
fn custom_threshold_is_kept() {
    let gate = PolicyGate::with_threshold(10000);
    assert_eq!(gate.confidence_threshold(), 10000);
    let default_gate = PolicyGate::default();
    assert_eq!(default_gate.confidence_threshold(), 8500);
    assert_eq!(default_gate.state(), &EpistemicState::Uncertain);
}

#[test]
fn deploy_model_is_approved_and_logged() {
    let mut gate = PolicyGate::new();
    gate.update_state(true);
    let proposal = Proposal::new(1, "Deploy model", "Benchmarks pass", 9000, "t", vec![]);
    assert_eq!(gate.evaluate(proposal), Decision::Approved);
    assert_eq!(gate.audit_log().len(), 1);
}
