use orion_eira_nexus::policy_gate::Decision;
use orion_eira_nexus::terminal::{format_decision_id, EiraTerminal, TerminalLine};

fn authenticated_terminal() -> EiraTerminal {
    let mut t = EiraTerminal::new();
    t.register_user("test_user", "test_pass");
    t.login("test_user", "test_pass");
    t
}

fn joined(lines: &[TerminalLine]) -> String {
    lines.iter().map(|l| l.render()).collect::<Vec<_>>().join("\n")
}

#[test]
fn test_terminal_banner_on_creation() {
    let t = EiraTerminal::new();
    let output = t.peek_output();
    assert!(!output.is_empty());
    assert!(joined(output).contains("EIRA Terminal"));
}

#[test]
fn test_rejected_when_not_logged_in() {
    let mut t = EiraTerminal::new();
    let d = t.submit("Test action", "Reasoning", 9900, vec![]);
    assert_eq!(d, Decision::Rejected);
    assert!(joined(t.peek_output()).contains("authentication required"));
}

#[test]
fn test_abstain_before_epistemic_state_set() {
    let mut t = authenticated_terminal();
    let d = t.submit("Test action", "Reasoning", 9900, vec![]);
    assert_eq!(d, Decision::Abstain);
}

#[test]
fn test_approval_after_verified_stable() {
    let mut t = authenticated_terminal();
    t.set_epistemic_state(true);
    let d = t.submit("Safe action", "Well-reasoned", 9000, vec![]);
    assert_eq!(d, Decision::Approved);
}

#[test]
fn test_show_audit_trail_output() {
    let mut t = authenticated_terminal();
    t.set_epistemic_state(true);
    t.submit("Action", "Reasoning", 9000, vec![]);
    t.flush();
    t.show_audit_trail();
    let out = t.peek_output();
    assert!(!out.is_empty());
    assert!(joined(out).contains("Audit Trail"));
}

#[test]
fn test_show_status_output() {
    let mut t = EiraTerminal::new();
    t.flush();
    t.show_status();
    let out = t.peek_output();
    assert!(out.iter().any(|l| l.content.contains("Gate state")));
}

#[test]
fn test_terminal_line_render() {
    let l = TerminalLine::ok("All good");
    assert_eq!(l.render(), "[ OK ] All good");
}

#[test]
fn test_flush_clears_buffer() {
    let mut t = EiraTerminal::new();
    assert!(!t.peek_output().is_empty());
    let flushed = t.flush();
    assert!(!flushed.is_empty());
    assert!(t.peek_output().is_empty());
}

#[test]
fn test_register_user_success() {
    let mut t = EiraTerminal::new();
    let ok = t.register_user("alice", "hunter2");
    assert!(ok);
    assert!(joined(t.peek_output()).contains("registered"));
}

#[test]
fn test_register_duplicate_user_fails() {
    let mut t = EiraTerminal::new();
    t.register_user("alice", "hunter2");
    let ok = t.register_user("alice", "other");
    assert!(!ok);
}

#[test]
fn test_login_success() {
    let mut t = EiraTerminal::new();
    t.register_user("bob", "pass");
    let ok = t.login("bob", "pass");
    assert!(ok);
    assert_eq!(t.current_user(), Some("bob"));
    assert!(t.is_authenticated());
}

#[test]
fn test_login_wrong_password_fails() {
    let mut t = EiraTerminal::new();
    t.register_user("carol", "correct");
    let ok = t.login("carol", "wrong");
    assert!(!ok);
    assert!(!t.is_authenticated());
    assert_eq!(t.current_user(), None);
}

#[test]
fn test_login_unknown_user_fails() {
    let mut t = EiraTerminal::new();
    let ok = t.login("ghost", "x");
    assert!(!ok);
    assert!(!t.is_authenticated());
}

#[test]
fn test_logout_clears_session() {
    let mut t = EiraTerminal::new();
    t.register_user("dave", "pw");
    t.login("dave", "pw");
    assert!(t.is_authenticated());
    t.logout();
    assert!(!t.is_authenticated());
    assert_eq!(t.current_user(), None);
}

#[test]
fn test_submit_rejected_after_logout() {
    let mut t = authenticated_terminal();
    t.set_epistemic_state(true);
    t.logout();
    let d = t.submit("Action", "Reasoning", 9000, vec![]);
    assert_eq!(d, Decision::Rejected);
}

#[test]
fn test_show_login_log() {
    let mut t = EiraTerminal::new();
    t.register_user("eve", "p");
    t.login("eve", "p");
    t.login("eve", "wrong");
    t.flush();
    t.show_login_log();
    let text = joined(t.peek_output());
    assert!(text.contains("Login Log"));
    assert!(text.contains("SUCCESS"));
    assert!(text.contains("FAILURE"));
}

#[test]
fn test_show_status_includes_user_info() {
    let mut t = EiraTerminal::new();
    t.register_user("frank", "pw");
    t.login("frank", "pw");
    t.flush();
    t.show_status();
    let text = joined(t.peek_output());
    assert!(text.contains("frank"));
    assert!(text.contains("Logged-in user"));
}

#[test]
fn test_show_status_not_authenticated() {
    let mut t = EiraTerminal::new();
    t.flush();
    t.show_status();
    assert!(joined(t.peek_output()).contains("not authenticated"));
}

#[test]
fn banner_lines_exact() {
    let mut t = EiraTerminal::new();
    let lines = t.flush();
    assert_eq!(lines.len(), 4);
    assert_eq!(lines[1].render(), "[INFO]  EIRA Terminal \u{2014} Epistemic Integrity Gate v0.1 ");
    assert_eq!(lines[3].render(), "[INFO] Zero randomness. Immutable audit. Type-safe.");
    assert_eq!(lines[0].content.chars().count(), 47);
}

#[test]
fn line_prefixes() {
    assert_eq!(TerminalLine::info("a").render(), "[INFO] a");
    assert_eq!(TerminalLine::warn("b").render(), "[WARN] b");
    assert_eq!(TerminalLine::err("c").render(), "[ERR ] c");
}

#[test]
fn submission_lines_exact() {
    let mut t = authenticated_terminal();
    t.set_epistemic_state(true);
    t.flush();
    t.submit("Deploy", "Benchmarks pass", 9200, vec!["review".to_string()]);
    t.submit("GPU", "Maybe faster", 6000, vec![]);
    let lines = t.flush();
    assert_eq!(lines[0].render(), "[INFO] Proposal #1: \"Deploy\"  confidence=0.92");
    assert_eq!(lines[1].render(), "[ OK ] #1 \u{2192} APPROVED");
    assert_eq!(lines[2].render(), "[INFO] Proposal #2: \"GPU\"  confidence=0.60");
    assert_eq!(lines[3].render(), "[WARN] #2 \u{2192} REQUEST_INFO");
}

#[test]
fn rejected_submission_still_takes_an_id() {
    let mut t = EiraTerminal::new();
    t.flush();
    t.submit("A", "R", 9000, vec![]);
    t.register_user("gail", "pw");
    t.login("gail", "pw");
    t.submit("B", "R", 9000, vec![]);
    let text = joined(&t.flush());
    assert!(text.contains("Proposal #1: authentication required \u{2014} login first"));
    assert!(text.contains("#2 \u{2192} ABSTAIN (gate uncertain)"));
}

#[test]
fn audit_trail_lines_exact() {
    let mut t = authenticated_terminal();
    t.set_epistemic_state(true);
    t.submit("Action", "Reasoning", 9000, vec![]);
    t.set_epistemic_state(false);
    t.submit("Other", "Reasoning", 9000, vec![]);
    t.flush();
    t.show_audit_trail();
    let lines = t.flush();
    assert_eq!(lines.len(), 3);
    assert_eq!(lines[0].content, "\u{2500}\u{2500} Audit Trail (2 entries) \u{2500}\u{2500}");
    assert_eq!(lines[1].content, "  #1    | APPROVED     | state=VerifiedStable | \"Action\"");
    assert_eq!(lines[2].content, "  #2    | REJECTED     | state=Contradiction | \"Other\"");
}

#[test]
fn login_log_and_status_lines_exact() {
    let mut t = EiraTerminal::new();
    t.register_user("hal", "pw");
    t.login("hal", "pw");
    t.login("hal", "bad");
    t.flush();
    t.show_login_log();
    t.show_status();
    let lines = t.flush();
    assert_eq!(lines[0].content, "\u{2500}\u{2500} Login Log (2 entries) \u{2500}\u{2500}");
    assert_eq!(lines[1].content, "  hal | SUCCESS | ts=terminal");
    assert_eq!(lines[2].content, "  hal | FAILURE | ts=terminal");
    assert_eq!(lines[3].content, "Gate state: Uncertain");
    assert_eq!(lines[4].content, "Audit entries: 0");
    assert_eq!(lines[5].content, "Logged-in user: hal");
    assert_eq!(lines[6].content, "Login attempts: 2");
}

#[test]
fn failed_login_keeps_open_session() {
    let mut t = authenticated_terminal();
    assert!(!t.login("nobody", "x"));
    assert_eq!(t.current_user(), Some("test_user"));
}

#[test]
fn registration_failure_reason_is_shown() {
    let mut t = EiraTerminal::new();
    t.flush();
    assert!(!t.register_user("", "pw"));
    assert!(!t.register_user("ian", ""));
    let lines = t.flush();
    assert_eq!(lines[0].render(), "[ERR ] Registration failed: username must not be empty");
    assert_eq!(lines[1].render(), "[ERR ] Registration failed: password must not be empty");
}

#[test]
fn logout_without_session_is_silent() {
    let mut t = EiraTerminal::new();
    t.flush();
    t.logout();
    assert!(t.peek_output().is_empty());
}

#[test]
fn epistemic_state_lines() {
    let mut t = EiraTerminal::new();
    t.flush();
    t.set_epistemic_state(false);
    t.set_epistemic_state(true);
    t.set_epistemic_state(false);
    let lines = t.flush();
    assert_eq!(lines[0].content, "Epistemic state \u{2192} Uncertain");
    assert_eq!(lines[1].content, "Epistemic state \u{2192} VerifiedStable");
    assert_eq!(lines[2].content, "Epistemic state \u{2192} Contradiction");
}

#[test]
fn decision_id_known_values() {
    assert_eq!(format_decision_id(1), "d6c62272-e89b-12d3-a456-272e07bb0142");
    assert_eq!(format_decision_id(42), "dc81a6d8-e89b-12d3-a456-6d8d44ae34d4");
    assert_eq!(format_decision_id(0), "d0000000-e89b-12d3-a456-000000000000");
}
