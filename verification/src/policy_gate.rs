//! Policy Gate – core safety layer.
//!
//! Deterministic epistemic state management for autonomous decision control.
//! The policy gate moves one way only: `Uncertain → VerifiedStable → Contradiction`,
//! and every evaluation is appended to an append-only audit log.
//!
//! Confidence values are fixed-point numbers in basis points: `10_000`
//! stands for a confidence of `1.0`, `8_500` for `0.85`.

use vstd::prelude::*;

verus! {

/// One unit of confidence: a confidence of `1.0` is `CONFIDENCE_SCALE`.
pub const CONFIDENCE_SCALE: u32 = 10000;

/// The default minimum confidence (0.85).
pub const DEFAULT_CONFIDENCE_THRESHOLD: u32 = 8500;

/// The epistemic state of the policy gate.
/// Transitions are one-way: Uncertain → VerifiedStable → Contradiction.
#[derive(Debug, Clone, Copy, PartialEq, Eq, Structural)]
pub enum EpistemicState {
    /// Insufficient evidence to make a decision.
    Uncertain,
    /// Evidence verified and internally consistent.
    VerifiedStable,
    /// Contradictory evidence detected — the policy gate is locked for inspection.
    Contradiction,
}

/// The outcome of a policy gate evaluation.
#[derive(Debug, Clone, Copy, PartialEq, Eq, Structural)]
pub enum Decision {
    /// Proposal meets all safety and confidence requirements.
    Approved,
    /// More information is needed before a decision can be made.
    RequestInfo,
    /// Gate deliberately withholds a decision (safety abstention).
    Abstain,
    /// Proposal is rejected outright.
    Rejected,
}

/// A proposal submitted to the policy gate for evaluation.
#[derive(Debug, Clone)]
pub struct Proposal {
    /// Unique proposal identifier.
    pub id: u64,
    /// Short description of the proposed action.
    pub action: String,
    /// Reasoning chain justifying the action.
    pub reasoning: String,
    /// Confidence in basis points (`10_000` is full confidence).
    pub confidence: u32,
    /// ISO-8601 timestamp string.
    pub timestamp: String,
    /// Additional information items, each required to be non-empty.
    pub required_info: Vec<String>,
}

impl Proposal {
    /// Create a new proposal.
    pub fn new(
        id: u64,
        action: &str,
        reasoning: &str,
        confidence: u32,
        timestamp: &str,
        required_info: Vec<String>,
    ) -> (p: Self)
        ensures
            p.id == id,
            p.action@ == action@,
            p.reasoning@ == reasoning@,
            p.confidence == confidence,
            p.timestamp@ == timestamp@,
            p.required_info@ == required_info@,
    {
        Proposal {
            id,
            action: String::from_str(action),
            reasoning: String::from_str(reasoning),
            confidence,
            timestamp: String::from_str(timestamp),
            required_info,
        }
    }
}

/// An audit entry recording a single gate evaluation.
#[derive(Debug, Clone)]
pub struct AuditEntry {
    /// The evaluated proposal.
    pub proposal: Proposal,
    /// The decision that was reached.
    pub decision: Decision,
    /// The epistemic state at the time of evaluation.
    pub state_at_evaluation: EpistemicState,
}

/// Audit entry `e` records the evaluation of a proposal with these contents
/// that reached decision `d` in state `s`.
pub open spec fn records_evaluation(
    e: AuditEntry,
    id: u64,
    action: Seq<char>,
    reasoning: Seq<char>,
    confidence: u32,
    timestamp: Seq<char>,
    required_info: Seq<String>,
    d: Decision,
    s: EpistemicState,
) -> bool {
    &&& e.proposal.id == id
    &&& e.proposal.action@ == action
    &&& e.proposal.reasoning@ == reasoning
    &&& e.proposal.confidence == confidence
    &&& e.proposal.timestamp@ == timestamp
    &&& e.proposal.required_info@ == required_info
    &&& e.decision == d
    &&& e.state_at_evaluation == s
}

/// Position of a state along the one-way chain of epistemic states.
pub open spec fn state_rank(s: EpistemicState) -> int {
    match s {
        EpistemicState::Uncertain => 0,
        EpistemicState::VerifiedStable => 1,
        EpistemicState::Contradiction => 2,
    }
}

/// The state reached from `s` on evidence that is `consistent` or not.
pub open spec fn next_state(s: EpistemicState, consistent: bool) -> EpistemicState {
    match s {
        EpistemicState::Uncertain => if consistent {
            EpistemicState::VerifiedStable
        } else {
            EpistemicState::Uncertain
        },
        EpistemicState::VerifiedStable => if consistent {
            EpistemicState::VerifiedStable
        } else {
            EpistemicState::Contradiction
        },
        EpistemicState::Contradiction => EpistemicState::Contradiction,
    }
}

/// Every required information item is non-empty.
pub open spec fn all_info_present(info: Seq<String>) -> bool {
    forall|i: int| 0 <= i < info.len() ==> (#[trigger] info[i])@.len() > 0
}

/// The decision the policy gate reaches in state `s` with minimum confidence
/// `threshold`, on a proposal with this confidence, reasoning and required
/// information, rule by rule in the documented order.
pub open spec fn verdict(
    s: EpistemicState,
    threshold: u32,
    confidence: u32,
    reasoning: Seq<char>,
    required_info: Seq<String>,
) -> Decision {
    match s {
        EpistemicState::Uncertain => Decision::Abstain,
        EpistemicState::Contradiction => Decision::Rejected,
        EpistemicState::VerifiedStable => if confidence < threshold {
            Decision::RequestInfo
        } else if reasoning.len() == 0 {
            Decision::Rejected
        } else if !all_info_present(required_info) {
            Decision::RequestInfo
        } else {
            Decision::Approved
        },
    }
}

/// The decision the policy gate reaches on `p` in state `s` with minimum
/// confidence `threshold`.
pub open spec fn decide(s: EpistemicState, threshold: u32, p: Proposal) -> Decision {
    verdict(s, threshold, p.confidence, p.reasoning@, p.required_info@)
}

/// The EIRA Policy Gate.
///
/// Evaluates proposals deterministically based on the current epistemic state,
/// a confidence threshold, and fixed safety rules.  Every evaluation is
/// appended to an audit log that offers no way to remove an entry.
pub struct PolicyGate {
    state: EpistemicState,
    audit_log: Vec<AuditEntry>,
    min_confidence_threshold: u32,
}

impl PolicyGate {
    /// The current epistemic state.
    pub closed spec fn epistemic(&self) -> EpistemicState {
        self.state
    }

    /// The audit log, oldest entry first.
    pub closed spec fn entries(&self) -> Seq<AuditEntry> {
        self.audit_log@
    }

    /// The minimum confidence, in basis points.
    pub closed spec fn min_confidence(&self) -> u32 {
        self.min_confidence_threshold
    }

    /// Create a new policy gate with the default confidence threshold (0.85).
    pub fn new() -> (g: Self)
        ensures
            g.epistemic() == EpistemicState::Uncertain,
            g.entries().len() == 0,
            g.min_confidence() == DEFAULT_CONFIDENCE_THRESHOLD,
    {
        PolicyGate {
            state: EpistemicState::Uncertain,
            audit_log: Vec::new(),
            min_confidence_threshold: DEFAULT_CONFIDENCE_THRESHOLD,
        }
    }

    /// Create a policy gate with a custom confidence threshold, which must
    /// lie in `(0, CONFIDENCE_SCALE]` (that is, in (0.0, 1.0]).
    pub fn with_threshold(threshold: u32) -> (g: Self)
        requires
            0 < threshold <= CONFIDENCE_SCALE,
        ensures
            g.epistemic() == EpistemicState::Uncertain,
            g.entries().len() == 0,
            g.min_confidence() == threshold,
    {
        PolicyGate {
            state: EpistemicState::Uncertain,
            audit_log: Vec::new(),
            min_confidence_threshold: threshold,
        }
    }

    /// Advance the epistemic state based on external evidence.
    ///
    /// - `consistent = true` advances Uncertain → VerifiedStable.
    /// - `consistent = false` records a Contradiction from VerifiedStable.
    /// - Every other combination leaves the state unchanged.
    pub fn update_state(&mut self, consistent: bool)
        ensures
            final(self).epistemic() == next_state(old(self).epistemic(), consistent),
            final(self).entries() == old(self).entries(),
            final(self).min_confidence() == old(self).min_confidence(),
    {
        self.state = match (self.state, consistent) {
            (EpistemicState::Uncertain, true) => EpistemicState::VerifiedStable,
            (EpistemicState::VerifiedStable, false) => EpistemicState::Contradiction,
            (s, _) => s,
        };
    }

    /// Return the current epistemic state.
    pub fn state(&self) -> (s: &EpistemicState)
        ensures
            *s == self.epistemic(),
    {
        &self.state
    }

    /// Return the minimum confidence, in basis points.
    pub fn confidence_threshold(&self) -> (t: u32)
        ensures
            t == self.min_confidence(),
    {
        self.min_confidence_threshold
    }

    /// Return the full audit log.
    pub fn audit_log(&self) -> (log: &[AuditEntry])
        ensures
            log@ == self.entries(),
    {
        self.audit_log.as_slice()
    }

    /// Evaluate a proposal and append the result to the audit log.
    ///
    /// - Gate is `Uncertain` → `Abstain`
    /// - Gate is in `Contradiction` → `Rejected` (locked)
    /// - Confidence below threshold → `RequestInfo`
    /// - Reasoning chain is empty → `Rejected`
    /// - Any required_info item is empty → `RequestInfo`
    /// - Otherwise → `Approved`
    pub fn evaluate(&mut self, proposal: Proposal) -> (d: Decision)
        ensures
            d == decide(old(self).epistemic(), old(self).min_confidence(), proposal),
            final(self).epistemic() == old(self).epistemic(),
            final(self).min_confidence() == old(self).min_confidence(),
            final(self).entries() == old(self).entries().push(
                (AuditEntry {
                    proposal: proposal,
                    decision: d,
                    state_at_evaluation: old(self).epistemic(),
                }),
            ),
    {
        let decision = self.compute_decision(&proposal);
        let state = self.state;
        self.audit_log.push(AuditEntry { proposal, decision, state_at_evaluation: state });
        decision
    }

    fn compute_decision(&self, proposal: &Proposal) -> (d: Decision)
        ensures
            d == decide(self.state, self.min_confidence_threshold, *proposal),
    {
        match self.state {
            EpistemicState::Uncertain => return Decision::Abstain,
            EpistemicState::Contradiction => return Decision::Rejected,
            EpistemicState::VerifiedStable => {},
        }
        if proposal.confidence < self.min_confidence_threshold {
            return Decision::RequestInfo;
        }
        if proposal.reasoning.as_str().is_empty() {
            return Decision::Rejected;
        }
        let n = proposal.required_info.len();
        let mut i: usize = 0;
        while i < n
            invariant
                n == proposal.required_info@.len(),
                i <= n,
                self.state == EpistemicState::VerifiedStable,
                proposal.confidence >= self.min_confidence_threshold,
                proposal.reasoning@.len() > 0,
                forall|j: int| 0 <= j < i ==> (#[trigger] proposal.required_info@[j])@.len() > 0,
            decreases n - i,
        {
            if proposal.required_info[i].as_str().is_empty() {
                assert(proposal.required_info@[i as int]@.len() == 0);
                return Decision::RequestInfo;
            }
            i = i + 1;
        }
        Decision::Approved
    }
}

impl Default for PolicyGate {
    fn default() -> (g: Self)
        ensures
            g.epistemic() == EpistemicState::Uncertain,
            g.entries().len() == 0,
            g.min_confidence() == DEFAULT_CONFIDENCE_THRESHOLD,
    {
        Self::new()
    }
}

/// The epistemic state only moves forward along
/// `Uncertain → VerifiedStable → Contradiction`, one step at a time, and
/// `Contradiction` is terminal: no evidence leads out of it.
pub proof fn law_state_transitions_one_way(s: EpistemicState, consistent: bool)
    ensures
        state_rank(next_state(s, consistent)) >= state_rank(s),
        state_rank(next_state(s, consistent)) <= state_rank(s) + 1,
        next_state(EpistemicState::Contradiction, consistent) == EpistemicState::Contradiction,
        next_state(s, consistent) != s ==> (s == EpistemicState::Uncertain && consistent) || (s
            == EpistemicState::VerifiedStable && !consistent),
{
}

/// A proposal is approved exactly when the policy gate is `VerifiedStable`, the
/// confidence reaches the threshold, the reasoning is non-empty and every
/// required information item is non-empty: there is no bypass path.
pub proof fn law_approval_requires_every_check(
    s: EpistemicState,
    threshold: u32,
    confidence: u32,
    reasoning: Seq<char>,
    required_info: Seq<String>,
)
    ensures
        verdict(s, threshold, confidence, reasoning, required_info) == Decision::Approved <==> (s
            == EpistemicState::VerifiedStable && confidence >= threshold && reasoning.len() > 0
            && all_info_present(required_info)),
{
}

/// An uncertain gate always abstains and a contradicted gate always
/// rejects, whatever the proposal.
pub proof fn law_state_overrides_proposal(
    threshold: u32,
    confidence: u32,
    reasoning: Seq<char>,
    required_info: Seq<String>,
)
    ensures
        verdict(EpistemicState::Uncertain, threshold, confidence, reasoning, required_info)
            == Decision::Abstain,
        verdict(EpistemicState::Contradiction, threshold, confidence, reasoning, required_info)
            == Decision::Rejected,
{
}

/// More confidence never turns an approval into something else.
pub proof fn law_approval_monotone_in_confidence(
    s: EpistemicState,
    threshold: u32,
    low: u32,
    high: u32,
    reasoning: Seq<char>,
    required_info: Seq<String>,
)
    requires
        low <= high,
        verdict(s, threshold, low, reasoning, required_info) == Decision::Approved,
    ensures
        verdict(s, threshold, high, reasoning, required_info) == Decision::Approved,
{
}

/// The same gate state, threshold and proposal contents give the same
/// decision: evaluation is deterministic and depends on nothing else.
pub proof fn law_decision_deterministic(
    s: EpistemicState,
    threshold: u32,
    p1: Proposal,
    p2: Proposal,
)
    requires
        p1.confidence == p2.confidence,
        p1.reasoning@ == p2.reasoning@,
        p1.required_info@.len() == p2.required_info@.len(),
        forall|i: int|
            0 <= i < p1.required_info@.len() ==> (#[trigger] p1.required_info@[i])@
                == p2.required_info@[i]@,
    ensures
        decide(s, threshold, p1) == decide(s, threshold, p2),
{
    if all_info_present(p1.required_info@) {
        assert forall|i: int| 0 <= i < p2.required_info@.len() implies (
        #[trigger] p2.required_info@[i])@.len() > 0 by {
            assert(p1.required_info@[i]@ == p2.required_info@[i]@);
        }
    }
    if all_info_present(p2.required_info@) {
        assert forall|i: int| 0 <= i < p1.required_info@.len() implies (
        #[trigger] p1.required_info@[i])@.len() > 0 by {
            assert(p2.required_info@[i]@.len() > 0);
        }
    }
}

/// The policy gate a sequence of evidence updates leads to.
pub open spec fn state_after(s: EpistemicState, evidence: Seq<bool>) -> EpistemicState
    decreases evidence.len(),
{
    if evidence.len() == 0 {
        s
    } else {
        next_state(state_after(s, evidence.drop_last()), evidence.last())
    }
}

/// Once the policy gate has reached `Contradiction`, no sequence of evidence
/// leads out of it, so it never approves again.
pub proof fn law_contradiction_is_terminal(evidence: Seq<bool>)
    ensures
        state_after(EpistemicState::Contradiction, evidence) == EpistemicState::Contradiction,
    decreases evidence.len(),
{
    if evidence.len() > 0 {
        law_contradiction_is_terminal(evidence.drop_last());
    }
}

} // verus!
