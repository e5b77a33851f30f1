//! Orion Autonomous Builder.
//!
//! Analyses a description of a codebase, generates improvement proposals,
//! submits each one to the EIRA Policy Gate, and records every outcome in a
//! session log.  No change counts as approved without a `Decision::Approved`
//! from the policy gate, which is the sole authority.

use vstd::prelude::*;
use crate::policy_gate::{
    AuditEntry, Decision, EpistemicState, PolicyGate, Proposal, verdict, next_state,
    records_evaluation,
    DEFAULT_CONFIDENCE_THRESHOLD, CONFIDENCE_SCALE,
};
use crate::text::{decimal, push_decimal};

verus! {

/// Confidence of the "add tests" proposal (0.92).
pub const ADD_TESTS_CONFIDENCE: u32 = 9200;

/// Confidence of an "fix issue" proposal (0.88).
pub const FIX_ISSUE_CONFIDENCE: u32 = 8800;

/// A description of a single module / file in the analysed codebase.
#[derive(Debug, Clone)]
pub struct ModuleDescriptor {
    pub path: String,
    pub lines_of_code: usize,
    pub has_tests: bool,
    pub issues: Vec<String>,
}

/// High-level analysis report produced by the codebase scanner.
#[derive(Debug, Clone)]
pub struct AnalysisReport {
    pub modules: Vec<ModuleDescriptor>,
    pub total_lines: usize,
    pub modules_missing_tests: usize,
    pub total_issues: usize,
}

/// Sum of the lines of code of `ms`.
pub open spec fn lines_of(ms: Seq<ModuleDescriptor>) -> nat
    decreases ms.len(),
{
    if ms.len() == 0 {
        0
    } else {
        lines_of(ms.drop_last()) + ms.last().lines_of_code as nat
    }
}

/// Number of modules of `ms` without tests.
pub open spec fn untested_of(ms: Seq<ModuleDescriptor>) -> nat
    decreases ms.len(),
{
    if ms.len() == 0 {
        0
    } else {
        untested_of(ms.drop_last()) + if ms.last().has_tests {
            0nat
        } else {
            1nat
        }
    }
}

/// Total number of issues listed in `ms`.
pub open spec fn issues_of(ms: Seq<ModuleDescriptor>) -> nat
    decreases ms.len(),
{
    if ms.len() == 0 {
        0
    } else {
        issues_of(ms.drop_last()) + ms.last().issues@.len()
    }
}

proof fn lemma_untested_bounded(ms: Seq<ModuleDescriptor>)
    ensures
        untested_of(ms) <= ms.len(),
    decreases ms.len(),
{
    if ms.len() > 0 {
        lemma_untested_bounded(ms.drop_last());
    }
}

impl AnalysisReport {
    /// Summarise a collection of module descriptors into a report.
    pub fn from_modules(modules: Vec<ModuleDescriptor>) -> (r: Self)
        requires
            lines_of(modules@) <= usize::MAX,
            issues_of(modules@) <= usize::MAX,
        ensures
            r.modules@ == modules@,
            r.total_lines == lines_of(modules@),
            r.modules_missing_tests == untested_of(modules@),
            r.total_issues == issues_of(modules@),
    {
        let n = modules.len();
        let mut total_lines: usize = 0;
        let mut missing: usize = 0;
        let mut total_issues: usize = 0;
        let mut i: usize = 0;
        while i < n
            invariant
                n == modules@.len(),
                i <= n,
                lines_of(modules@) <= usize::MAX,
                issues_of(modules@) <= usize::MAX,
                total_lines == lines_of(modules@.take(i as int)),
                missing == untested_of(modules@.take(i as int)),
                total_issues == issues_of(modules@.take(i as int)),
            decreases n - i,
        {
            let ghost prefix = modules@.take(i as int);
            let ghost next = modules@.take(i + 1);
            assert(next.drop_last() =~= prefix);
            proof {
                lemma_sums_prefix_bounded(modules@, i + 1);
                lemma_untested_bounded(next);
            }
            total_lines = total_lines + modules[i].lines_of_code;
            if !modules[i].has_tests {
                missing = missing + 1;
            }
            total_issues = total_issues + modules[i].issues.len();
            i = i + 1;
        }
        assert(modules@.take(n as int) =~= modules@);
        AnalysisReport {
            modules,
            total_lines,
            modules_missing_tests: missing,
            total_issues,
        }
    }
}

proof fn lemma_sums_prefix_bounded(ms: Seq<ModuleDescriptor>, k: int)
    requires
        0 <= k <= ms.len(),
    ensures
        lines_of(ms.take(k)) <= lines_of(ms),
        issues_of(ms.take(k)) <= issues_of(ms),
    decreases ms.len() - k,
{
    if k < ms.len() {
        lemma_sums_prefix_bounded(ms, k + 1);
        assert(ms.take(k + 1).drop_last() =~= ms.take(k));
    } else {
        assert(ms.take(k) =~= ms);
    }
}

/// Configuration of the Orion Autonomous Builder.
#[derive(Debug, Clone)]
pub struct BuilderConfig {
    /// Minimum confidence of the policy gate, in basis points.
    pub confidence_threshold: u32,
    /// Whether to advance the epistemic state before each cycle.
    pub auto_advance_epistemic_state: bool,
}

impl Default for BuilderConfig {
    fn default() -> (c: Self)
        ensures
            c.confidence_threshold == DEFAULT_CONFIDENCE_THRESHOLD,
            c.auto_advance_epistemic_state,
    {
        BuilderConfig {
            confidence_threshold: DEFAULT_CONFIDENCE_THRESHOLD,
            auto_advance_epistemic_state: true,
        }
    }
}

/// A single entry in the builder session log.
#[derive(Debug, Clone)]
pub struct SessionLogEntry {
    pub proposal_id: u64,
    pub action: String,
    pub decision: Decision,
    pub epistemic_state: EpistemicState,
}

impl View for SessionLogEntry {
    type V = (u64, Seq<char>, Decision, EpistemicState);

    open spec fn view(&self) -> (u64, Seq<char>, Decision, EpistemicState) {
        (self.proposal_id, self.action@, self.decision, self.epistemic_state)
    }
}

/// A planned proposal: (action, reasoning, confidence).
pub type PlannedProposal = (Seq<char>, Seq<char>, u32);

/// The proposal to add tests to `n` untested modules.
pub open spec fn add_tests_proposal(n: nat) -> PlannedProposal {
    (
        "Add tests to "@ + decimal(n) + " untested modules"@,
        "Modules without tests cannot be safely modified. Adding tests is the highest-priority reliability improvement."@,
        ADD_TESTS_CONFIDENCE,
    )
}

/// The proposal to fix `issue` in the module at `path`.
pub open spec fn fix_issue_proposal(path: Seq<char>, issue: Seq<char>) -> PlannedProposal {
    (
        "Fix issue in "@ + path + ": "@ + issue,
        "Issue '"@ + issue + "' in "@ + path
            + " reduces reliability. Deterministic fix with known outcome."@,
        FIX_ISSUE_CONFIDENCE,
    )
}

/// The fix proposals of the first `k` issues of module `m`.
pub open spec fn module_fixes(m: ModuleDescriptor, k: int) -> Seq<PlannedProposal> {
    Seq::new(k as nat, |j: int| fix_issue_proposal(m.path@, m.issues@[j]@))
}

/// The fix proposals of every issue of `ms`, module by module.
pub open spec fn issue_fixes(ms: Seq<ModuleDescriptor>) -> Seq<PlannedProposal>
    decreases ms.len(),
{
    if ms.len() == 0 {
        Seq::empty()
    } else {
        issue_fixes(ms.drop_last()) + module_fixes(ms.last(), ms.last().issues@.len() as int)
    }
}

/// The proposals generated from `report`, in priority order: adding tests
/// first when some module lacks them, then one fix per issue.
pub open spec fn planned_proposals(report: AnalysisReport) -> Seq<PlannedProposal> {
    (if report.modules_missing_tests > 0 {
        seq![add_tests_proposal(report.modules_missing_tests as nat)]
    } else {
        Seq::empty()
    }) + issue_fixes(report.modules@)
}

/// The proposals generated for the modules `ms`.
pub open spec fn planned_for_modules(ms: Seq<ModuleDescriptor>) -> Seq<PlannedProposal> {
    (if untested_of(ms) > 0 {
        seq![add_tests_proposal(untested_of(ms))]
    } else {
        Seq::empty()
    }) + issue_fixes(ms)
}

/// Confidences never increase along `ps`.
pub open spec fn sorted_by_confidence(ps: Seq<PlannedProposal>) -> bool {
    forall|i: int, j: int| 0 <= i < j < ps.len() ==> (#[trigger] ps[i]).2 >= (#[trigger] ps[j]).2
}

proof fn lemma_issue_fixes_confidence(ms: Seq<ModuleDescriptor>)
    ensures
        forall|i: int|
            0 <= i < issue_fixes(ms).len() ==> (#[trigger] issue_fixes(ms)[i]).2
                == FIX_ISSUE_CONFIDENCE,
        issue_fixes(ms).len() == issues_of(ms),
    decreases ms.len(),
{
    if ms.len() > 0 {
        lemma_issue_fixes_confidence(ms.drop_last());
    }
}

/// The generated proposals are in priority order: confidences never
/// increase from one proposal to the next.
pub proof fn law_proposals_priority_ordered(report: AnalysisReport)
    ensures
        sorted_by_confidence(planned_proposals(report)),
        planned_proposals(report).len() == (if report.modules_missing_tests > 0 {
            1nat
        } else {
            0nat
        }) + issues_of(report.modules@),
{
    lemma_issue_fixes_confidence(report.modules@);
    let ps = planned_proposals(report);
    let fixes = issue_fixes(report.modules@);
    assert forall|i: int, j: int| 0 <= i < j < ps.len() implies (#[trigger] ps[i]).2 >= (
    #[trigger] ps[j]).2 by {
        if report.modules_missing_tests > 0 {
            assert(ps[j] == fixes[j - 1]);
            if i > 0 {
                assert(ps[i] == fixes[i - 1]);
            }
        } else {
            assert(ps[i] == fixes[i] && ps[j] == fixes[j]);
        }
    }
}

/// The view of generated proposals.
pub open spec fn proposals_view(v: Seq<(String, String, u32)>) -> Seq<PlannedProposal> {
    v.map_values(|p: (String, String, u32)| (p.0@, p.1@, p.2))
}

/// Session log entries recorded for `ps` submitted one after another, with
/// ids from `first_id`, to a gate in state `s` with minimum confidence `t`
/// and no required information.
pub open spec fn cycle_entries(first_id: u64, s: EpistemicState, t: u32, ps: Seq<PlannedProposal>) -> Seq<
    (u64, Seq<char>, Decision, EpistemicState),
> {
    Seq::new(
        ps.len(),
        |k: int|
            (
                (first_id + k) as u64,
                ps[k].0,
                verdict(s, t, ps[k].2, ps[k].1, Seq::<String>::empty()),
                s,
            ),
    )
}

/// The audit entries `audited` record `ps` submitted one after another,
/// with ids from `first_id` and no required information, to a policy gate
/// in state `s` with minimum confidence `t`.
pub open spec fn audits_cycle(
    audited: Seq<AuditEntry>,
    first_id: u64,
    s: EpistemicState,
    t: u32,
    ps: Seq<PlannedProposal>,
) -> bool {
    &&& audited.len() == ps.len()
    &&& forall|k: int|
        0 <= k < ps.len() ==> records_evaluation(
            #[trigger] audited[k],
            (first_id + k) as u64,
            ps[k].0,
            ps[k].1,
            ps[k].2,
            "autonomous_builder"@,
            Seq::<String>::empty(),
            verdict(s, t, ps[k].2, ps[k].1, Seq::<String>::empty()),
            s,
        )
}

/// Number of `Approved` decisions in `entries`.
pub open spec fn approved_count(entries: Seq<(u64, Seq<char>, Decision, EpistemicState)>) -> nat
    decreases entries.len(),
{
    if entries.len() == 0 {
        0
    } else {
        approved_count(entries.drop_last()) + if entries.last().2 == Decision::Approved {
            1nat
        } else {
            0nat
        }
    }
}

/// Orion Autonomous Builder — self-improvement under EIRA safety governance.
pub struct OrionAutonomousBuilder {
    config: BuilderConfig,
    gate: PolicyGate,
    session_log: Vec<SessionLogEntry>,
    next_id: u64,
}

impl OrionAutonomousBuilder {
    /// The builder's configuration.
    pub closed spec fn configuration(&self) -> BuilderConfig {
        self.config
    }

    /// The policy gate that decides on every proposal.
    pub closed spec fn policy_gate(&self) -> PolicyGate {
        self.gate
    }

    /// The session log as (proposal id, action, decision, state), oldest
    /// first.
    pub closed spec fn sessions(&self) -> Seq<(u64, Seq<char>, Decision, EpistemicState)> {
        self.session_log@.map_values(|e: SessionLogEntry| e@)
    }

    /// The id the next proposal will get.
    pub closed spec fn next_proposal_id(&self) -> u64 {
        self.next_id
    }

    /// Create a new builder with the given configuration, whose threshold
    /// must lie in `(0, CONFIDENCE_SCALE]`.
    pub fn new(config: BuilderConfig) -> (b: Self)
        requires
            0 < config.confidence_threshold <= CONFIDENCE_SCALE,
        ensures
            b.configuration() == config,
            b.policy_gate().epistemic() == EpistemicState::Uncertain,
            b.policy_gate().entries().len() == 0,
            b.policy_gate().min_confidence() == config.confidence_threshold,
            b.sessions().len() == 0,
            b.next_proposal_id() == 1,
    {
        let gate = PolicyGate::with_threshold(config.confidence_threshold);
        let b = OrionAutonomousBuilder { config, gate, session_log: Vec::new(), next_id: 1 };
        assert(b.sessions() =~= Seq::<(u64, Seq<char>, Decision, EpistemicState)>::empty());
        b
    }

    /// Update the policy gate's epistemic state; `consistent = true` advances it to
    /// `VerifiedStable` from `Uncertain`.
    pub fn initialise_epistemic_state(&mut self, consistent: bool)
        ensures
            final(self).policy_gate().epistemic() == next_state(
                old(self).policy_gate().epistemic(),
                consistent,
            ),
            final(self).policy_gate().min_confidence() == old(self).policy_gate().min_confidence(),
            final(self).policy_gate().entries() == old(self).policy_gate().entries(),
            final(self).sessions() == old(self).sessions(),
            final(self).next_proposal_id() == old(self).next_proposal_id(),
            final(self).configuration() == old(self).configuration(),
    {
        self.gate.update_state(consistent);
    }

    /// Analyse a list of module descriptors and return an `AnalysisReport`.
    pub fn analyse(&self, modules: Vec<ModuleDescriptor>) -> (r: AnalysisReport)
        requires
            lines_of(modules@) <= usize::MAX,
            issues_of(modules@) <= usize::MAX,
        ensures
            r.modules@ == modules@,
            r.total_lines == lines_of(modules@),
            r.modules_missing_tests == untested_of(modules@),
            r.total_issues == issues_of(modules@),
    {
        AnalysisReport::from_modules(modules)
    }

    /// Generate improvement proposals from an analysis report, as
    /// (action, reasoning, confidence), highest confidence first.
    pub fn generate_proposals(&self, report: &AnalysisReport) -> (ps: Vec<(String, String, u32)>)
        ensures
            proposals_view(ps@) == planned_proposals(*report),
            sorted_by_confidence(proposals_view(ps@)),
    {
        generate_proposal_list(report)
    }

    /// Submit a proposal to the policy gate and record the outcome in the
    /// session log.
    pub fn submit_proposal(
        &mut self,
        action: String,
        reasoning: String,
        confidence: u32,
        required_info: Vec<String>,
    ) -> (d: Decision)
        requires
            old(self).next_proposal_id() < u64::MAX,
        ensures
            d == verdict(
                old(self).policy_gate().epistemic(),
                old(self).policy_gate().min_confidence(),
                confidence,
                reasoning@,
                required_info@,
            ),
            final(self).sessions() == old(self).sessions().push(
                (
                    old(self).next_proposal_id(),
                    action@,
                    d,
                    old(self).policy_gate().epistemic(),
                ),
            ),
            final(self).next_proposal_id() == old(self).next_proposal_id() + 1,
            final(self).policy_gate().epistemic() == old(self).policy_gate().epistemic(),
            final(self).policy_gate().min_confidence() == old(self).policy_gate().min_confidence(),
            final(self).policy_gate().entries().len() == old(self).policy_gate().entries().len()
                + 1,
            final(self).policy_gate().entries().take(old(self).policy_gate().entries().len() as int)
                == old(self).policy_gate().entries(),
            records_evaluation(
                final(self).policy_gate().entries().last(),
                old(self).next_proposal_id(),
                action@,
                reasoning@,
                confidence,
                "autonomous_builder"@,
                required_info@,
                d,
                old(self).policy_gate().epistemic(),
            ),
            final(self).configuration() == old(self).configuration(),
    {
        let id = self.next_id;
        self.next_id = self.next_id + 1;
        let proposal = Proposal::new(
            id,
            action.as_str(),
            reasoning.as_str(),
            confidence,
            "autonomous_builder",
            required_info,
        );
        let ghost entries_before = self.gate.entries();
        let decision = self.gate.evaluate(proposal);
        assert(self.gate.entries().take(entries_before.len() as int) =~= entries_before);
        let state = *self.gate.state();
        let ghost before = self.sessions();
        self.session_log.push(
            SessionLogEntry { proposal_id: id, action, decision, epistemic_state: state },
        );
        assert(self.sessions() =~= before.push((id, action@, decision, state)));
        decision
    }

    /// Run a full analysis-and-proposal cycle on the given modules: advance
    /// the epistemic state first when so configured, then submit every
    /// generated proposal in priority order.
    ///
    /// Returns the number of approved proposals.
    pub fn run_cycle(&mut self, modules: Vec<ModuleDescriptor>) -> (approved: usize)
        requires
            lines_of(modules@) <= usize::MAX,
            issues_of(modules@) <= usize::MAX,
            old(self).next_proposal_id() + planned_for_modules(modules@).len() <= u64::MAX,
        ensures
            ({
                let s = if old(self).configuration().auto_advance_epistemic_state {
                    next_state(old(self).policy_gate().epistemic(), true)
                } else {
                    old(self).policy_gate().epistemic()
                };
                let planned = planned_for_modules(modules@);
                let added = cycle_entries(
                    old(self).next_proposal_id(),
                    s,
                    old(self).policy_gate().min_confidence(),
                    planned,
                );
                &&& final(self).policy_gate().epistemic() == s
                &&& final(self).sessions() == old(self).sessions() + added
                &&& approved == approved_count(added)
                &&& final(self).next_proposal_id() == old(self).next_proposal_id() + planned.len()
                &&& final(self).policy_gate().entries().len() == old(self).policy_gate().entries().len()
                    + planned.len()
                &&& audits_cycle(
                    final(self).policy_gate().entries().subrange(
                        old(self).policy_gate().entries().len() as int,
                        final(self).policy_gate().entries().len() as int,
                    ),
                    old(self).next_proposal_id(),
                    s,
                    old(self).policy_gate().min_confidence(),
                    planned,
                )
            }),
            final(self).policy_gate().entries().take(old(self).policy_gate().entries().len() as int)
                == old(self).policy_gate().entries(),
            final(self).policy_gate().min_confidence() == old(self).policy_gate().min_confidence(),
            final(self).configuration() == old(self).configuration(),
    {
        if self.config.auto_advance_epistemic_state {
            self.initialise_epistemic_state(true);
        }
        let ghost s = self.gate.epistemic();
        let ghost t = self.gate.min_confidence();
        let ghost first_id = self.next_id;
        let ghost start = self.sessions();
        let ghost start_entries = self.gate.entries();
        let report = self.analyse(modules);
        let proposals = self.generate_proposals(&report);
        let ghost planned = proposals_view(proposals@);
        proof {
            law_proposals_priority_ordered(report);
            assert(planned =~= planned_for_modules(modules@));
        }
        let n = proposals.len();
        let mut approved: usize = 0;
        let mut k: usize = 0;
        assert(start + cycle_entries(first_id, s, t, planned.take(0)) =~= start);
        assert(self.gate.entries().subrange(
            start_entries.len() as int,
            self.gate.entries().len() as int,
        ) =~= Seq::<AuditEntry>::empty());
        while k < n
            invariant
                n == planned.len(),
                planned == proposals_view(proposals@),
                k <= n,
                approved <= k,
                first_id + n <= u64::MAX,
                self.next_id == first_id + k,
                self.gate.epistemic() == s,
                self.gate.min_confidence() == t,
                self.config == old(self).config,
                self.sessions() == start + cycle_entries(first_id, s, t, planned.take(k as int)),
                self.gate.entries().len() == start_entries.len() + k,
                self.gate.entries().take(start_entries.len() as int) == start_entries,
                audits_cycle(
                    self.gate.entries().subrange(
                        start_entries.len() as int,
                        self.gate.entries().len() as int,
                    ),
                    first_id,
                    s,
                    t,
                    planned.take(k as int),
                ),
                approved == approved_count(cycle_entries(first_id, s, t, planned.take(k as int))),
            decreases n - k,
        {
            let action = proposals[k].0.clone();
            let reasoning = proposals[k].1.clone();
            let confidence = proposals[k].2;
            let ghost before = self.sessions();
            let ghost entries_before = self.gate.entries();
            let d = self.submit_proposal(action, reasoning, confidence, Vec::new());
            assert(self.gate.entries().take(start_entries.len() as int) =~= start_entries) by {
                assert(self.gate.entries().take(entries_before.len() as int) == entries_before);
                assert forall|x: int| 0 <= x < start_entries.len() implies self.gate.entries()[x]
                    == start_entries[x] by {
                    assert(self.gate.entries().take(entries_before.len() as int)[x]
                        == self.gate.entries()[x]);
                    assert(entries_before.take(start_entries.len() as int)[x] == entries_before[x]);
                }
            }
            proof {
                let b = start_entries.len() as int;
                let old_new = entries_before.subrange(b, entries_before.len() as int);
                let now = self.gate.entries();
                let now_new = now.subrange(b, now.len() as int);
                let ps = planned.take(k + 1);
                assert(now.take(entries_before.len() as int) == entries_before);
                assert forall|j: int| 0 <= j < ps.len() implies records_evaluation(
                    #[trigger] now_new[j],
                    (first_id + j) as u64,
                    ps[j].0,
                    ps[j].1,
                    ps[j].2,
                    "autonomous_builder"@,
                    Seq::<String>::empty(),
                    verdict(s, t, ps[j].2, ps[j].1, Seq::<String>::empty()),
                    s,
                ) by {
                    if j < k {
                        assert(now_new[j] == now[b + j]);
                        assert(now.take(entries_before.len() as int)[b + j] == now[b + j]);
                        assert(old_new[j] == entries_before[b + j]);
                        assert(planned.take(k as int)[j] == ps[j]);
                        assert(records_evaluation(
                            old_new[j],
                            (first_id + j) as u64,
                            planned.take(k as int)[j].0,
                            planned.take(k as int)[j].1,
                            planned.take(k as int)[j].2,
                            "autonomous_builder"@,
                            Seq::<String>::empty(),
                            verdict(
                                s,
                                t,
                                planned.take(k as int)[j].2,
                                planned.take(k as int)[j].1,
                                Seq::<String>::empty(),
                            ),
                            s,
                        ));
                    } else {
                        assert(now_new[j] == now.last());
                    }
                }
                assert(audits_cycle(now_new, first_id, s, t, ps));
            }
            let ghost entry = ((first_id + k) as u64, planned[k as int].0, d, s);
            assert(d == verdict(s, t, planned[k as int].2, planned[k as int].1, Seq::<String>::empty()));
            let ghost prev = cycle_entries(first_id, s, t, planned.take(k as int));
            let ghost next = cycle_entries(first_id, s, t, planned.take(k + 1));
            assert(next =~= prev.push(entry));
            assert(next.drop_last() =~= prev);
            assert(self.sessions() =~= start + next);
            if d == Decision::Approved {
                approved = approved + 1;
            }
            k = k + 1;
        }
        assert(planned.take(n as int) =~= planned);
        approved
    }

    /// Return the session log.
    pub fn session_log(&self) -> (log: &[SessionLogEntry])
        ensures
            log@.map_values(|e: SessionLogEntry| e@) == self.sessions(),
    {
        self.session_log.as_slice()
    }

    /// Return the current epistemic state of the policy gate.
    pub fn epistemic_state(&self) -> (s: &EpistemicState)
        ensures
            *s == self.policy_gate().epistemic(),
    {
        self.gate.state()
    }
}

/// Builds the proposal list of `report` in priority order.
fn generate_proposal_list(report: &AnalysisReport) -> (ps: Vec<(String, String, u32)>)
    ensures
        proposals_view(ps@) == planned_proposals(*report),
        sorted_by_confidence(proposals_view(ps@)),
{
    let mut ps: Vec<(String, String, u32)> = Vec::new();
    if report.modules_missing_tests > 0 {
        let mut action = String::from_str("Add tests to ");
        push_decimal(&mut action, report.modules_missing_tests as u64);
        action.append(" untested modules");
        let reasoning = String::from_str(
            "Modules without tests cannot be safely modified. Adding tests is the highest-priority reliability improvement.",
        );
        ps.push((action, reasoning, ADD_TESTS_CONFIDENCE));
    }
    let ghost head = proposals_view(ps@);
    assert(head =~= (if report.modules_missing_tests > 0 {
        seq![add_tests_proposal(report.modules_missing_tests as nat)]
    } else {
        Seq::empty()
    }));
    let ghost ms = report.modules@;
    let n = report.modules.len();
    let mut i: usize = 0;
    assert(ms.take(0) =~= Seq::<ModuleDescriptor>::empty());
    assert(head + issue_fixes(ms.take(0)) =~= head);
    while i < n
        invariant
            n == ms.len(),
            ms == report.modules@,
            i <= n,
            proposals_view(ps@) == head + issue_fixes(ms.take(i as int)),
        decreases n - i,
    {
        let m = &report.modules[i];
        let k = m.issues.len();
        let mut j: usize = 0;
        assert(module_fixes(*m, 0) =~= Seq::<PlannedProposal>::empty());
        assert(proposals_view(ps@) =~= head + issue_fixes(ms.take(i as int)) + module_fixes(*m, 0));
        while j < k
            invariant
                n == ms.len(),
                ms == report.modules@,
                i < n,
                *m == ms[i as int],
                k == m.issues@.len(),
                j <= k,
                proposals_view(ps@) == head + issue_fixes(ms.take(i as int)) + module_fixes(
                    *m,
                    j as int,
                ),
            decreases k - j,
        {
            let mut action = String::from_str("Fix issue in ");
            action.append(m.path.as_str());
            action.append(": ");
            action.append(m.issues[j].as_str());
            let mut reasoning = String::from_str("Issue '");
            reasoning.append(m.issues[j].as_str());
            reasoning.append("' in ");
            reasoning.append(m.path.as_str());
            reasoning.append(" reduces reliability. Deterministic fix with known outcome.");
            let ghost before = ps@;
            ps.push((action, reasoning, FIX_ISSUE_CONFIDENCE));
            assert(proposals_view(ps@) =~= proposals_view(before).push(
                fix_issue_proposal(m.path@, m.issues@[j as int]@),
            ));
            assert(module_fixes(*m, j + 1) =~= module_fixes(*m, j as int).push(
                fix_issue_proposal(m.path@, m.issues@[j as int]@),
            ));
            assert(proposals_view(ps@) =~= head + issue_fixes(ms.take(i as int)) + module_fixes(
                *m,
                j + 1,
            ));
            j = j + 1;
        }
        assert(ms.take(i + 1).drop_last() =~= ms.take(i as int));
        assert(ms.take(i + 1).last() == ms[i as int]);
        assert(proposals_view(ps@) =~= head + issue_fixes(ms.take(i + 1)));
        i = i + 1;
    }
    assert(ms.take(n as int) =~= ms);
    proof {
        law_proposals_priority_ordered(*report);
    }
    ps
}

impl Default for OrionAutonomousBuilder {
    fn default() -> (b: Self)
        ensures
            b.configuration().confidence_threshold == DEFAULT_CONFIDENCE_THRESHOLD,
            b.configuration().auto_advance_epistemic_state,
            b.policy_gate().epistemic() == EpistemicState::Uncertain,
            b.policy_gate().entries().len() == 0,
            b.policy_gate().min_confidence() == DEFAULT_CONFIDENCE_THRESHOLD,
            b.sessions().len() == 0,
            b.next_proposal_id() == 1,
    {
        Self::new(BuilderConfig::default())
    }
}

/// No proposal of a cycle is approved unless the policy gate is `VerifiedStable`
/// during the cycle: with the policy gate in any other state the cycle approves
/// nothing.
pub proof fn law_no_approval_without_verified_stable_state(
    first_id: u64,
    s: EpistemicState,
    t: u32,
    ps: Seq<PlannedProposal>,
)
    requires
        s != EpistemicState::VerifiedStable,
    ensures
        approved_count(cycle_entries(first_id, s, t, ps)) == 0,
    decreases ps.len(),
{
    if ps.len() > 0 {
        law_no_approval_without_verified_stable_state(first_id, s, t, ps.drop_last());
        assert(cycle_entries(first_id, s, t, ps).drop_last() =~= cycle_entries(
            first_id,
            s,
            t,
            ps.drop_last(),
        ));
    }
}

/// The count of approvals never exceeds the number of entries.
pub proof fn law_approved_count_bounded(entries: Seq<(u64, Seq<char>, Decision, EpistemicState)>)
    ensures
        approved_count(entries) <= entries.len(),
    decreases entries.len(),
{
    if entries.len() > 0 {
        law_approved_count_bounded(entries.drop_last());
    }
}

/// A cycle records its proposals under consecutive ids, in priority order,
/// each with the decision the policy gate reached and the state it was in.
pub proof fn law_cycle_ids_consecutive(
    first_id: u64,
    s: EpistemicState,
    t: u32,
    ps: Seq<PlannedProposal>,
    k: int,
)
    requires
        0 <= k < ps.len(),
        first_id + ps.len() <= u64::MAX,
    ensures
        cycle_entries(first_id, s, t, ps)[k].0 == first_id + k,
        cycle_entries(first_id, s, t, ps)[k].1 == ps[k].0,
        cycle_entries(first_id, s, t, ps)[k].3 == s,
{
}

proof fn lemma_issue_fix_at(ms: Seq<ModuleDescriptor>, i: int, j: int)
    requires
        0 <= i < ms.len(),
        0 <= j < ms[i].issues@.len(),
    ensures
        issues_of(ms.take(i)) + j < issue_fixes(ms).len(),
        issue_fixes(ms)[issues_of(ms.take(i)) + j] == fix_issue_proposal(
            ms[i].path@,
            ms[i].issues@[j]@,
        ),
    decreases ms.len(),
{
    let prev = ms.drop_last();
    lemma_issue_fixes_confidence(prev);
    lemma_issue_fixes_confidence(ms);
    if i == ms.len() - 1 {
        assert(ms.take(i) =~= prev);
    } else {
        lemma_issue_fix_at(prev, i, j);
        assert(prev.take(i) =~= ms.take(i));
        assert(prev[i] == ms[i]);
    }
}

/// Every fix proposal is about one issue, named in both its action and its
/// reasoning: issue `j` of module `i` is fixed by the proposal after the
/// add-tests proposal (if any) and the fixes of all earlier issues, whose
/// action is `Fix issue in <path>: <issue>` and whose reasoning is
/// `Issue '<issue>' in <path> reduces reliability. ...`, at confidence 0.88.
/// When a module lacks tests, the first proposal adds tests to all of them.
pub proof fn law_fix_proposals_name_their_issue(report: AnalysisReport, i: int, j: int)
    requires
        0 <= i < report.modules@.len(),
        0 <= j < report.modules@[i].issues@.len(),
    ensures
        ({
            let m = report.modules@[i];
            let issue = m.issues@[j]@;
            let k = (if report.modules_missing_tests > 0 {
                1int
            } else {
                0int
            }) + issues_of(report.modules@.take(i)) + j;
            &&& 0 <= k < planned_proposals(report).len()
            &&& planned_proposals(report)[k] == (
                "Fix issue in "@ + m.path@ + ": "@ + issue,
                "Issue '"@ + issue + "' in "@ + m.path@
                    + " reduces reliability. Deterministic fix with known outcome."@,
                8800u32,
            )
        }),
        report.modules_missing_tests > 0 ==> planned_proposals(report)[0] == (
            "Add tests to "@ + decimal(report.modules_missing_tests as nat)
                + " untested modules"@,
            "Modules without tests cannot be safely modified. Adding tests is the highest-priority reliability improvement."@,
            9200u32,
        ),
{
    lemma_issue_fix_at(report.modules@, i, j);
}

} // verus!
