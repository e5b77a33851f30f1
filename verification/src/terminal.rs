//! EIRA Terminal — the text interface of the system.
//!
//! Registers users and authenticates them, submits proposals to the policy
//! gate (only for an authenticated user), and renders the decision workflow
//! and both audit trails as buffered output lines.

use vstd::prelude::*;
use crate::auth::{
    UserRegistry, is_registered_in, credentials_match, password_hash, empty_username_error,
    empty_password_error, duplicate_username_error,
};
use crate::policy_gate::{
    AuditEntry, Decision, EpistemicState, PolicyGate, Proposal, verdict, next_state,
    records_evaluation,
    DEFAULT_CONFIDENCE_THRESHOLD,
};
use crate::text::{decimal, digit_char, pad_right, push_char, push_decimal, push_padded};

verus! {

/// Prefix of an informational line.
pub open spec fn info_prefix() -> Seq<char> {
    "[INFO]"@
}

/// Prefix of a success line.
pub open spec fn ok_prefix() -> Seq<char> {
    "[ OK ]"@
}

/// Prefix of a warning line.
pub open spec fn warn_prefix() -> Seq<char> {
    "[WARN]"@
}

/// Prefix of an error line.
pub open spec fn err_prefix() -> Seq<char> {
    "[ERR ]"@
}

/// A single line of terminal output.
#[derive(Debug, Clone, PartialEq)]
pub struct TerminalLine {
    pub prefix: &'static str,
    pub content: String,
}

impl View for TerminalLine {
    type V = (Seq<char>, Seq<char>);

    open spec fn view(&self) -> (Seq<char>, Seq<char>) {
        (self.prefix@, self.content@)
    }
}

impl TerminalLine {
    /// An `[INFO]` line.
    pub fn info(content: &str) -> (l: Self)
        ensures
            l@ == (info_prefix(), content@),
    {
        TerminalLine { prefix: "[INFO]", content: String::from_str(content) }
    }

    /// An `[ OK ]` line.
    pub fn ok(content: &str) -> (l: Self)
        ensures
            l@ == (ok_prefix(), content@),
    {
        TerminalLine { prefix: "[ OK ]", content: String::from_str(content) }
    }

    /// A `[WARN]` line.
    pub fn warn(content: &str) -> (l: Self)
        ensures
            l@ == (warn_prefix(), content@),
    {
        TerminalLine { prefix: "[WARN]", content: String::from_str(content) }
    }

    /// An `[ERR ]` line.
    pub fn err(content: &str) -> (l: Self)
        ensures
            l@ == (err_prefix(), content@),
    {
        TerminalLine { prefix: "[ERR ]", content: String::from_str(content) }
    }

    /// The line as printed: prefix, one space, content.
    pub fn render(&self) -> (s: String)
        ensures
            s@ == self.prefix@ + " "@ + self.content@,
    {
        let mut s = String::from_str(self.prefix);
        s.append(" ");
        s.append(self.content.as_str());
        s
    }
}

/// The views of a sequence of lines.
pub open spec fn lines_view(ls: Seq<TerminalLine>) -> Seq<(Seq<char>, Seq<char>)> {
    ls.map_values(|l: TerminalLine| l@)
}

/// The banner emitted when a terminal opens.
pub open spec fn banner() -> Seq<(Seq<char>, Seq<char>)> {
    seq![
        (info_prefix(), "\u{2550}\u{2550}\u{2550}\u{2550}\u{2550}\u{2550}\u{2550}\u{2550}\u{2550}\u{2550}\u{2550}\u{2550}\u{2550}\u{2550}\u{2550}\u{2550}\u{2550}\u{2550}\u{2550}\u{2550}\u{2550}\u{2550}\u{2550}\u{2550}\u{2550}\u{2550}\u{2550}\u{2550}\u{2550}\u{2550}\u{2550}\u{2550}\u{2550}\u{2550}\u{2550}\u{2550}\u{2550}\u{2550}\u{2550}\u{2550}\u{2550}\u{2550}\u{2550}\u{2550}\u{2550}\u{2550}\u{2550}"@),
        (info_prefix(), " EIRA Terminal \u{2014} Epistemic Integrity Gate v0.1 "@),
        (info_prefix(), "\u{2550}\u{2550}\u{2550}\u{2550}\u{2550}\u{2550}\u{2550}\u{2550}\u{2550}\u{2550}\u{2550}\u{2550}\u{2550}\u{2550}\u{2550}\u{2550}\u{2550}\u{2550}\u{2550}\u{2550}\u{2550}\u{2550}\u{2550}\u{2550}\u{2550}\u{2550}\u{2550}\u{2550}\u{2550}\u{2550}\u{2550}\u{2550}\u{2550}\u{2550}\u{2550}\u{2550}\u{2550}\u{2550}\u{2550}\u{2550}\u{2550}\u{2550}\u{2550}\u{2550}\u{2550}\u{2550}\u{2550}"@),
        (info_prefix(), "Zero randomness. Immutable audit. Type-safe."@),
    ]
}

/// The error text of a refused registration.
pub open spec fn registration_error(username: Seq<char>, password: Seq<char>) -> Seq<char> {
    if username.len() == 0 {
        empty_username_error()
    } else if password.len() == 0 {
        empty_password_error()
    } else {
        duplicate_username_error()
    }
}

/// Label of a decision in the audit trail.
pub open spec fn decision_label(d: Decision) -> Seq<char> {
    match d {
        Decision::Approved => "APPROVED"@,
        Decision::RequestInfo => "REQUEST_INFO"@,
        Decision::Abstain => "ABSTAIN"@,
        Decision::Rejected => "REJECTED"@,
    }
}

/// Label of an epistemic state.
pub open spec fn state_label(s: EpistemicState) -> Seq<char> {
    match s {
        EpistemicState::Uncertain => "Uncertain"@,
        EpistemicState::VerifiedStable => "VerifiedStable"@,
        EpistemicState::Contradiction => "Contradiction"@,
    }
}

/// Label of an epistemic state in the status display.
pub open spec fn status_state_label(s: EpistemicState) -> Seq<char> {
    match s {
        EpistemicState::Uncertain => "Uncertain"@,
        EpistemicState::VerifiedStable => "VerifiedStable \u{2713}"@,
        EpistemicState::Contradiction => "Contradiction \u{2717}"@,
    }
}

/// `10_000 · 2^52`: a value scaled by a power of two to at least this
/// (and below twice this) has its double's 53 significant bits in the
/// integer part of the scaled value divided by `10_000`.
pub const NORMALIZED_BOUND: u128 = 45035996273704960000;

/// `(n · 2^k, s + k)` for the least `k` that brings `n · 2^k` to at least
/// `NORMALIZED_BOUND`, searching no further than `s + k == 70`.
pub open spec fn normalized(n: nat, s: nat) -> (nat, nat)
    decreases 70 - s,
{
    if n >= NORMALIZED_BOUND || s >= 70 {
        (n, s)
    } else {
        normalized(2 * n, s + 1)
    }
}

/// How the double nearest to `bp / 10_000` lies against that value, scaled
/// by `10_000 · 2^s`: positive above it, zero on it, negative below it.
/// With `bp · 2^s = n` normalised, the double is `m / 2^s` where `m` is
/// `n / 10_000` rounded to the nearest integer, ties to even.
pub open spec fn double_offset(bp: nat) -> int {
    let n = normalized(bp, 0).0;
    let q = n / 10000;
    let r = n % 10000;
    let m = if r > 5000 || (r == 5000 && q % 2 == 1) {
        q + 1
    } else {
        q
    };
    m * 10000 - n
}

/// A confidence of `bp` basis points — the double nearest to
/// `bp / 10_000` — rounded to hundredths as two-decimal formatting rounds
/// that double: to the nearer hundredth, and on a halfway value in basis
/// points by where the double lies, an exact tie going to the even
/// hundredth.
pub open spec fn hundredths(bp: nat) -> nat {
    let q = bp / 100;
    let r = bp % 100;
    if r > 50 || (r == 50 && (double_offset(bp) > 0 || (double_offset(bp) == 0 && q % 2
        == 1))) {
        q + 1
    } else {
        q
    }
}

/// A confidence in basis points rounded to two decimals, as
/// `units.hundredths`, e.g. `9200` → `0.92`, `1250` → `0.12`, `1650` → `0.17`.
pub open spec fn confidence_text(bp: nat) -> Seq<char> {
    let h = hundredths(bp);
    decimal(h / 100).push('.').push(digit_char((h % 100) / 10)).push(digit_char(h % 10))
}

/// The line reporting decision `d` on proposal `id`.
pub open spec fn decision_line(id: u64, d: Decision) -> (Seq<char>, Seq<char>) {
    let head = "#"@ + decimal(id as nat);
    match d {
        Decision::Approved => (ok_prefix(), head + " \u{2192} APPROVED"@),
        Decision::RequestInfo => (warn_prefix(), head + " \u{2192} REQUEST_INFO"@),
        Decision::Abstain => (warn_prefix(), head + " \u{2192} ABSTAIN (gate uncertain)"@),
        Decision::Rejected => (err_prefix(), head + " \u{2192} REJECTED"@),
    }
}

/// The audit-trail line of entry `e`.
pub open spec fn audit_line(e: AuditEntry) -> (Seq<char>, Seq<char>) {
    (
        info_prefix(),
        "  #"@ + pad_right(decimal(e.proposal.id as nat), 4) + " | "@ + pad_right(
            decision_label(e.decision),
            12,
        ) + " | state="@ + state_label(e.state_at_evaluation) + " | \""@ + e.proposal.action@
            + "\""@,
    )
}

/// The login-log line of record `r` = (username, timestamp, success).
pub open spec fn login_line(r: (Seq<char>, Seq<char>, bool)) -> (Seq<char>, Seq<char>) {
    (
        info_prefix(),
        "  "@ + r.0 + " | "@ + (if r.2 {
            "SUCCESS"@
        } else {
            "FAILURE"@
        }) + " | ts="@ + r.1,
    )
}

/// The four status lines.
pub open spec fn status_lines(
    s: EpistemicState,
    audit_entries: nat,
    user: Option<Seq<char>>,
    login_attempts: nat,
) -> Seq<(Seq<char>, Seq<char>)> {
    seq![
        (info_prefix(), "Gate state: "@ + status_state_label(s)),
        (info_prefix(), "Audit entries: "@ + decimal(audit_entries)),
        (info_prefix(), "Logged-in user: "@ + match user {
            Some(u) => u,
            None => "<not authenticated>"@,
        }),
        (info_prefix(), "Login attempts: "@ + decimal(login_attempts)),
    ]
}

fn decision_label_str(d: Decision) -> (s: &'static str)
    ensures
        s@ == decision_label(d),
{
    match d {
        Decision::Approved => "APPROVED",
        Decision::RequestInfo => "REQUEST_INFO",
        Decision::Abstain => "ABSTAIN",
        Decision::Rejected => "REJECTED",
    }
}

fn state_label_str(s: EpistemicState) -> (r: &'static str)
    ensures
        r@ == state_label(s),
{
    match s {
        EpistemicState::Uncertain => "Uncertain",
        EpistemicState::VerifiedStable => "VerifiedStable",
        EpistemicState::Contradiction => "Contradiction",
    }
}

fn status_state_label_str(s: EpistemicState) -> (r: &'static str)
    ensures
        r@ == status_state_label(s),
{
    match s {
        EpistemicState::Uncertain => "Uncertain",
        EpistemicState::VerifiedStable => "VerifiedStable \u{2713}",
        EpistemicState::Contradiction => "Contradiction \u{2717}",
    }
}

/// Whether a confidence of `bp` basis points ending in `50` rounds up to
/// the next hundredth.
fn halfway_rounds_up(bp: u32) -> (up: bool)
    ensures
        up == (double_offset(bp as nat) > 0 || (double_offset(bp as nat) == 0 && (bp / 100)
            % 2 == 1)),
{
    let mut n: u128 = bp as u128;
    let mut s: u32 = 0;
    while !(n >= NORMALIZED_BOUND || s >= 70)
        invariant
            s <= 70,
            n < 2 * NORMALIZED_BOUND,
            normalized(n as nat, s as nat) == normalized(bp as nat, 0),
        decreases 70 - s,
    {
        n = n * 2;
        s = s + 1;
    }
    let q: u128 = n / 10000;
    let r: u128 = n % 10000;
    let m: u128 = if r > 5000 || (r == 5000 && q % 2 == 1) {
        q + 1
    } else {
        q
    };
    let scaled: u128 = m * 10000;
    scaled > n || (scaled == n && (bp / 100) % 2 == 1)
}

/// Appends a confidence in basis points, rounded to two decimals as
/// `confidence_text` says.
pub fn push_confidence(s: &mut String, bp: u32)
    ensures
        final(s)@ == old(s)@ + confidence_text(bp as nat),
{
    let q: u64 = bp as u64 / 100;
    let r: u64 = bp as u64 % 100;
    let h: u64 = if r > 50 || (r == 50 && halfway_rounds_up(bp)) {
        q + 1
    } else {
        q
    };
    push_decimal(s, h / 100);
    push_char(s, '.');
    let tens: u8 = ((h % 100) / 10) as u8;
    let ones: u8 = (h % 10) as u8;
    push_char(s, (tens + 48) as char);
    push_char(s, (ones + 48) as char);
    assert(s@ =~= old(s)@ + confidence_text(bp as nat));
}

/// The interactive EIRA terminal session.
pub struct EiraTerminal {
    gate: PolicyGate,
    user_registry: UserRegistry,
    logged_in_user: Option<String>,
    output_buffer: Vec<TerminalLine>,
    proposal_counter: u64,
}

impl EiraTerminal {
    /// The policy gate behind the terminal.
    pub closed spec fn policy_gate(&self) -> PolicyGate {
        self.gate
    }

    /// The user registry behind the terminal.
    pub closed spec fn registry(&self) -> UserRegistry {
        self.user_registry
    }

    /// The name of the authenticated user, if a session is open.
    pub closed spec fn session_user(&self) -> Option<Seq<char>> {
        match self.logged_in_user {
            Some(u) => Some(u@),
            None => None,
        }
    }

    /// The buffered output lines as (prefix, content).
    pub closed spec fn output(&self) -> Seq<(Seq<char>, Seq<char>)> {
        lines_view(self.output_buffer@)
    }

    /// The id the next submitted proposal gets.
    pub closed spec fn next_proposal_id(&self) -> u64 {
        self.proposal_counter
    }

    fn emit(&mut self, prefix: &'static str, content: String)
        ensures
            final(self).output() == old(self).output().push((prefix@, content@)),
            final(self).gate == old(self).gate,
            final(self).user_registry == old(self).user_registry,
            final(self).logged_in_user == old(self).logged_in_user,
            final(self).proposal_counter == old(self).proposal_counter,
    {
        let ghost before = self.output_buffer@;
        self.output_buffer.push(TerminalLine { prefix, content });
        assert(lines_view(self.output_buffer@) =~= lines_view(before).push((prefix@, content@)));
    }

    /// Create a new terminal session and emit its banner.
    pub fn new() -> (t: Self)
        ensures
            t.output() == banner(),
            t.policy_gate().epistemic() == EpistemicState::Uncertain,
            t.policy_gate().entries().len() == 0,
            t.policy_gate().min_confidence() == DEFAULT_CONFIDENCE_THRESHOLD,
            t.registry().accounts().len() == 0,
            t.registry().logins().len() == 0,
            t.session_user() is None,
            t.next_proposal_id() == 1,
    {
        let mut t = EiraTerminal {
            gate: PolicyGate::new(),
            user_registry: UserRegistry::new(),
            logged_in_user: None,
            output_buffer: Vec::new(),
            proposal_counter: 1,
        };
        t.emit_banner();
        t
    }

    fn emit_banner(&mut self)
        requires
            old(self).output().len() == 0,
        ensures
            final(self).output() == banner(),
            final(self).gate == old(self).gate,
            final(self).user_registry == old(self).user_registry,
            final(self).logged_in_user == old(self).logged_in_user,
            final(self).proposal_counter == old(self).proposal_counter,
    {
        self.emit(
            "[INFO]",
            String::from_str(
                "\u{2550}\u{2550}\u{2550}\u{2550}\u{2550}\u{2550}\u{2550}\u{2550}\u{2550}\u{2550}\u{2550}\u{2550}\u{2550}\u{2550}\u{2550}\u{2550}\u{2550}\u{2550}\u{2550}\u{2550}\u{2550}\u{2550}\u{2550}\u{2550}\u{2550}\u{2550}\u{2550}\u{2550}\u{2550}\u{2550}\u{2550}\u{2550}\u{2550}\u{2550}\u{2550}\u{2550}\u{2550}\u{2550}\u{2550}\u{2550}\u{2550}\u{2550}\u{2550}\u{2550}\u{2550}\u{2550}\u{2550}",
            ),
        );
        self.emit(
            "[INFO]",
            String::from_str(" EIRA Terminal \u{2014} Epistemic Integrity Gate v0.1 "),
        );
        self.emit(
            "[INFO]",
            String::from_str(
                "\u{2550}\u{2550}\u{2550}\u{2550}\u{2550}\u{2550}\u{2550}\u{2550}\u{2550}\u{2550}\u{2550}\u{2550}\u{2550}\u{2550}\u{2550}\u{2550}\u{2550}\u{2550}\u{2550}\u{2550}\u{2550}\u{2550}\u{2550}\u{2550}\u{2550}\u{2550}\u{2550}\u{2550}\u{2550}\u{2550}\u{2550}\u{2550}\u{2550}\u{2550}\u{2550}\u{2550}\u{2550}\u{2550}\u{2550}\u{2550}\u{2550}\u{2550}\u{2550}\u{2550}\u{2550}\u{2550}\u{2550}",
            ),
        );
        self.emit("[INFO]", String::from_str("Zero randomness. Immutable audit. Type-safe."));
        assert(self.output() =~= banner());
    }

    /// Register a new user credential.
    ///
    /// Returns `true` and emits an `[ OK ]` line on success; emits an
    /// `[ERR ]` line with the registry's reason and returns `false` otherwise.
    pub fn register_user(&mut self, username: &str, password: &str) -> (ok: bool)
        ensures
            ok <==> (username@.len() > 0 && password@.len() > 0 && !is_registered_in(
                old(self).registry().accounts(),
                username@,
            )),
            final(self).registry().accounts() == (if ok {
                old(self).registry().accounts().push((username@, password_hash(password)))
            } else {
                old(self).registry().accounts()
            }),
            final(self).registry().logins() == old(self).registry().logins(),
            final(self).output() == old(self).output().push(
                if ok {
                    (ok_prefix(), "User '"@ + username@ + "' registered."@)
                } else {
                    (err_prefix(), "Registration failed: "@ + registration_error(username@, password@))
                },
            ),
            final(self).policy_gate() == old(self).policy_gate(),
            final(self).session_user() == old(self).session_user(),
            final(self).next_proposal_id() == old(self).next_proposal_id(),
    {
        match self.user_registry.register(username, password) {
            Ok(()) => {
                let mut line = String::from_str("User '");
                line.append(username);
                line.append("' registered.");
                self.emit("[ OK ]", line);
                true
            },
            Err(e) => {
                let mut line = String::from_str("Registration failed: ");
                line.append(e);
                self.emit("[ERR ]", line);
                false
            },
        }
    }

    /// Authenticate a user and open a session.
    ///
    /// Returns `true` and emits `[ OK ]` on success.  Returns `false` and
    /// emits `[ERR ]` on failure, leaving any open session as it was.
    pub fn login(&mut self, username: &str, password: &str) -> (ok: bool)
        ensures
            ok == credentials_match(
                old(self).registry().accounts(),
                username@,
                password_hash(password),
            ),
            final(self).registry().accounts() == old(self).registry().accounts(),
            final(self).registry().logins() == old(self).registry().logins().push(
                (username@, "terminal"@, ok),
            ),
            final(self).session_user() == (if ok {
                Some(username@)
            } else {
                old(self).session_user()
            }),
            final(self).output() == old(self).output().push(
                if ok {
                    (ok_prefix(), "User '"@ + username@ + "' authenticated."@)
                } else {
                    (err_prefix(), "Authentication failed for '"@ + username@ + "'."@)
                },
            ),
            final(self).policy_gate() == old(self).policy_gate(),
            final(self).next_proposal_id() == old(self).next_proposal_id(),
    {
        let success = self.user_registry.authenticate(username, password, "terminal");
        if success {
            self.logged_in_user = Some(String::from_str(username));
            let mut line = String::from_str("User '");
            line.append(username);
            line.append("' authenticated.");
            self.emit("[ OK ]", line);
        } else {
            let mut line = String::from_str("Authentication failed for '");
            line.append(username);
            line.append("'.");
            self.emit("[ERR ]", line);
        }
        success
    }

    /// Close the current session, emitting an `[INFO]` line; no-op when no
    /// session is open.
    pub fn logout(&mut self)
        ensures
            final(self).session_user() is None,
            final(self).output() == match old(self).session_user() {
                Some(u) => old(self).output().push(
                    (info_prefix(), "User '"@ + u + "' logged out."@),
                ),
                None => old(self).output(),
            },
            final(self).policy_gate() == old(self).policy_gate(),
            final(self).registry() == old(self).registry(),
            final(self).next_proposal_id() == old(self).next_proposal_id(),
    {
        if let Some(user) = self.logged_in_user.take() {
            let mut line = String::from_str("User '");
            line.append(user.as_str());
            line.append("' logged out.");
            self.emit("[INFO]", line);
        }
    }

    /// The username of the authenticated user, if any.
    pub fn current_user(&self) -> (u: Option<&str>)
        ensures
            match u {
                Some(name) => self.session_user() == Some(name@),
                None => self.session_user() is None,
            },
    {
        match &self.logged_in_user {
            Some(name) => Some(name.as_str()),
            None => None,
        }
    }

    /// Whether a user session is open.
    pub fn is_authenticated(&self) -> (b: bool)
        ensures
            b == self.session_user() is Some,
    {
        self.logged_in_user.is_some()
    }

    /// Update the epistemic state (`true`: Uncertain → VerifiedStable,
    /// `false`: VerifiedStable → Contradiction) and report the new state.
    pub fn set_epistemic_state(&mut self, consistent: bool)
        ensures
            final(self).policy_gate().epistemic() == next_state(
                old(self).policy_gate().epistemic(),
                consistent,
            ),
            final(self).policy_gate().entries() == old(self).policy_gate().entries(),
            final(self).policy_gate().min_confidence() == old(self).policy_gate().min_confidence(),
            final(self).output() == old(self).output().push(
                (
                    info_prefix(),
                    "Epistemic state \u{2192} "@ + state_label(
                        next_state(old(self).policy_gate().epistemic(), consistent),
                    ),
                ),
            ),
            final(self).registry() == old(self).registry(),
            final(self).session_user() == old(self).session_user(),
            final(self).next_proposal_id() == old(self).next_proposal_id(),
    {
        self.gate.update_state(consistent);
        let mut line = String::from_str("Epistemic state \u{2192} ");
        line.append(state_label_str(*self.gate.state()));
        self.emit("[INFO]", line);
    }

    /// Submit a proposal to the policy gate.
    ///
    /// Every call takes the next proposal id.  Authentication is required:
    /// without an open session an `[ERR ]` line is emitted and `Rejected` is
    /// returned without consulting the policy gate.
    pub fn submit(
        &mut self,
        action: &str,
        reasoning: &str,
        confidence: u32,
        required_info: Vec<String>,
    ) -> (d: Decision)
        requires
            old(self).next_proposal_id() < u64::MAX,
        ensures
            final(self).next_proposal_id() == old(self).next_proposal_id() + 1,
            final(self).registry() == old(self).registry(),
            final(self).session_user() == old(self).session_user(),
            final(self).policy_gate().epistemic() == old(self).policy_gate().epistemic(),
            final(self).policy_gate().min_confidence() == old(self).policy_gate().min_confidence(),
            old(self).session_user() is None ==> {
                &&& d == Decision::Rejected
                &&& final(self).policy_gate().entries() == old(self).policy_gate().entries()
                &&& final(self).output() == old(self).output().push(
                    (
                        err_prefix(),
                        "Proposal #"@ + decimal(old(self).next_proposal_id() as nat)
                            + ": authentication required \u{2014} login first"@,
                    ),
                )
            },
            old(self).session_user() is Some ==> {
                &&& d == verdict(
                    old(self).policy_gate().epistemic(),
                    old(self).policy_gate().min_confidence(),
                    confidence,
                    reasoning@,
                    required_info@,
                )
                &&& final(self).policy_gate().entries().len() == old(
                    self,
                ).policy_gate().entries().len() + 1
                &&& final(self).policy_gate().entries().take(
                    old(self).policy_gate().entries().len() as int,
                ) == old(self).policy_gate().entries()
                &&& records_evaluation(
                    final(self).policy_gate().entries().last(),
                    old(self).next_proposal_id(),
                    action@,
                    reasoning@,
                    confidence,
                    "terminal"@,
                    required_info@,
                    d,
                    old(self).policy_gate().epistemic(),
                )
                &&& final(self).output() == old(self).output().push(
                    (
                        info_prefix(),
                        "Proposal #"@ + decimal(old(self).next_proposal_id() as nat) + ": \""@
                            + action@ + "\"  confidence="@ + confidence_text(confidence as nat),
                    ),
                ).push(decision_line(old(self).next_proposal_id(), d))
            },
    {
        let id = self.proposal_counter;
        self.proposal_counter = self.proposal_counter + 1;
        if self.logged_in_user.is_none() {
            let mut line = String::from_str("Proposal #");
            push_decimal(&mut line, id);
            line.append(": authentication required \u{2014} login first");
            self.emit("[ERR ]", line);
            return Decision::Rejected;
        }
        let mut line = String::from_str("Proposal #");
        push_decimal(&mut line, id);
        line.append(": \"");
        line.append(action);
        line.append("\"  confidence=");
        push_confidence(&mut line, confidence);
        self.emit("[INFO]", line);
        let proposal = Proposal::new(id, action, reasoning, confidence, "terminal", required_info);
        let ghost entries_before = self.gate.entries();
        let decision = self.gate.evaluate(proposal);
        assert(self.gate.entries().take(entries_before.len() as int) =~= entries_before);
        let mut result = String::from_str("#");
        push_decimal(&mut result, id);
        match decision {
            Decision::Approved => {
                result.append(" \u{2192} APPROVED");
                self.emit("[ OK ]", result);
            },
            Decision::RequestInfo => {
                result.append(" \u{2192} REQUEST_INFO");
                self.emit("[WARN]", result);
            },
            Decision::Abstain => {
                result.append(" \u{2192} ABSTAIN (gate uncertain)");
                self.emit("[WARN]", result);
            },
            Decision::Rejected => {
                result.append(" \u{2192} REJECTED");
                self.emit("[ERR ]", result);
            },
        }
        decision
    }

    /// Render the proposal audit trail: a header and one line per entry.
    pub fn show_audit_trail(&mut self)
        ensures
            final(self).output() == old(self).output().push(
                (
                    info_prefix(),
                    "\u{2500}\u{2500} Audit Trail ("@ + decimal(
                        old(self).policy_gate().entries().len(),
                    ) + " entries) \u{2500}\u{2500}"@,
                ),
            ) + old(self).policy_gate().entries().map_values(|e: AuditEntry| audit_line(e)),
            final(self).policy_gate() == old(self).policy_gate(),
            final(self).registry() == old(self).registry(),
            final(self).session_user() == old(self).session_user(),
            final(self).next_proposal_id() == old(self).next_proposal_id(),
    {
        let n = self.gate.audit_log().len();
        let mut header = String::from_str("\u{2500}\u{2500} Audit Trail (");
        push_decimal(&mut header, n as u64);
        header.append(" entries) \u{2500}\u{2500}");
        self.emit("[INFO]", header);
        let ghost start = self.output();
        let ghost entries = self.gate.entries();
        let mut i: usize = 0;
        while i < n
            invariant
                n == entries.len(),
                i <= n,
                self.gate == old(self).gate,
                entries == self.gate.entries(),
                self.user_registry == old(self).user_registry,
                self.logged_in_user == old(self).logged_in_user,
                self.proposal_counter == old(self).proposal_counter,
                self.output() == start + entries.take(i as int).map_values(
                    |e: AuditEntry| audit_line(e),
                ),
            decreases n - i,
        {
            let entry = &self.gate.audit_log()[i];
            let mut line = String::from_str("  #");
            let id_text = crate::text::decimal_string(entry.proposal.id);
            push_padded(&mut line, id_text.as_str(), 4);
            line.append(" | ");
            push_padded(&mut line, decision_label_str(entry.decision), 12);
            line.append(" | state=");
            line.append(state_label_str(entry.state_at_evaluation));
            line.append(" | \"");
            line.append(entry.proposal.action.as_str());
            line.append("\"");
            assert(line@ =~= audit_line(entries[i as int]).1);
            self.emit("[INFO]", line);
            assert(entries.take(i + 1).map_values(|e: AuditEntry| audit_line(e)) =~= entries.take(
                i as int,
            ).map_values(|e: AuditEntry| audit_line(e)).push(audit_line(entries[i as int])));
            i = i + 1;
        }
        assert(entries.take(n as int) =~= entries);
    }

    /// Render the login audit log: a header and one line per attempt.
    pub fn show_login_log(&mut self)
        ensures
            final(self).output() == old(self).output().push(
                (
                    info_prefix(),
                    "\u{2500}\u{2500} Login Log ("@ + decimal(old(self).registry().logins().len())
                        + " entries) \u{2500}\u{2500}"@,
                ),
            ) + old(self).registry().logins().map_values(
                |r: (Seq<char>, Seq<char>, bool)| login_line(r),
            ),
            final(self).policy_gate() == old(self).policy_gate(),
            final(self).registry() == old(self).registry(),
            final(self).session_user() == old(self).session_user(),
            final(self).next_proposal_id() == old(self).next_proposal_id(),
    {
        let n = self.user_registry.login_log().len();
        let mut header = String::from_str("\u{2500}\u{2500} Login Log (");
        push_decimal(&mut header, n as u64);
        header.append(" entries) \u{2500}\u{2500}");
        self.emit("[INFO]", header);
        let ghost start = self.output();
        let ghost records = self.user_registry.logins();
        let mut i: usize = 0;
        while i < n
            invariant
                n == records.len(),
                i <= n,
                self.gate == old(self).gate,
                records == self.user_registry.logins(),
                self.user_registry == old(self).user_registry,
                self.logged_in_user == old(self).logged_in_user,
                self.proposal_counter == old(self).proposal_counter,
                self.output() == start + records.take(i as int).map_values(
                    |r: (Seq<char>, Seq<char>, bool)| login_line(r),
                ),
            decreases n - i,
        {
            let log = self.user_registry.login_log();
            let record = &log[i];
            assert(log@.map_values(|r: crate::auth::LoginRecord| r@)[i as int] == records[i as int]);
            let mut line = String::from_str("  ");
            line.append(record.username.as_str());
            line.append(" | ");
            if record.success {
                line.append("SUCCESS");
            } else {
                line.append("FAILURE");
            }
            line.append(" | ts=");
            line.append(record.timestamp.as_str());
            assert(line@ =~= login_line(records[i as int]).1);
            self.emit("[INFO]", line);
            assert(records.take(i + 1).map_values(|r: (Seq<char>, Seq<char>, bool)| login_line(r))
                =~= records.take(i as int).map_values(
                |r: (Seq<char>, Seq<char>, bool)| login_line(r),
            ).push(login_line(records[i as int])));
            i = i + 1;
        }
        assert(records.take(n as int) =~= records);
    }

    /// Display the policy gate state, the number of audit entries, the logged-in
    /// user and the number of login attempts.
    pub fn show_status(&mut self)
        ensures
            final(self).output() == old(self).output() + status_lines(
                old(self).policy_gate().epistemic(),
                old(self).policy_gate().entries().len(),
                old(self).session_user(),
                old(self).registry().logins().len(),
            ),
            final(self).policy_gate() == old(self).policy_gate(),
            final(self).registry() == old(self).registry(),
            final(self).session_user() == old(self).session_user(),
            final(self).next_proposal_id() == old(self).next_proposal_id(),
    {
        let mut l1 = String::from_str("Gate state: ");
        l1.append(status_state_label_str(*self.gate.state()));
        self.emit("[INFO]", l1);
        let mut l2 = String::from_str("Audit entries: ");
        push_decimal(&mut l2, self.gate.audit_log().len() as u64);
        self.emit("[INFO]", l2);
        let mut l3 = String::from_str("Logged-in user: ");
        match &self.logged_in_user {
            Some(u) => l3.append(u.as_str()),
            None => l3.append("<not authenticated>"),
        }
        self.emit("[INFO]", l3);
        let mut l4 = String::from_str("Login attempts: ");
        push_decimal(&mut l4, self.user_registry.login_log().len() as u64);
        self.emit("[INFO]", l4);
        assert(self.output() =~= old(self).output() + status_lines(
            old(self).policy_gate().epistemic(),
            old(self).policy_gate().entries().len(),
            old(self).session_user(),
            old(self).registry().logins().len(),
        ));
    }

    /// Return all buffered output lines and clear the buffer.
    pub fn flush(&mut self) -> (lines: Vec<TerminalLine>)
        ensures
            lines_view(lines@) == old(self).output(),
            final(self).output().len() == 0,
            final(self).policy_gate() == old(self).policy_gate(),
            final(self).registry() == old(self).registry(),
            final(self).session_user() == old(self).session_user(),
            final(self).next_proposal_id() == old(self).next_proposal_id(),
    {
        let mut lines = Vec::new();
        std::mem::swap(&mut lines, &mut self.output_buffer);
        assert(lines_view(self.output_buffer@) =~= Seq::<(Seq<char>, Seq<char>)>::empty());
        lines
    }

    /// Return all buffered output without clearing it.
    pub fn peek_output(&self) -> (lines: &[TerminalLine])
        ensures
            lines_view(lines@) == self.output(),
    {
        self.output_buffer.as_slice()
    }
}

impl Default for EiraTerminal {
    fn default() -> (t: Self)
        ensures
            t.output() == banner(),
            t.policy_gate().epistemic() == EpistemicState::Uncertain,
            t.policy_gate().entries().len() == 0,
            t.registry().accounts().len() == 0,
            t.registry().logins().len() == 0,
            t.session_user() is None,
            t.next_proposal_id() == 1,
    {
        Self::new()
    }
}

/// The decision identifier of proposal `id`: the id multiplied by a fixed
/// odd constant modulo 2^64, shown as
/// `d{7 hex digits}-e89b-12d3-a456-{12 hex digits}`.
pub open spec fn decision_id_text(id: u64) -> Seq<char> {
    let h = id.wrapping_mul(0x6c62272e07bb0142u64);
    "d"@ + crate::text::hex_fixed(((h >> 36u64) & 0x0fffffffu64) as nat, 7)
        + "-e89b-12d3-a456-"@ + crate::text::hex_fixed((h & 0xffffffffffffu64) as nat, 12)
}

/// Format a UUID-like decision identifier deterministically from an id.
pub fn format_decision_id(id: u64) -> (s: String)
    ensures
        s@ == decision_id_text(id),
{
    let h = id.wrapping_mul(0x6c62272e07bb0142u64);
    let mut s = String::from_str("d");
    crate::text::push_hex_fixed(&mut s, (h >> 36u64) & 0x0fffffffu64, 7);
    s.append("-e89b-12d3-a456-");
    crate::text::push_hex_fixed(&mut s, h & 0xffffffffffffu64, 12);
    s
}

/// The line reporting a decision shows that decision and no other: it is an
/// `[ERR ]` line exactly for `Rejected`, an `[ OK ]` line exactly for
/// `Approved`, a `[WARN]` line exactly for `RequestInfo` and `Abstain`; its
/// text is `#id → ` and the decision's audit-trail label (with a note for
/// an abstention); and different decisions give different lines.
pub proof fn law_decision_line_shows_decision(id: u64, d: Decision, e: Decision)
    ensures
        decision_line(id, d).0 == err_prefix() <==> d == Decision::Rejected,
        decision_line(id, d).0 == ok_prefix() <==> d == Decision::Approved,
        decision_line(id, d).0 == warn_prefix() <==> (d == Decision::RequestInfo || d
            == Decision::Abstain),
        decision_line(id, d).1 == "#"@ + decimal(id as nat) + " \u{2192} "@ + decision_label(d)
            + (if d == Decision::Abstain {
            " (gate uncertain)"@
        } else {
            Seq::<char>::empty()
        }),
        decision_line(id, d) == decision_line(id, e) ==> d == e,
{
    reveal_strlit("[INFO]");
    reveal_strlit("[ OK ]");
    reveal_strlit("[WARN]");
    reveal_strlit("[ERR ]");
    reveal_strlit(" \u{2192} APPROVED");
    reveal_strlit(" \u{2192} REQUEST_INFO");
    reveal_strlit(" \u{2192} ABSTAIN (gate uncertain)");
    reveal_strlit(" \u{2192} REJECTED");
    reveal_strlit(" \u{2192} ");
    reveal_strlit("APPROVED");
    reveal_strlit("REQUEST_INFO");
    reveal_strlit("ABSTAIN");
    reveal_strlit("REJECTED");
    reveal_strlit(" (gate uncertain)");
    reveal_strlit("#");
    assert(err_prefix()[1] == 'E' && warn_prefix()[1] == 'W' && ok_prefix()[1] == ' ');
    let head = "#"@ + decimal(id as nat);
    assert(" \u{2192} APPROVED"@ =~= " \u{2192} "@ + "APPROVED"@);
    assert(" \u{2192} REQUEST_INFO"@ =~= " \u{2192} "@ + "REQUEST_INFO"@);
    assert(" \u{2192} ABSTAIN (gate uncertain)"@ =~= " \u{2192} "@ + "ABSTAIN"@
        + " (gate uncertain)"@);
    assert(" \u{2192} REJECTED"@ =~= " \u{2192} "@ + "REJECTED"@);
    let tail = decision_label(d) + (if d == Decision::Abstain {
        " (gate uncertain)"@
    } else {
        Seq::<char>::empty()
    });
    assert(decision_line(id, d).1 =~= head + " \u{2192} "@ + tail);
    if decision_line(id, d) == decision_line(id, e) && d != e {
        let l = decision_line(id, e).1;
        assert(l.len() == decision_line(id, d).1.len());
        assert(l[head.len() + 3int] == decision_line(id, d).1[head.len() + 3int]);
    }
}

/// The status display names the policy gate's actual state: each status
/// label begins with the state's name, and different states have different
/// names and different status labels.
pub proof fn law_status_label_names_state(s: EpistemicState, t: EpistemicState)
    ensures
        status_state_label(s).len() >= state_label(s).len(),
        status_state_label(s).subrange(0, state_label(s).len() as int) == state_label(s),
        s != t ==> state_label(s) != state_label(t),
        s != t ==> status_state_label(s) != status_state_label(t),
{
    reveal_strlit("Uncertain");
    reveal_strlit("VerifiedStable");
    reveal_strlit("Contradiction");
    reveal_strlit("VerifiedStable \u{2713}");
    reveal_strlit("Contradiction \u{2717}");
    assert(status_state_label(s).subrange(0, state_label(s).len() as int) =~= state_label(s));
}

} // verus!
