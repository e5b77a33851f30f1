//! Nexus Precausal Buffer — deterministic forward inference.
//!
//! The buffer keeps a rolling window of the most recent `StateSnapshot`s and
//! predicts the next state by consulting its inference rules in the order
//! they were registered: the first rule that has enough history and whose
//! precondition holds produces the prediction.  Every inference pass is
//! appended to the inference log.
//!
//! The numeric payload of a snapshot is a type parameter `V`: the buffer
//! never reads it, only the rules do.

use vstd::prelude::*;
use std::collections::VecDeque;

verus! {

/// A snapshot of a system state at a logical tick.
#[derive(Debug, Clone, PartialEq)]
pub struct StateSnapshot<V> {
    /// Monotonically increasing logical clock (integer ticks, not wall-time).
    pub tick: u64,
    /// State vector — interpretation is domain-specific.
    pub values: V,
    /// Free-form label for debugging / audit purposes.
    pub label: String,
}

impl<V> StateSnapshot<V> {
    /// Create a snapshot.
    pub fn new(tick: u64, values: V, label: &str) -> (s: Self)
        ensures
            s.tick == tick,
            s.values == values,
            s.label@ == label@,
    {
        StateSnapshot { tick, values, label: String::from_str(label) }
    }
}

/// Outcome of a forward-inference pass.
#[derive(Debug, Clone, PartialEq)]
pub enum InferenceResult<S> {
    /// A prediction was produced.
    Predicted(S),
    /// The buffer does not yet hold enough history.
    InsufficientHistory,
    /// No inference rule matched the current history.
    NoRuleMatched,
}

/// A deterministic inference rule: `precondition` tells whether the rule
/// applies to a history, `apply` produces the predicted next snapshot.
pub struct InferenceRule<P, A> {
    /// Human-readable name.
    pub name: String,
    /// Minimum history length required.
    pub min_history: usize,
    /// Precondition function.
    pub precondition: P,
    /// Projection function.
    pub apply: A,
}

impl<P, A> InferenceRule<P, A> {
    /// Create a rule.
    pub fn new(name: &str, min_history: usize, precondition: P, apply: A) -> (r: Self)
        ensures
            r.name@ == name@,
            r.min_history == min_history,
            r.precondition == precondition,
            r.apply == apply,
    {
        InferenceRule { name: String::from_str(name), min_history, precondition, apply }
    }
}

/// Both functions of `r` may be called on every history that is long
/// enough for it.
pub open spec fn rule_callable<V, P, A>(r: InferenceRule<P, A>) -> bool where
    P: Fn(&[StateSnapshot<V>]) -> bool,
    A: Fn(&[StateSnapshot<V>]) -> StateSnapshot<V>,
 {
    forall|h: &[StateSnapshot<V>]|
        h@.len() >= r.min_history ==> call_requires(r.precondition, (h,)) && call_requires(
            r.apply,
            (h,),
        )
}

/// Rule `r` has enough history and its precondition can answer `answer` on
/// history `h`.
pub open spec fn precondition_says<V, P, A>(
    r: InferenceRule<P, A>,
    h: &[StateSnapshot<V>],
    answer: bool,
) -> bool where
    P: Fn(&[StateSnapshot<V>]) -> bool,
    A: Fn(&[StateSnapshot<V>]) -> StateSnapshot<V>,
 {
    h@.len() >= r.min_history && call_ensures(r.precondition, (h,), answer)
}

/// Rule `i` is the first of `rules` that applies to `h`: every earlier rule
/// lacks history or its precondition answered `false`.
pub open spec fn first_match<V, P, A>(
    rules: Seq<InferenceRule<P, A>>,
    h: &[StateSnapshot<V>],
    i: int,
) -> bool where
    P: Fn(&[StateSnapshot<V>]) -> bool,
    A: Fn(&[StateSnapshot<V>]) -> StateSnapshot<V>,
 {
    &&& 0 <= i < rules.len()
    &&& precondition_says(rules[i], h, true)
    &&& forall|j: int|
        0 <= j < i ==> h@.len() < (#[trigger] rules[j]).min_history || precondition_says(
            rules[j],
            h,
            false,
        )
}

/// No rule of `rules` applies to `h`.
pub open spec fn none_match<V, P, A>(rules: Seq<InferenceRule<P, A>>, h: &[StateSnapshot<V>]) -> bool where
    P: Fn(&[StateSnapshot<V>]) -> bool,
    A: Fn(&[StateSnapshot<V>]) -> StateSnapshot<V>,
 {
    forall|j: int|
        0 <= j < rules.len() ==> h@.len() < (#[trigger] rules[j]).min_history
            || precondition_says(rules[j], h, false)
}

/// Some rule of `rules` needs more than `n` snapshots.
pub open spec fn some_rule_needs_more<P, A>(rules: Seq<InferenceRule<P, A>>, n: nat) -> bool {
    exists|j: int| 0 <= j < rules.len() && n < (#[trigger] rules[j]).min_history
}

/// What an inference pass on history `h` with `rules` may return.
pub open spec fn inference_outcome<V, P, A>(
    rules: Seq<InferenceRule<P, A>>,
    h: &[StateSnapshot<V>],
    r: InferenceResult<StateSnapshot<V>>,
) -> bool where
    P: Fn(&[StateSnapshot<V>]) -> bool,
    A: Fn(&[StateSnapshot<V>]) -> StateSnapshot<V>,
 {
    match r {
        InferenceResult::Predicted(s) => h@.len() > 0 && exists|i: int|
            first_match(rules, h, i) && call_ensures(rules[i].apply, (h,), s),
        InferenceResult::InsufficientHistory => h@.len() == 0 || (none_match(rules, h)
            && some_rule_needs_more(rules, h@.len())),
        InferenceResult::NoRuleMatched => h@.len() > 0 && none_match(rules, h)
            && !some_rule_needs_more(rules, h@.len()),
    }
}

/// `c` is a copy of snapshot `a`: the same tick and label and a clone of
/// the values (`V`'s own `clone`, or the values themselves).
pub open spec fn is_snapshot_copy<V: Clone>(a: StateSnapshot<V>, c: StateSnapshot<V>) -> bool {
    c.tick == a.tick && c.label == a.label && cloned(a.values, c.values)
}

/// A copy of a snapshot.
fn copy_snapshot<V: Clone>(a: &StateSnapshot<V>) -> (c: StateSnapshot<V>)
    ensures
        is_snapshot_copy(*a, c),
{
    StateSnapshot { tick: a.tick, values: a.values.clone(), label: a.label.clone() }
}

/// A view of a deque's contents as one slice, oldest first.
///
/// Trusted: calls `VecDeque::make_contiguous` from std, which rearranges
/// the deque's storage into one contiguous slice and returns it, without
/// changing the order of the elements; the contract says the slice holds
/// the deque's elements in order and the deque's contents are unchanged.
#[verifier::external_body]
fn contiguous<T>(deque: &mut VecDeque<T>) -> (s: &[T])
    ensures
        s@ == old(deque)@,
        final(deque)@ == old(deque)@,
{
    deque.make_contiguous()
}

/// `c` is a copy of inference result `r`: the same variant and, for a
/// prediction, a copy of the predicted snapshot.
pub open spec fn is_copy_of<V: Clone>(
    r: InferenceResult<StateSnapshot<V>>,
    c: InferenceResult<StateSnapshot<V>>,
) -> bool {
    match r {
        InferenceResult::Predicted(a) => c matches InferenceResult::Predicted(b)
            && is_snapshot_copy(a, b),
        InferenceResult::InsufficientHistory => c is InsufficientHistory,
        InferenceResult::NoRuleMatched => c is NoRuleMatched,
    }
}

/// A copy of an inference result, for the inference log.
fn copy_result<V: Clone>(r: &InferenceResult<StateSnapshot<V>>) -> (c: InferenceResult<
    StateSnapshot<V>,
>)
    ensures
        is_copy_of(*r, c),
{
    match r {
        InferenceResult::Predicted(s) => InferenceResult::Predicted(copy_snapshot(s)),
        InferenceResult::InsufficientHistory => InferenceResult::InsufficientHistory,
        InferenceResult::NoRuleMatched => InferenceResult::NoRuleMatched,
    }
}

/// The label logged for result `r`.
pub open spec fn outcome_label<S>(r: InferenceResult<S>) -> Seq<char> {
    match r {
        InferenceResult::Predicted(_) => "matched"@,
        InferenceResult::InsufficientHistory => "insufficient_history"@,
        InferenceResult::NoRuleMatched => "no_rule"@,
    }
}

/// The tick logged for an inference pass on history `h`: that of the newest
/// snapshot, or 0 for an empty history.
pub open spec fn logged_tick<V>(h: Seq<StateSnapshot<V>>) -> u64 {
    if h.len() == 0 {
        0
    } else {
        h.last().tick
    }
}

/// The history after pushing `s` onto `h` with room for `capacity`
/// snapshots: the oldest is dropped when the buffer is full.
pub open spec fn pushed<V>(h: Seq<StateSnapshot<V>>, capacity: nat, s: StateSnapshot<V>) -> Seq<
    StateSnapshot<V>,
> {
    if h.len() >= capacity {
        h.drop_first().push(s)
    } else {
        h.push(s)
    }
}

/// Nexus Precausal Buffer.
///
/// Stores up to `capacity` snapshots and runs its rules in registration
/// order.
pub struct PrecausalBuffer<V, P, A> {
    capacity: usize,
    history: VecDeque<StateSnapshot<V>>,
    rules: Vec<InferenceRule<P, A>>,
    inference_log: Vec<(u64, String, InferenceResult<StateSnapshot<V>>)>,
}

impl<V, P, A> PrecausalBuffer<V, P, A> where
    P: Fn(&[StateSnapshot<V>]) -> bool,
    A: Fn(&[StateSnapshot<V>]) -> StateSnapshot<V>,
    V: Clone,
 {
    /// The number of snapshots the buffer keeps.
    pub closed spec fn max_history(&self) -> nat {
        self.capacity as nat
    }

    /// The retained snapshots, oldest first.
    pub closed spec fn snapshots(&self) -> Seq<StateSnapshot<V>> {
        self.history@
    }

    /// The registered rules, in priority order.
    pub closed spec fn registered_rules(&self) -> Seq<InferenceRule<P, A>> {
        self.rules@
    }

    /// The inference log as (tick, label, result), oldest first.
    pub closed spec fn log_entries(&self) -> Seq<(u64, Seq<char>, InferenceResult<StateSnapshot<V>>)> {
        self.inference_log@.map_values(
            |e: (u64, String, InferenceResult<StateSnapshot<V>>)| (e.0, e.1@, e.2),
        )
    }

    /// The buffer is well formed: a positive capacity that the history
    /// respects, and rules that may be called on long enough histories.
    pub closed spec fn wf(&self) -> bool {
        &&& self.capacity > 0
        &&& self.history@.len() <= self.capacity
        &&& forall|i: int| 0 <= i < self.rules@.len() ==> rule_callable(#[trigger] self.rules@[i])
    }

    /// Create a buffer that keeps `capacity` snapshots; `capacity` must be
    /// positive.
    pub fn new(capacity: usize) -> (b: Self)
        requires
            capacity > 0,
        ensures
            b.wf(),
            b.max_history() == capacity,
            b.snapshots().len() == 0,
            b.registered_rules().len() == 0,
            b.log_entries().len() == 0,
    {
        let b = PrecausalBuffer {
            capacity,
            history: VecDeque::new(),
            rules: Vec::new(),
            inference_log: Vec::new(),
        };
        assert(b.log_entries() =~= Seq::<(u64, Seq<char>, InferenceResult<StateSnapshot<V>>)>::empty());
        b
    }

    /// Append a snapshot, evicting the oldest one when the buffer is full.
    pub fn push(&mut self, snapshot: StateSnapshot<V>)
        requires
            old(self).wf(),
        ensures
            final(self).wf(),
            final(self).snapshots() == pushed(
                old(self).snapshots(),
                old(self).max_history(),
                snapshot,
            ),
            final(self).max_history() == old(self).max_history(),
            final(self).registered_rules() == old(self).registered_rules(),
            final(self).log_entries() == old(self).log_entries(),
    {
        if self.history.len() == self.capacity {
            let ghost before = self.history@;
            self.history.pop_front();
            assert(self.history@ =~= before.drop_first());
        }
        self.history.push_back(snapshot);
    }

    /// Register an inference rule, consulted after all earlier ones.
    pub fn register_rule(&mut self, rule: InferenceRule<P, A>)
        requires
            old(self).wf(),
            rule_callable(rule),
        ensures
            final(self).wf(),
            final(self).registered_rules() == old(self).registered_rules().push(rule),
            final(self).snapshots() == old(self).snapshots(),
            final(self).max_history() == old(self).max_history(),
            final(self).log_entries() == old(self).log_entries(),
    {
        self.rules.push(rule);
    }

    /// Run forward inference over the current history, log the pass, and
    /// return the prediction of the first matching rule.
    pub fn infer(&mut self) -> (r: InferenceResult<StateSnapshot<V>>)
        requires
            old(self).wf(),
        ensures
            final(self).wf(),
            forall|h: &[StateSnapshot<V>]|
                h@ == old(self).snapshots() ==> inference_outcome(
                    old(self).registered_rules(),
                    h,
                    r,
                ),
            final(self).log_entries().len() == old(self).log_entries().len() + 1,
            final(self).log_entries().drop_last() == old(self).log_entries(),
            final(self).log_entries().last().0 == logged_tick(old(self).snapshots()),
            final(self).log_entries().last().1 == outcome_label(r),
            is_copy_of(r, final(self).log_entries().last().2),
            final(self).snapshots() == old(self).snapshots(),
            final(self).registered_rules() == old(self).registered_rules(),
            final(self).max_history() == old(self).max_history(),
    {
        let ghost snapshots = self.history@;
        let history = contiguous(&mut self.history);
        let result = infer_over(&self.rules, history);
        let n = history.len();
        let tick: u64 = if n == 0 {
            0
        } else {
            history[n - 1].tick
        };
        let label = match &result {
            InferenceResult::Predicted(_) => String::from_str("matched"),
            InferenceResult::InsufficientHistory => String::from_str("insufficient_history"),
            InferenceResult::NoRuleMatched => String::from_str("no_rule"),
        };
        let logged = copy_result(&result);
        let ghost before = self.log_entries();
        self.inference_log.push((tick, label, logged));
        assert(self.log_entries().drop_last() =~= before);
        assert(self.history@ == snapshots);
        result
    }

    /// Return the inference log.
    pub fn inference_log(&self) -> (log: &[(u64, String, InferenceResult<StateSnapshot<V>>)])
        ensures
            log@.map_values(
                |e: (u64, String, InferenceResult<StateSnapshot<V>>)| (e.0, e.1@, e.2),
            ) == self.log_entries(),
    {
        self.inference_log.as_slice()
    }

    /// Return a copy of the current history, oldest first.
    pub fn history(&self) -> (h: Vec<StateSnapshot<V>>)
        ensures
            h@.len() == self.snapshots().len(),
            forall|i: int|
                0 <= i < h@.len() ==> is_snapshot_copy(self.snapshots()[i], #[trigger] h@[i]),
    {
        let n = self.history.len();
        let mut h: Vec<StateSnapshot<V>> = Vec::new();
        let mut i: usize = 0;
        while i < n
            invariant
                n == self.history@.len(),
                i <= n,
                h@.len() == i,
                forall|j: int|
                    0 <= j < i ==> is_snapshot_copy(self.history@[j], #[trigger] h@[j]),
            decreases n - i,
        {
            h.push(copy_snapshot(&self.history[i]));
            i = i + 1;
        }
        h
    }
}

/// Run the rules in order over `history`: the first rule with enough history
/// whose precondition holds makes the prediction.
fn infer_over<V, P, A>(
    rules: &Vec<InferenceRule<P, A>>,
    history: &[StateSnapshot<V>],
) -> (r: InferenceResult<StateSnapshot<V>>) where
    P: Fn(&[StateSnapshot<V>]) -> bool,
    A: Fn(&[StateSnapshot<V>]) -> StateSnapshot<V>,
    requires
        forall|i: int| 0 <= i < rules@.len() ==> rule_callable(#[trigger] rules@[i]),
    ensures
        forall|h: &[StateSnapshot<V>]|
            h@ == history@ ==> inference_outcome(rules@, h, r),
{
    let n = history.len();
    if n == 0 {
        return InferenceResult::InsufficientHistory;
    }
    let count = rules.len();
    let mut i: usize = 0;
    while i < count
        invariant
            forall|i: int| 0 <= i < rules@.len() ==> rule_callable(#[trigger] rules@[i]),
            n == history@.len(),
            n > 0,
            count == rules@.len(),
            i <= count,
            forall|j: int|
                0 <= j < i ==> n < (#[trigger] rules@[j]).min_history || precondition_says(
                    rules@[j],
                    history,
                    false,
                ),
        decreases count - i,
    {
        let rule = &rules[i];
        if n >= rule.min_history {
            assert(rule_callable(rules@[i as int]));
            if (rule.precondition)(history) {
                let prediction = (rule.apply)(history);
                proof {
                    assert(first_match(rules@, history, i as int));
                    assert forall|h: &[StateSnapshot<V>]| #[trigger] h@ == history@ implies h
                        == history by {
                        assert(h =~= history);
                    }
                }
                return InferenceResult::Predicted(prediction);
            }
        }
        i = i + 1;
    }
    let mut k: usize = 0;
    let mut short = false;
    while k < count
        invariant
            count == rules@.len(),
            k <= count,
            short == (exists|j: int| 0 <= j < k && n < (#[trigger] rules@[j]).min_history),
        decreases count - k,
    {
        if n < rules[k].min_history {
            short = true;
        }
        k = k + 1;
    }
    proof {
        assert forall|h: &[StateSnapshot<V>]| #[trigger] h@ == history@ implies h == history by {
            assert(h =~= history);
        }
    }
    if short {
        InferenceResult::InsufficientHistory
    } else {
        InferenceResult::NoRuleMatched
    }
}

/// The history after pushing `snapshots` one by one into an empty buffer
/// with room for `capacity` snapshots.
pub open spec fn history_after<V>(capacity: nat, snapshots: Seq<StateSnapshot<V>>) -> Seq<
    StateSnapshot<V>,
>
    decreases snapshots.len(),
{
    if snapshots.len() == 0 {
        Seq::empty()
    } else {
        pushed(history_after(capacity, snapshots.drop_last()), capacity, snapshots.last())
    }
}

/// The buffer is a rolling window: after any sequence of pushes into an
/// empty buffer it holds exactly the newest `capacity` snapshots (all of
/// them while fewer were pushed), oldest first.
pub proof fn law_history_is_newest_window<V>(capacity: nat, snapshots: Seq<StateSnapshot<V>>)
    requires
        capacity > 0,
    ensures
        history_after(capacity, snapshots) == snapshots.subrange(
            if snapshots.len() > capacity {
                snapshots.len() - capacity
            } else {
                0
            },
            snapshots.len() as int,
        ),
    decreases snapshots.len(),
{
    if snapshots.len() > 0 {
        let prev = snapshots.drop_last();
        law_history_is_newest_window(capacity, prev);
        let n = snapshots.len();
        let start: int = if n > capacity {
            n - capacity
        } else {
            0
        };
        let prev_start: int = if prev.len() > capacity {
            prev.len() - capacity
        } else {
            0
        };
        let h = history_after(capacity, prev);
        assert(h == prev.subrange(prev_start, prev.len() as int));
        if h.len() >= capacity {
            assert(h.drop_first().push(snapshots.last()) =~= snapshots.subrange(start, n as int));
        } else {
            assert(h.push(snapshots.last()) =~= snapshots.subrange(start, n as int));
        }
    }
}

} // verus!
