//! Orch-OR dipole state machine.
//!
//! A microtubule's tubulin dipole moves through a fixed finite-state machine:
//! a settled orientation (`AlphaUp` or `AlphaDown`) enters `Superposition`
//! once its refractory period has elapsed, and a superposition collapses
//! once the objective-reduction threshold `E_G · τ ≥ ħ` is reached.  The
//! post-collapse orientation alternates with no randomness: even collapses
//! end in `AlphaDown`, odd ones in `AlphaUp`.
//!
//! The energies and times that decide when the threshold is reached are
//! floating-point quantities computed by the simulator; this module decides
//! what happens given those two facts.

use vstd::prelude::*;

verus! {

/// Microtubule protofilament states.
#[derive(Debug, Clone, Copy, PartialEq, Eq, Structural)]
pub enum TubulinState {
    /// α-tubulin dipole points "up" (GTP-bound).
    AlphaUp,
    /// α-tubulin dipole points "down" (GDP-bound).
    AlphaDown,
    /// Superposition of both orientations (quantum coherence active).
    Superposition,
}

/// What one simulation step does to a microtubule's dipole state.
#[derive(Debug, Clone, Copy, PartialEq, Eq, Structural)]
pub enum TubulinTransition {
    /// The state stays as it is; coherence keeps accumulating.
    Remain,
    /// A settled orientation enters superposition; coherence restarts.
    EnterSuperposition,
    /// The superposition collapses to `post_state`; this is collapse number
    /// `collapse_count + 1`.
    Collapse { post_state: TubulinState },
}

/// The orientation after a collapse when `collapse_count` collapses have
/// already happened.
pub open spec fn post_collapse(collapse_count: nat) -> TubulinState {
    if collapse_count % 2 == 0 {
        TubulinState::AlphaDown
    } else {
        TubulinState::AlphaUp
    }
}

/// The transition of a microtubule in `state` with `collapse_count` past
/// collapses, given whether the collapse threshold is reached and whether
/// the refractory period has elapsed this step.
pub open spec fn transition(
    state: TubulinState,
    collapse_count: nat,
    threshold_reached: bool,
    refractory_elapsed: bool,
) -> TubulinTransition {
    match state {
        TubulinState::Superposition => if threshold_reached {
            TubulinTransition::Collapse { post_state: post_collapse(collapse_count) }
        } else {
            TubulinTransition::Remain
        },
        _ => if refractory_elapsed {
            TubulinTransition::EnterSuperposition
        } else {
            TubulinTransition::Remain
        },
    }
}

/// The deterministic post-collapse orientation: `AlphaDown` after an even
/// number of earlier collapses, `AlphaUp` after an odd number.
pub fn post_collapse_state(collapse_count: u32) -> (s: TubulinState)
    ensures
        s == post_collapse(collapse_count as nat),
{
    if collapse_count % 2 == 0 {
        TubulinState::AlphaDown
    } else {
        TubulinState::AlphaUp
    }
}

/// Decide one step of the dipole state machine.
pub fn tubulin_transition(
    state: TubulinState,
    collapse_count: u32,
    threshold_reached: bool,
    refractory_elapsed: bool,
) -> (t: TubulinTransition)
    ensures
        t == transition(state, collapse_count as nat, threshold_reached, refractory_elapsed),
{
    match state {
        TubulinState::Superposition => {
            if threshold_reached {
                TubulinTransition::Collapse { post_state: post_collapse_state(collapse_count) }
            } else {
                TubulinTransition::Remain
            }
        },
        _ => {
            if refractory_elapsed {
                TubulinTransition::EnterSuperposition
            } else {
                TubulinTransition::Remain
            }
        },
    }
}

/// Collapses alternate: the collapse after `k` earlier ones and the next
/// collapse end in different settled orientations, and neither ends in
/// superposition.
pub proof fn law_collapses_alternate(k: nat)
    ensures
        post_collapse(k) != post_collapse(k + 1),
        post_collapse(k) != TubulinState::Superposition,
        post_collapse(0) == TubulinState::AlphaDown,
        post_collapse(1) == TubulinState::AlphaUp,
{
}

/// The whole transition table.  A superposition collapses exactly when the
/// threshold is reached, whether or not a refractory period has elapsed, to
/// `AlphaDown` after an even number of earlier collapses and to `AlphaUp`
/// after an odd number; otherwise it remains.  A settled orientation enters
/// superposition exactly when its refractory period has elapsed, whatever
/// the threshold says; otherwise it remains.
pub proof fn law_transition_table(collapse_count: nat, threshold_reached: bool, refractory_elapsed: bool)
    ensures
        transition(TubulinState::Superposition, collapse_count, true, refractory_elapsed)
            == (TubulinTransition::Collapse {
            post_state: if collapse_count % 2 == 0 {
                TubulinState::AlphaDown
            } else {
                TubulinState::AlphaUp
            },
        }),
        transition(TubulinState::Superposition, collapse_count, false, refractory_elapsed)
            == TubulinTransition::Remain,
        transition(TubulinState::AlphaUp, collapse_count, threshold_reached, true)
            == TubulinTransition::EnterSuperposition,
        transition(TubulinState::AlphaDown, collapse_count, threshold_reached, true)
            == TubulinTransition::EnterSuperposition,
        transition(TubulinState::AlphaUp, collapse_count, threshold_reached, false)
            == TubulinTransition::Remain,
        transition(TubulinState::AlphaDown, collapse_count, threshold_reached, false)
            == TubulinTransition::Remain,
{
}

/// Only a superposition can collapse, and only a settled orientation can
/// enter superposition.
pub proof fn law_transitions_follow_state(
    state: TubulinState,
    collapse_count: nat,
    threshold_reached: bool,
    refractory_elapsed: bool,
)
    ensures
        transition(state, collapse_count, threshold_reached, refractory_elapsed) is Collapse
            ==> state == TubulinState::Superposition,
        transition(state, collapse_count, threshold_reached, refractory_elapsed)
            is EnterSuperposition ==> state != TubulinState::Superposition,
{
}

} // verus!
