//! Orion–EIRA–Nexus: a deterministic, auditable safety layer for autonomous
//! decision making.
//!
//! * [`policy_gate`] – the EIRA policy gate, its one-way epistemic state
//!   machine and its append-only audit log.
//! * [`auth`] – user registry with FNV-1a password hashes and a login log.
//! * [`sik`] – the Sovereign Industrial Kernel's resource limits.
//! * [`builder`] – the Orion autonomous builder that submits every
//!   improvement proposal to the policy gate.
//! * [`terminal`] – the EIRA terminal session and its output lines.
//! * [`nexus`] – the precausal buffer: a rolling history and rule-based
//!   forward inference.
//! * [`orch_or`] – the Orch-OR dipole state machine.
//! * [`text`] – verified numerals and padding for output lines.

pub mod auth;
pub mod builder;
pub mod nexus;
pub mod orch_or;
pub mod policy_gate;
pub mod sik;
pub mod terminal;
pub mod text;
