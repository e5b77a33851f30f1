# Orion–EIRA–Nexus

A deterministic, auditable safety layer for autonomous decision making,
written in Verus.

- `src/` — the verified library: the EIRA policy gate (one-way epistemic
  state machine, append-only audit log), user authentication with FNV-1a
  password hashes, the Sovereign Industrial Kernel's resource limits, the
  Orion autonomous builder, the EIRA terminal, the Nexus precausal buffer and
  the Orch-OR dipole state machine.
- `tests/` — tests of the library.
- `app/` — the demo program, the floating-point physics engine and Orch-OR
  energy bookkeeping, the `f64` inference rules of the precausal buffer, and
  serialisable copies of the kernel configuration.

Confidence values are fixed-point integers in basis points: `10_000` is a
confidence of 1.0 and the default threshold 0.85 is `8_500`.
