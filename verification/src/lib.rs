//! A micro-benchmark library for cross-core handshake latency.
//!
//! Two threads, each pinned to a CPU core, alternate through a pair of
//! shared monotonically increasing counters: the initiator advances `s1`
//! only after the responder has caught up by advancing `s2`. This crate
//! holds the verified core of that benchmark: the handshake protocol
//! model and its invariants, the per-spin decision logic for both roles,
//! deadline handling, and the metrics computed from the final counters.
//! The unverifiable edges (thread spawning, OS affinity syscalls, the
//! wall clock) live outside and feed plain values into these functions.

pub mod affinity;
pub mod handshake;
pub mod harness;
