//! Core of a schema-migration apply engine.
//!
//! The library reconciles an ordered list of migration descriptors against a
//! durable migration history, detects runs left incomplete by a prior
//! process, and drives each unapplied migration through its lifecycle state
//! machine (before-hook, main script, after-hook, history bookkeeping) under
//! an abort-on-first-failure policy.
//!
//! All I/O — the persistence store, the target connector, hook processes —
//! lives outside this crate. The orchestrator is a step function from state
//! and event to next state and action; a host drives it by performing each
//! action and feeding back the outcome as the next event.

pub mod data;
pub mod detect;
pub mod hooks;
pub mod laws;
pub mod orchestrate;
pub mod reconcile;
pub mod text;
