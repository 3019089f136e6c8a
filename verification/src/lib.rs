//! A ledger and escrow engine for cross-chain asset-transfer intents.
//!
//! The bridge hub books outbound transfer intents and inbound completion
//! records under a singleton configuration, keeps running totals, and caches
//! per-owner portfolio snapshots. The escrow pact pools contributions toward
//! a target under a deadline and settles or refunds exactly once. Records are
//! addressed deterministically from fixed seed tags and caller-supplied
//! parameters, which makes re-creation at an occupied address fail and so
//! serves as the replay-prevention primitive.

pub mod derivation;
pub mod errors;
pub mod instructions;
pub mod laws;
pub mod pact;
pub mod state;
