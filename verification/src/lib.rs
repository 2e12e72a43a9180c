//! Weighted-voting governance core with companion signature and mint gates.
//!
//! The crate verifies the decision logic of a token contract that puts
//! state-changing operations behind either a single-owner allowlist with
//! supply caps, or a weighted multi-party approval process: the proposal
//! lifecycle and its status state machine, vote tallying against a
//! configurable threshold, a one-ballot-per-voter ledger, a fixed-weight
//! voter registry, a capped free-mint counter, and an all-parties sign-off
//! gate for treasury withdrawal.
//!
//! Persistence, message encoding and fund transfer are the host's business:
//! every operation here takes explicit state and plain values and returns
//! the new state and the effects to dispatch.
pub mod ballots;
pub mod engine;
pub mod errors;
pub mod expiry;
pub mod ids;
pub mod keyorder;
pub mod metadata;
pub mod mint;
pub mod msgs;
pub mod proposal;
pub mod queries;
pub mod registry;
pub mod seqfacts;
pub mod threshold;
pub mod votes;
pub mod withdraw;
