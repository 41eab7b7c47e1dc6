//! A verified core for a multi-step confidential asset transfer workflow.
//!
//! The ledger's per-transaction payload budget is too small to carry the
//! zero-knowledge proofs a confidential transfer needs, so one logical
//! transfer is split into an ordered sequence of five ledger transactions.
//! This crate holds the verified logic of that split: the workflow
//! sequencer that builds the five-transaction plan, the state machine that
//! polls an external block-space auction relay for a submitted bundle's
//! status, the bounded-retry combinator that makes the bundle path
//! resilient, and the small durable store the direct path records its
//! result in. Network transport, key material and proof generation stay
//! outside; they hand this crate plain values and take plain values back.

pub mod bundle;
pub mod direct;
pub mod error;
pub mod frame;
pub mod json;
pub mod ledger;
pub mod proof_account;
pub mod sequencer;
pub mod relay_json;
pub mod retry;
pub mod status;
pub mod store;
