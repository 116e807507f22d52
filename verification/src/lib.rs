//! An owner-run lottery: the owner registers a pool of candidates, seals
//! registration, and then draws winners one at a time, without replacement,
//! until a configured quota is reached.
//!
//! This crate is the verified core: the candidate registry, the owner-gated
//! lifecycle (accepting registrations, ready, drawing, finished) and the
//! without-replacement selection algorithm. The host environment around it
//! supplies the collaborators the core is written against: the root pointer
//! to the current state, the content-addressed blob store backing candidate
//! snapshots, address resolution, the caller's identity, and the randomness
//! beacon. Those are plumbing; every decision the lottery makes is in here,
//! with a contract.

pub mod engine;
pub mod report;
pub mod store;
pub mod types;
