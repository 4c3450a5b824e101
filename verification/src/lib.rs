//! Verified core of an affiliate "strategy handler" that withdraws funds
//! directly from a lending-protocol reserve on behalf of a referred user.
//!
//! The library is pure: it derives every program-derived address, resolves
//! the exact ordered account list the on-chain programs expect, and composes
//! the two-instruction atomic transaction (refresh reserve, then withdraw).
//! All network I/O — fetching account state and submitting the transaction —
//! is left to the caller, which drives the step machine in [`handler`].

pub mod address;
pub mod handler;
pub mod instruction;
pub mod laws;
pub mod state;
