//! Accounting and authorization core of a token-economy ledger.
//!
//! A work token ("DAN") compensates workers. It is funded from a
//! stablecoin-denominated escrow deposited by demanders, converted at an
//! administrator-set price, and released to workers only up to a running
//! withdrawal allowance. This crate holds the three linked ledgers
//! (protocol configuration, demander escrow, worker allowance), the two
//! state transitions that move value between them (distribution and
//! withdrawal), the unit-conversion rules, and the authorization policy.
//! The surrounding replicated-state-machine platform — mint creation,
//! metadata registration, account resolution, and atomic execution — is a
//! collaborator, consumed as a service and not reimplemented here.

pub mod address;
pub mod auth;
pub mod bank;
pub mod data;
pub mod errors;
pub mod laws;
pub mod store;
pub mod token;
pub mod units;
