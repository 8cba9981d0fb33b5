//! Ledger and settlement core for a wagered chess service.
//!
//! A challenger proposes stake and time terms, an opponent accepts, and the
//! acceptance must atomically reserve the opponent's funds, stand up a contest
//! on the external game service, and record an immutable ledger entry.  A
//! parallel flow settles outbound payments through an external gateway.
//!
//! This crate holds the verified core: the challenge validator, the balance
//! and transaction ledger with its settlement invariant, and the two
//! coordinators.  Network and storage plumbing live in the surrounding
//! application shell, which performs the external calls and hands their
//! outcomes back to the coordinators as plain values.

pub mod challenge;
pub mod errors;
pub mod ledger;
pub mod money;
pub mod settlement;
