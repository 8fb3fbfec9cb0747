//! A verified fundraising ledger.
//!
//! Three subsystems compose here: a compliance registry that gates
//! participation by address, a nullifier store that lets a contributor spend a
//! privacy note at most once, and a campaign state machine that tracks
//! pledges, reward tiers and settlement. The `engine` module orchestrates
//! them; the `laws` module states and proves the properties that hold across
//! whole sequences of operations.
//!
//! The value-transfer substrate and the wall clock are external collaborators:
//! every operation that moves funds takes the transfer outcome as an argument,
//! and every deadline comparison takes the current time as an argument, so the
//! whole decision logic is verified for every behaviour of both.

pub mod campaign;
pub mod engine;
pub mod errors;
pub mod laws;
pub mod nullifier;
pub mod registry;
