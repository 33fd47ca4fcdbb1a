//! A single-owner, deadline-bounded escrow-transfer contract.
//!
//! The contract holds a committed capital amount until a deadline, given as a
//! ledger-height bound, a timestamp bound, or both. A caller who attaches
//! funds matching the committed capital before the deadline settles the
//! escrow: the caller is recorded as the sender and a single fund-transfer
//! directive moving the capital to the owner is emitted.
//!
//! The host runtime (storage slots, address validation, serialization and
//! entry-point registration) is an external collaborator; the decision logic
//! here is a pure function of the stored state, the environment at the time
//! of the call, and the call's inputs.

pub mod contract;
pub mod error;
pub mod funds;
pub mod state;
