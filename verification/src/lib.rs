//! A two-party atomic swap (escrow) protocol.
//!
//! Party A (the initializer) places asset X under protocol custody and names
//! the amount of asset Y it wants in return; any counterparty (the taker) may
//! complete the swap by paying Y, atomically receiving X, or A alone may
//! cancel and reclaim X. Custody is held by a key-less custodian identity
//! derived deterministically from a fixed protocol seed, so no human key can
//! release the deposit outside the protocol's own transitions.
//!
//! The ledger that persists accounts, verifies signatures and executes each
//! transition atomically is an external collaborator; this crate holds the
//! state machine itself: the escrow record, the three transitions (open,
//! cancel, exchange), the authority-delegation model, and their invariants.

pub mod accounts;
pub mod codec;
pub mod custodian;
pub mod escrow;
pub mod identity;
pub mod laws;
pub mod token;

use vstd::prelude::*;

verus! {

/// Why a transition was refused. Every check is made before any state
/// mutation, so a refused transition leaves every account unchanged.
#[derive(Clone, Copy, Debug, PartialEq, Eq, Structural)]
pub enum EscrowError {
    /// A signer or identity check failed.
    Unauthorized,
    /// The depositor's holding cannot cover the offered amount.
    InsufficientBalance,
    /// The taker's native-currency balance cannot cover the requested amount.
    InsufficientFunds,
    /// A supplied account does not match the record's stored references.
    RecordMismatch,
    /// The record slot is already occupied.
    AlreadyInitialized,
    /// The record does not exist (never opened, or already settled).
    NotFound,
}

} // verus!
