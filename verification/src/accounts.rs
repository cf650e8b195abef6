//! The accounts the state machine reads and writes.
//!
//! The ledger persists each of these between invocations; a transition
//! receives the accounts named by the caller's transaction, checks them, and
//! mutates them in place. Authority over a token holding is an explicit
//! `owner` field, changed only through the access-checked operations in
//! [`crate::token`] — this is what "authority delegation" means here.

use vstd::prelude::*;

use crate::identity::Identity;

verus! {

/// A principal's native-currency account: its identifier, its balance, and
/// whether the ledger verified the principal's signature on the current
/// transaction.
#[derive(Clone, Copy, Debug, PartialEq, Eq, Structural)]
pub struct Wallet {
    pub key: Identity,
    pub lamports: u64,
    pub is_signer: bool,
}

/// A fungible-token holding: the Vault is one of these, and so is the
/// taker's receive account. `owner` is the sole authority that may move the
/// balance or delegate the holding away.
#[derive(Clone, Copy, Debug, PartialEq, Eq, Structural)]
pub struct TokenHolding {
    pub key: Identity,
    pub owner: Identity,
    pub amount: u64,
}

/// The escrow record: the one persistent entity the protocol itself owns.
/// Created by open, immutable while it exists, destroyed by exactly one of
/// cancel or exchange. Its presence *is* the protocol's state.
#[derive(Clone, Copy, Debug, PartialEq, Eq, Structural)]
pub struct EscrowAccount {
    /// Party A, who opened the escrow and deposited asset X.
    pub initializer_key: Identity,
    /// The Vault: the holding that contains the deposited X.
    pub initializer_deposit_token_account: Identity,
    /// Where party A's requested native currency must be delivered.
    pub initializer_receive_wallet_account: Identity,
    /// Quantity of X deposited.
    pub initializer_amount: u64,
    /// Quantity of native currency required to complete the swap.
    pub taker_amount: u64,
}

/// The accounts an open transition touches.
#[derive(Clone, Copy, Debug, PartialEq, Eq)]
pub struct InitializeEscrow {
    /// Party A; must have signed the transaction.
    pub initializer: Wallet,
    /// The Vault, currently owned by the initializer.
    pub initializer_deposit_token_account: TokenHolding,
    /// The destination for the requested native currency.
    pub initializer_receive_wallet_account: Wallet,
    /// The freshly allocated record slot; `None` until open fills it.
    pub escrow_account: Option<EscrowAccount>,
    /// The native currency the ledger reserved for the record's storage
    /// when it allocated the slot, at the initializer's expense. It stays
    /// with the slot while the record exists.
    pub escrow_reserve: u64,
}

/// The accounts an exchange transition touches.
#[derive(Clone, Copy, Debug, PartialEq, Eq)]
pub struct Exchange {
    /// The taker; must have signed and must cover the requested amount.
    pub taker: Wallet,
    /// The taker's holding that receives the deposited X.
    pub taker_receive_token_account: TokenHolding,
    /// The Vault, owned by the custodian while the escrow is open.
    pub pda_deposit_token_account: TokenHolding,
    /// The initializer's native-currency payout destination.
    pub initializer_receive_wallet_account: Wallet,
    /// The initializer's own account, named so the record can be checked
    /// against it and closed to it.
    pub initializer_main_account: Wallet,
    /// The record slot being settled.
    pub escrow_account: Option<EscrowAccount>,
    /// The native currency reserved for the record's storage; returned to
    /// the initializer's own account when the settlement destroys the
    /// record.
    pub escrow_reserve: u64,
    /// The custodian reference the caller supplies; the Vault's owner must
    /// be exactly this identity for the release to be authorized.
    pub pda_account: Identity,
}

/// The accounts a cancel transition touches.
#[derive(Clone, Copy, Debug, PartialEq, Eq)]
pub struct CancelEscrow {
    /// The claimed initializer; must equal the record's stored identity.
    pub initializer: Wallet,
    /// The Vault to hand back.
    pub pda_deposit_token_account: TokenHolding,
    /// The custodian reference, as in [`Exchange`].
    pub pda_account: Identity,
    /// The record slot being cancelled.
    pub escrow_account: Option<EscrowAccount>,
    /// The native currency reserved for the record's storage; returned to
    /// the initializer when the cancel destroys the record.
    pub escrow_reserve: u64,
}

} // verus!
