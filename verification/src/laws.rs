//! The protocol's laws, stated over the transition specifications in
//! [`crate::escrow`] and proved once and for all.

use vstd::prelude::*;

use crate::accounts::{CancelEscrow, Exchange, InitializeEscrow};
use crate::escrow::{
    cancel_apply, cancel_check, cancel_settleable, exch_apply, exch_check, exch_settleable,
    init_apply, init_check,
};
use crate::identity::Identity;
use crate::EscrowError;

verus! {

/// Exclusivity, after a cancel: a successful cancel destroys the record, so
/// any later cancel or exchange that reads the same slot fails with
/// `NotFound` — at most one of cancel and exchange ever succeeds for a
/// given record.
pub proof fn lemma_exclusivity_after_cancel(done: CancelEscrow, c: CancelEscrow, x: Exchange)
    requires
        cancel_check(done) is Ok,
        c.escrow_account == cancel_apply(done).escrow_account,
        x.escrow_account == cancel_apply(done).escrow_account,
    ensures
        cancel_check(c) == Err::<(), EscrowError>(EscrowError::NotFound),
        exch_check(x) == Err::<(), EscrowError>(EscrowError::NotFound),
{
}

/// Exclusivity, after an exchange: a successful exchange destroys the
/// record, so any later cancel or exchange that reads the same slot fails
/// with `NotFound`.
pub proof fn lemma_exclusivity_after_exchange(done: Exchange, c: CancelEscrow, x: Exchange)
    requires
        exch_check(done) is Ok,
        c.escrow_account == exch_apply(done).escrow_account,
        x.escrow_account == exch_apply(done).escrow_account,
    ensures
        cancel_check(c) == Err::<(), EscrowError>(EscrowError::NotFound),
        exch_check(x) == Err::<(), EscrowError>(EscrowError::NotFound),
{
}

/// Conservation: a successful exchange moves exactly the recorded amounts —
/// the taker's holding gains `initializer_amount` of X, the Vault loses the
/// same, the initializer's payout wallet gains `taker_amount` of native
/// currency, and the taker's wallet loses the same.
pub proof fn lemma_conservation(x: Exchange)
    requires
        exch_check(x) is Ok,
        exch_settleable(x),
    ensures
        exch_apply(x).taker_receive_token_account.amount == x.taker_receive_token_account.amount
            + x.escrow_account->Some_0.initializer_amount,
        exch_apply(x).pda_deposit_token_account.amount == x.pda_deposit_token_account.amount
            - x.escrow_account->Some_0.initializer_amount,
        exch_apply(x).initializer_receive_wallet_account.lamports
            == x.initializer_receive_wallet_account.lamports
            + x.escrow_account->Some_0.taker_amount,
        exch_apply(x).taker.lamports == x.taker.lamports - x.escrow_account->Some_0.taker_amount,
{
}

/// Reversibility: a cancel right after a successful open is owed success,
/// restores Vault authority to the original initializer, and leaves the
/// Vault's X balance exactly as the open left it. No swap currency moves:
/// the one credit is the slot's storage reserve going back to the
/// initializer, whose own resource it was.
pub proof fn lemma_reversibility(
    i: InitializeEscrow,
    initializer_amount: u64,
    taker_amount: u64,
    program_id: Identity,
    c: CancelEscrow,
)
    requires
        init_check(i, initializer_amount) is Ok,
        c.initializer == i.initializer,
        c.pda_deposit_token_account == init_apply(
            i,
            initializer_amount,
            taker_amount,
            program_id,
        ).initializer_deposit_token_account,
        c.escrow_account == init_apply(
            i,
            initializer_amount,
            taker_amount,
            program_id,
        ).escrow_account,
        c.escrow_reserve == i.escrow_reserve,
        c.initializer.lamports + c.escrow_reserve <= u64::MAX,
    ensures
        cancel_check(c) is Ok,
        cancel_apply(c).pda_deposit_token_account.owner == i.initializer.key,
        cancel_apply(c).pda_deposit_token_account.amount
            == i.initializer_deposit_token_account.amount,
        cancel_apply(c).initializer.lamports == c.initializer.lamports + i.escrow_reserve,
{
}

/// Storage return, on cancel: destroying the record credits the slot's
/// whole reserve to the initializer's account and leaves the slot with
/// none.
pub proof fn lemma_storage_return_on_cancel(c: CancelEscrow)
    requires
        cancel_check(c) is Ok,
        cancel_settleable(c),
    ensures
        cancel_apply(c).initializer.lamports == c.initializer.lamports + c.escrow_reserve,
        cancel_apply(c).escrow_reserve == 0,
        cancel_apply(c).escrow_account is None,
{
}

/// Storage return, on exchange: destroying the record credits the slot's
/// whole reserve to the initializer's own account — not the payout
/// destination, whose gain is exactly the requested amount — and leaves
/// the slot with none.
pub proof fn lemma_storage_return_on_exchange(x: Exchange)
    requires
        exch_check(x) is Ok,
        exch_settleable(x),
    ensures
        exch_apply(x).initializer_main_account.lamports == x.initializer_main_account.lamports
            + x.escrow_reserve,
        exch_apply(x).escrow_reserve == 0,
        exch_apply(x).escrow_account is None,
{
}

/// Non-interference: an exchange whose record exists, whose taker signed
/// and can pay, but whose supplied Vault, payout destination or initializer
/// account differs from the record's stored references, fails with
/// `RecordMismatch` — even though every other condition holds.
pub proof fn lemma_non_interference(x: Exchange)
    requires
        x.escrow_account is Some,
        x.taker.is_signer,
        x.escrow_account->Some_0.taker_amount <= x.taker.lamports,
        x.escrow_account->Some_0.initializer_deposit_token_account
            != x.pda_deposit_token_account.key
            || x.escrow_account->Some_0.initializer_receive_wallet_account
            != x.initializer_receive_wallet_account.key
            || x.escrow_account->Some_0.initializer_key != x.initializer_main_account.key,
    ensures
        exch_check(x) == Err::<(), EscrowError>(EscrowError::RecordMismatch),
{
}

/// Underfunded open: when the signing initializer offers more than the
/// Vault holds, open is refused with `InsufficientBalance`.
pub proof fn lemma_underfunded_open(i: InitializeEscrow, initializer_amount: u64)
    requires
        i.initializer.is_signer,
        i.initializer_deposit_token_account.amount < initializer_amount,
    ensures
        init_check(i, initializer_amount) == Err::<(), EscrowError>(
            EscrowError::InsufficientBalance,
        ),
{
}

/// Underfunded exchange: when the record exists, the taker signed, but the
/// taker's native-currency balance cannot cover the requested amount,
/// exchange is refused with `InsufficientFunds`.
pub proof fn lemma_underfunded_exchange(x: Exchange)
    requires
        x.escrow_account is Some,
        x.taker.is_signer,
        x.taker.lamports < x.escrow_account->Some_0.taker_amount,
    ensures
        exch_check(x) == Err::<(), EscrowError>(EscrowError::InsufficientFunds),
{
}

/// Custody while open: the record a successful open writes names exactly
/// the accounts the open was given, and the Vault's authority right after
/// the open is the custodian — never an end-user principal that could
/// release the deposit outside the protocol.
pub proof fn lemma_open_establishes_custody(
    i: InitializeEscrow,
    initializer_amount: u64,
    taker_amount: u64,
    program_id: Identity,
)
    requires
        init_check(i, initializer_amount) is Ok,
    ensures
        init_apply(i, initializer_amount, taker_amount, program_id).escrow_account matches Some(
            record,
        ) && record.initializer_key == i.initializer.key
            && record.initializer_deposit_token_account
            == i.initializer_deposit_token_account.key
            && record.initializer_receive_wallet_account
            == i.initializer_receive_wallet_account.key
            && record.initializer_amount == initializer_amount
            && record.taker_amount == taker_amount,
        init_apply(
            i,
            initializer_amount,
            taker_amount,
            program_id,
        ).initializer_deposit_token_account.owner == crate::custodian::custodian_of(program_id),
        init_apply(
            i,
            initializer_amount,
            taker_amount,
            program_id,
        ).initializer_deposit_token_account.amount == i.initializer_deposit_token_account.amount,
{
}

} // verus!
