//! The escrow state machine: open, cancel, exchange.
//!
//! Each transition is specified by a pair of spec functions — a check that
//! yields the first failing precondition (or success), and an apply that
//! yields the post-state — and the executable transition is proved to
//! return exactly what the check says and to leave every account untouched
//! on failure. The ledger runs each invocation as one atomic transaction;
//! here that shows up as: all checks precede all mutations.

use vstd::prelude::*;

use crate::accounts::{CancelEscrow, EscrowAccount, Exchange, InitializeEscrow, TokenHolding, Wallet};
use crate::custodian::{custodian_identity, custodian_of};
use crate::identity::Identity;
use crate::token::{pay, set_authority, transfer};
use crate::EscrowError;

verus! {

/// The first check an open transition fails, if any: the initializer must
/// have signed, the Vault balance must cover the offered amount, the record
/// slot must be vacant, and the initializer must own the Vault it is
/// placing in custody.
pub open spec fn init_check(ctx: InitializeEscrow, initializer_amount: u64) -> Result<(), EscrowError> {
    if !ctx.initializer.is_signer {
        Err(EscrowError::Unauthorized)
    } else if ctx.initializer_deposit_token_account.amount < initializer_amount {
        Err(EscrowError::InsufficientBalance)
    } else if ctx.escrow_account is Some {
        Err(EscrowError::AlreadyInitialized)
    } else if ctx.initializer_deposit_token_account.owner != ctx.initializer.key {
        Err(EscrowError::Unauthorized)
    } else {
        Ok(())
    }
}

/// The state a successful open leaves behind: the record holds the deal's
/// five fields, the Vault's authority is the custodian, and the slot keeps
/// the storage reserve the ledger funded at allocation.
pub open spec fn init_apply(
    ctx: InitializeEscrow,
    initializer_amount: u64,
    taker_amount: u64,
    program_id: Identity,
) -> InitializeEscrow {
    InitializeEscrow {
        initializer: ctx.initializer,
        initializer_deposit_token_account: TokenHolding {
            key: ctx.initializer_deposit_token_account.key,
            owner: custodian_of(program_id),
            amount: ctx.initializer_deposit_token_account.amount,
        },
        initializer_receive_wallet_account: ctx.initializer_receive_wallet_account,
        escrow_account: Some(
            EscrowAccount {
                initializer_key: ctx.initializer.key,
                initializer_deposit_token_account: ctx.initializer_deposit_token_account.key,
                initializer_receive_wallet_account: ctx.initializer_receive_wallet_account.key,
                initializer_amount,
                taker_amount,
            },
        ),
        escrow_reserve: ctx.escrow_reserve,
    }
}

/// Open: record the deal and move the Vault under protocol custody.
///
/// On success the record exists, immutable until destroyed, and the Vault's
/// authority is the custodian derived for `program_id`; no balance moves.
/// On failure every account is unchanged and the error is the first failing
/// check, in the order [`init_check`] gives.
pub fn initialize_escrow(
    ctx: &mut InitializeEscrow,
    initializer_amount: u64,
    taker_amount: u64,
    program_id: &Identity,
) -> (r: Result<(), EscrowError>)
    ensures
        r is Ok <==> init_check(*old(ctx), initializer_amount) is Ok,
        r is Ok ==> *final(ctx) == init_apply(*old(ctx), initializer_amount, taker_amount, *program_id),
        r matches Err(e) ==> init_check(*old(ctx), initializer_amount) == Err::<(), EscrowError>(e)
            && *final(ctx) == *old(ctx),
{
    if !ctx.initializer.is_signer {
        return Err(EscrowError::Unauthorized);
    }
    if ctx.initializer_deposit_token_account.amount < initializer_amount {
        return Err(EscrowError::InsufficientBalance);
    }
    if ctx.escrow_account.is_some() {
        return Err(EscrowError::AlreadyInitialized);
    }
    if ctx.initializer_deposit_token_account.owner != ctx.initializer.key {
        return Err(EscrowError::Unauthorized);
    }
    ctx.escrow_account = Some(
        EscrowAccount {
            initializer_key: ctx.initializer.key,
            initializer_deposit_token_account: ctx.initializer_deposit_token_account.key,
            initializer_receive_wallet_account: ctx.initializer_receive_wallet_account.key,
            initializer_amount,
            taker_amount,
        },
    );
    let custodian = custodian_identity(program_id);
    let initializer_key = ctx.initializer.key;
    match set_authority(&mut ctx.initializer_deposit_token_account, &initializer_key, &custodian) {
        Ok(()) => Ok(()),
        Err(e) => Err(e),
    }
}

/// The first check a cancel transition fails, if any: the record must
/// exist, the caller must be the record's initializer, and the supplied
/// Vault must be the one the record names.
pub open spec fn cancel_check(ctx: CancelEscrow) -> Result<(), EscrowError> {
    if ctx.escrow_account is None {
        Err(EscrowError::NotFound)
    } else if ctx.escrow_account->Some_0.initializer_key != ctx.initializer.key {
        Err(EscrowError::Unauthorized)
    } else if ctx.escrow_account->Some_0.initializer_deposit_token_account
        != ctx.pda_deposit_token_account.key {
        Err(EscrowError::RecordMismatch)
    } else {
        Ok(())
    }
}

/// What must hold of the accounts for a cancel to go through: the custody
/// invariant (the Vault is owned by the supplied custodian reference), and
/// room for the storage-reserve refund to fit in 64 bits.
pub open spec fn cancel_settleable(ctx: CancelEscrow) -> bool {
    ctx.escrow_account is Some ==> {
        &&& ctx.pda_deposit_token_account.owner == ctx.pda_account
        &&& ctx.initializer.lamports + ctx.escrow_reserve <= u64::MAX
    }
}

/// The state a successful cancel leaves behind: the Vault's authority is
/// back with the initializer, its balance untouched, the record destroyed,
/// and the slot's storage reserve returned to the initializer's account.
pub open spec fn cancel_apply(ctx: CancelEscrow) -> CancelEscrow {
    CancelEscrow {
        initializer: Wallet {
            key: ctx.initializer.key,
            lamports: (ctx.initializer.lamports + ctx.escrow_reserve) as u64,
            is_signer: ctx.initializer.is_signer,
        },
        pda_deposit_token_account: TokenHolding {
            key: ctx.pda_deposit_token_account.key,
            owner: ctx.escrow_account->Some_0.initializer_key,
            amount: ctx.pda_deposit_token_account.amount,
        },
        pda_account: ctx.pda_account,
        escrow_account: None,
        escrow_reserve: 0,
    }
}

/// Cancel: hand the Vault back to the initializer and destroy the record.
///
/// Cancel gates on identity equality alone: it does not demand a fresh
/// signature from the initializer, only that the claimed initializer's
/// identity equals the one the record stored at open time.
///
/// The custody invariant — while an escrow is open its Vault is owned by
/// the supplied custodian reference — is assumed of the success path only;
/// every refused input is still admitted and left unchanged.
pub fn cancel_escrow(ctx: &mut CancelEscrow) -> (r: Result<(), EscrowError>)
    requires
        cancel_check(*old(ctx)) is Ok ==> cancel_settleable(*old(ctx)),
    ensures
        r is Ok <==> cancel_check(*old(ctx)) is Ok,
        r is Ok ==> *final(ctx) == cancel_apply(*old(ctx)),
        r matches Err(e) ==> cancel_check(*old(ctx)) == Err::<(), EscrowError>(e) && *final(ctx)
            == *old(ctx),
{
    let record = match &ctx.escrow_account {
        Some(record) => *record,
        None => { return Err(EscrowError::NotFound); },
    };
    if record.initializer_key != ctx.initializer.key {
        return Err(EscrowError::Unauthorized);
    }
    if record.initializer_deposit_token_account != ctx.pda_deposit_token_account.key {
        return Err(EscrowError::RecordMismatch);
    }
    let pda = ctx.pda_account;
    match set_authority(&mut ctx.pda_deposit_token_account, &pda, &record.initializer_key) {
        Ok(()) => {},
        Err(e) => { return Err(e); },
    }
    // the ledger removes the record's slot and hands its reserve back
    ctx.initializer.lamports = ctx.initializer.lamports + ctx.escrow_reserve;
    ctx.escrow_reserve = 0;
    ctx.escrow_account = None;
    Ok(())
}

/// The first check an exchange transition fails, if any: the record must
/// exist, the taker must have signed, the taker's native-currency balance
/// must cover the requested amount, and each of the supplied Vault, payout
/// destination and initializer accounts must match the record's stored
/// references.
pub open spec fn exch_check(ctx: Exchange) -> Result<(), EscrowError> {
    if ctx.escrow_account is None {
        Err(EscrowError::NotFound)
    } else if !ctx.taker.is_signer {
        Err(EscrowError::Unauthorized)
    } else if ctx.taker.lamports < ctx.escrow_account->Some_0.taker_amount {
        Err(EscrowError::InsufficientFunds)
    } else if ctx.escrow_account->Some_0.initializer_deposit_token_account
        != ctx.pda_deposit_token_account.key {
        Err(EscrowError::RecordMismatch)
    } else if ctx.escrow_account->Some_0.initializer_receive_wallet_account
        != ctx.initializer_receive_wallet_account.key {
        Err(EscrowError::RecordMismatch)
    } else if ctx.escrow_account->Some_0.initializer_key != ctx.initializer_main_account.key {
        Err(EscrowError::RecordMismatch)
    } else {
        Ok(())
    }
}

/// What must hold of the accounts for a settlement to go through: the
/// custody invariant (the Vault is owned by the supplied custodian
/// reference and physically holds the deposit), and room for the three
/// credits — the two swap amounts and the storage-reserve refund — to fit
/// in 64 bits.
pub open spec fn exch_settleable(ctx: Exchange) -> bool {
    ctx.escrow_account matches Some(record) ==> {
        &&& ctx.pda_deposit_token_account.owner == ctx.pda_account
        &&& record.initializer_amount <= ctx.pda_deposit_token_account.amount
        &&& ctx.taker_receive_token_account.amount + record.initializer_amount <= u64::MAX
        &&& ctx.initializer_receive_wallet_account.lamports + record.taker_amount <= u64::MAX
        &&& ctx.initializer_main_account.lamports + ctx.escrow_reserve <= u64::MAX
    }
}

/// The state a successful exchange leaves behind: the deposited X has moved
/// from the Vault to the taker, the requested native currency from the
/// taker to the initializer's payout destination, residual Vault authority
/// is back with the initializer, the record is destroyed, and the slot's
/// storage reserve is returned to the initializer's own account.
pub open spec fn exch_apply(ctx: Exchange) -> Exchange {
    let record = ctx.escrow_account->Some_0;
    Exchange {
        taker: Wallet {
            key: ctx.taker.key,
            lamports: (ctx.taker.lamports - record.taker_amount) as u64,
            is_signer: ctx.taker.is_signer,
        },
        taker_receive_token_account: TokenHolding {
            key: ctx.taker_receive_token_account.key,
            owner: ctx.taker_receive_token_account.owner,
            amount: (ctx.taker_receive_token_account.amount + record.initializer_amount) as u64,
        },
        pda_deposit_token_account: TokenHolding {
            key: ctx.pda_deposit_token_account.key,
            owner: record.initializer_key,
            amount: (ctx.pda_deposit_token_account.amount - record.initializer_amount) as u64,
        },
        initializer_receive_wallet_account: Wallet {
            key: ctx.initializer_receive_wallet_account.key,
            lamports: (ctx.initializer_receive_wallet_account.lamports + record.taker_amount) as u64,
            is_signer: ctx.initializer_receive_wallet_account.is_signer,
        },
        initializer_main_account: Wallet {
            key: ctx.initializer_main_account.key,
            lamports: (ctx.initializer_main_account.lamports + ctx.escrow_reserve) as u64,
            is_signer: ctx.initializer_main_account.is_signer,
        },
        escrow_account: None,
        escrow_reserve: 0,
        pda_account: ctx.pda_account,
    }
}

/// Exchange: settle the swap atomically.
///
/// In strict order: the custodian releases the deposited X from the Vault
/// to the taker's holding, the taker pays the requested native currency to
/// the initializer's payout destination, residual Vault authority goes back
/// to the initializer, and the record is destroyed with its storage reserve
/// returned to the initializer's own account. Every check precedes every
/// mutation, so a refused exchange leaves every account unchanged.
pub fn exchange(ctx: &mut Exchange) -> (r: Result<(), EscrowError>)
    requires
        exch_check(*old(ctx)) is Ok ==> exch_settleable(*old(ctx)),
    ensures
        r is Ok <==> exch_check(*old(ctx)) is Ok,
        r is Ok ==> *final(ctx) == exch_apply(*old(ctx)),
        r matches Err(e) ==> exch_check(*old(ctx)) == Err::<(), EscrowError>(e) && *final(ctx)
            == *old(ctx),
{
    let record = match &ctx.escrow_account {
        Some(record) => *record,
        None => { return Err(EscrowError::NotFound); },
    };
    if !ctx.taker.is_signer {
        return Err(EscrowError::Unauthorized);
    }
    if ctx.taker.lamports < record.taker_amount {
        return Err(EscrowError::InsufficientFunds);
    }
    if record.initializer_deposit_token_account != ctx.pda_deposit_token_account.key {
        return Err(EscrowError::RecordMismatch);
    }
    if record.initializer_receive_wallet_account != ctx.initializer_receive_wallet_account.key {
        return Err(EscrowError::RecordMismatch);
    }
    if record.initializer_key != ctx.initializer_main_account.key {
        return Err(EscrowError::RecordMismatch);
    }
    let pda = ctx.pda_account;
    match transfer(
        &mut ctx.pda_deposit_token_account,
        &mut ctx.taker_receive_token_account,
        record.initializer_amount,
        &pda,
    ) {
        Ok(()) => {},
        Err(e) => { return Err(e); },
    }
    match pay(&mut ctx.taker, &mut ctx.initializer_receive_wallet_account, record.taker_amount) {
        Ok(()) => {},
        Err(e) => { return Err(e); },
    }
    match set_authority(&mut ctx.pda_deposit_token_account, &pda, &record.initializer_key) {
        Ok(()) => {},
        Err(e) => { return Err(e); },
    }
    // the ledger removes the record's slot and hands its reserve back
    ctx.initializer_main_account.lamports = ctx.initializer_main_account.lamports
        + ctx.escrow_reserve;
    ctx.escrow_reserve = 0;
    ctx.escrow_account = None;
    Ok(())
}

} // verus!
