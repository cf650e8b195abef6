use escrow::accounts::{CancelEscrow, EscrowAccount, Exchange, InitializeEscrow, TokenHolding, Wallet};
use escrow::custodian::custodian_identity;
use escrow::escrow::{cancel_escrow, exchange, initialize_escrow};
use escrow::identity::Identity;
use escrow::EscrowError;

fn id(n: u64) -> Identity {
    Identity::new(n, 0, 0, 0)
}

fn program_id() -> Identity {
    id(900)
}

/// An open context for party A: Vault holds 100 X, A signs, and the record
/// slot is fresh.
fn open_ctx() -> InitializeEscrow {
    InitializeEscrow {
        initializer: Wallet { key: id(1), lamports: 10, is_signer: true },
        initializer_deposit_token_account: TokenHolding { key: id(2), owner: id(1), amount: 100 },
        initializer_receive_wallet_account: Wallet { key: id(3), lamports: 0, is_signer: false },
        escrow_account: None,
        escrow_reserve: 7,
    }
}

/// The exchange context for taker B against the record an open of
/// `open_ctx` wrote: B holds 5 native units and signs.
fn exchange_ctx(opened: &InitializeEscrow) -> Exchange {
    Exchange {
        taker: Wallet { key: id(4), lamports: 5, is_signer: true },
        taker_receive_token_account: TokenHolding { key: id(5), owner: id(4), amount: 0 },
        pda_deposit_token_account: opened.initializer_deposit_token_account,
        initializer_receive_wallet_account: opened.initializer_receive_wallet_account,
        initializer_main_account: opened.initializer,
        escrow_account: opened.escrow_account,
        escrow_reserve: opened.escrow_reserve,
        pda_account: custodian_identity(&program_id()),
    }
}

fn cancel_ctx(opened: &InitializeEscrow) -> CancelEscrow {
    CancelEscrow {
        initializer: opened.initializer,
        pda_deposit_token_account: opened.initializer_deposit_token_account,
        pda_account: custodian_identity(&program_id()),
        escrow_account: opened.escrow_account,
        escrow_reserve: opened.escrow_reserve,
    }
}

#[test]
fn open_records_deal_and_delegates_custody() {
    let mut ctx = open_ctx();
    let r = initialize_escrow(&mut ctx, 100, 5, &program_id());
    assert_eq!(r, Ok(()));
    let record = ctx.escrow_account.expect("record must exist after open");
    assert_eq!(record.initializer_key, id(1));
    assert_eq!(record.initializer_deposit_token_account, id(2));
    assert_eq!(record.initializer_receive_wallet_account, id(3));
    assert_eq!(record.initializer_amount, 100);
    assert_eq!(record.taker_amount, 5);
    // custody moved to the custodian, balance untouched
    assert_eq!(ctx.initializer_deposit_token_account.owner, custodian_identity(&program_id()));
    assert_eq!(ctx.initializer_deposit_token_account.amount, 100);
    // the slot keeps its storage reserve while the record exists
    assert_eq!(ctx.escrow_reserve, 7);
}

#[test]
fn open_then_exchange_settles_and_second_settlement_fails() {
    // A opens escrow offering 100 X for 5 native units; B takes it.
    let mut open = open_ctx();
    assert_eq!(initialize_escrow(&mut open, 100, 5, &program_id()), Ok(()));

    let mut x = exchange_ctx(&open);
    assert_eq!(exchange(&mut x), Ok(()));
    // B ends with 100 X and 0 native units
    assert_eq!(x.taker_receive_token_account.amount, 100);
    assert_eq!(x.taker.lamports, 0);
    // the Vault is empty and no longer the custodian's
    assert_eq!(x.pda_deposit_token_account.amount, 0);
    assert_eq!(x.pda_deposit_token_account.owner, id(1));
    // A's payout destination gained exactly 5
    assert_eq!(x.initializer_receive_wallet_account.lamports, 5);
    // A's own account got the record's storage reserve back
    assert_eq!(x.initializer_main_account.lamports, 10 + 7);
    // the record is gone, its reserve released
    assert_eq!(x.escrow_account, None);
    assert_eq!(x.escrow_reserve, 0);

    // a second exchange on the same handle fails with NotFound
    let settled = x;
    let mut again = settled;
    assert_eq!(exchange(&mut again), Err(EscrowError::NotFound));
    assert_eq!(again, settled);

    // and so does a cancel
    let mut c = CancelEscrow {
        initializer: open.initializer,
        pda_deposit_token_account: settled.pda_deposit_token_account,
        pda_account: settled.pda_account,
        escrow_account: settled.escrow_account,
        escrow_reserve: settled.escrow_reserve,
    };
    assert_eq!(cancel_escrow(&mut c), Err(EscrowError::NotFound));
}

#[test]
fn open_then_cancel_restores_custody_and_exchange_fails() {
    // A opens escrow (100 X for 5 native units), then cancels.
    let mut open = open_ctx();
    assert_eq!(initialize_escrow(&mut open, 100, 5, &program_id()), Ok(()));

    let mut c = cancel_ctx(&open);
    assert_eq!(cancel_escrow(&mut c), Ok(()));
    // A regains Vault authority and its 100 X; the only credit is the
    // record's storage reserve coming back to A
    assert_eq!(c.pda_deposit_token_account.owner, id(1));
    assert_eq!(c.pda_deposit_token_account.amount, 100);
    assert_eq!(c.initializer.lamports, open.initializer.lamports + 7);
    assert_eq!(c.escrow_account, None);
    assert_eq!(c.escrow_reserve, 0);

    // a later exchange attempt fails with NotFound
    let mut x = exchange_ctx(&open);
    x.escrow_account = c.escrow_account;
    x.escrow_reserve = c.escrow_reserve;
    x.pda_deposit_token_account = c.pda_deposit_token_account;
    assert_eq!(exchange(&mut x), Err(EscrowError::NotFound));
}

#[test]
fn open_rejects_unsigned_initializer() {
    let mut ctx = open_ctx();
    ctx.initializer.is_signer = false;
    let before = ctx;
    assert_eq!(initialize_escrow(&mut ctx, 100, 5, &program_id()), Err(EscrowError::Unauthorized));
    assert_eq!(ctx, before);
}

#[test]
fn open_rejects_offer_exceeding_vault_balance() {
    let mut ctx = open_ctx();
    let before = ctx;
    assert_eq!(
        initialize_escrow(&mut ctx, 101, 5, &program_id()),
        Err(EscrowError::InsufficientBalance)
    );
    assert_eq!(ctx, before);
}

#[test]
fn open_rejects_occupied_record_slot() {
    let mut ctx = open_ctx();
    assert_eq!(initialize_escrow(&mut ctx, 100, 5, &program_id()), Ok(()));
    // the Vault is the custodian's now; hand it back for a clean retry
    ctx.initializer_deposit_token_account.owner = id(1);
    let before = ctx;
    assert_eq!(
        initialize_escrow(&mut ctx, 50, 5, &program_id()),
        Err(EscrowError::AlreadyInitialized)
    );
    assert_eq!(ctx, before);
}

#[test]
fn open_rejects_vault_not_owned_by_initializer() {
    let mut ctx = open_ctx();
    ctx.initializer_deposit_token_account.owner = id(7);
    let before = ctx;
    assert_eq!(initialize_escrow(&mut ctx, 100, 5, &program_id()), Err(EscrowError::Unauthorized));
    assert_eq!(ctx, before);
}

#[test]
fn cancel_rejects_wrong_initializer() {
    let mut open = open_ctx();
    assert_eq!(initialize_escrow(&mut open, 100, 5, &program_id()), Ok(()));
    let mut c = cancel_ctx(&open);
    c.initializer.key = id(8);
    let before = c;
    assert_eq!(cancel_escrow(&mut c), Err(EscrowError::Unauthorized));
    assert_eq!(c, before);
}

#[test]
fn cancel_rejects_foreign_vault() {
    let mut open = open_ctx();
    assert_eq!(initialize_escrow(&mut open, 100, 5, &program_id()), Ok(()));
    let mut c = cancel_ctx(&open);
    c.pda_deposit_token_account.key = id(9);
    let before = c;
    assert_eq!(cancel_escrow(&mut c), Err(EscrowError::RecordMismatch));
    assert_eq!(c, before);
}

#[test]
fn exchange_rejects_unsigned_taker() {
    let mut open = open_ctx();
    assert_eq!(initialize_escrow(&mut open, 100, 5, &program_id()), Ok(()));
    let mut x = exchange_ctx(&open);
    x.taker.is_signer = false;
    let before = x;
    assert_eq!(exchange(&mut x), Err(EscrowError::Unauthorized));
    assert_eq!(x, before);
}

#[test]
fn exchange_rejects_underfunded_taker() {
    let mut open = open_ctx();
    assert_eq!(initialize_escrow(&mut open, 100, 5, &program_id()), Ok(()));
    let mut x = exchange_ctx(&open);
    x.taker.lamports = 4;
    let before = x;
    assert_eq!(exchange(&mut x), Err(EscrowError::InsufficientFunds));
    assert_eq!(x, before);
}

#[test]
fn exchange_rejects_mismatched_vault() {
    let mut open = open_ctx();
    assert_eq!(initialize_escrow(&mut open, 100, 5, &program_id()), Ok(()));
    let mut x = exchange_ctx(&open);
    x.pda_deposit_token_account.key = id(11);
    let before = x;
    assert_eq!(exchange(&mut x), Err(EscrowError::RecordMismatch));
    assert_eq!(x, before);
}

#[test]
fn exchange_rejects_mismatched_payout_destination() {
    let mut open = open_ctx();
    assert_eq!(initialize_escrow(&mut open, 100, 5, &program_id()), Ok(()));
    let mut x = exchange_ctx(&open);
    x.initializer_receive_wallet_account.key = id(12);
    let before = x;
    assert_eq!(exchange(&mut x), Err(EscrowError::RecordMismatch));
    assert_eq!(x, before);
}

#[test]
fn exchange_rejects_mismatched_initializer() {
    let mut open = open_ctx();
    assert_eq!(initialize_escrow(&mut open, 100, 5, &program_id()), Ok(()));
    let mut x = exchange_ctx(&open);
    x.initializer_main_account.key = id(13);
    let before = x;
    assert_eq!(exchange(&mut x), Err(EscrowError::RecordMismatch));
    assert_eq!(x, before);
}

#[test]
fn exchange_conserves_every_balance() {
    // arbitrary but distinct starting balances
    let mut open = open_ctx();
    open.initializer_deposit_token_account.amount = 250;
    assert_eq!(initialize_escrow(&mut open, 70, 9, &program_id()), Ok(()));

    let mut x = exchange_ctx(&open);
    x.taker.lamports = 30;
    x.taker_receive_token_account.amount = 11;
    x.initializer_receive_wallet_account.lamports = 2;
    assert_eq!(exchange(&mut x), Ok(()));
    assert_eq!(x.taker_receive_token_account.amount, 11 + 70);
    assert_eq!(x.pda_deposit_token_account.amount, 250 - 70);
    assert_eq!(x.initializer_receive_wallet_account.lamports, 2 + 9);
    assert_eq!(x.taker.lamports, 30 - 9);
}
