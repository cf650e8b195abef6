use escrow::accounts::{TokenHolding, Wallet};
use escrow::identity::Identity;
use escrow::token::{pay, set_authority, transfer};
use escrow::EscrowError;

fn id(n: u64) -> Identity {
    Identity::new(n, 0, 0, 0)
}

#[test]
fn set_authority_requires_current_authority() {
    let mut h = TokenHolding { key: id(1), owner: id(2), amount: 7 };
    assert_eq!(set_authority(&mut h, &id(3), &id(4)), Err(EscrowError::Unauthorized));
    assert_eq!(h.owner, id(2));
    assert_eq!(set_authority(&mut h, &id(2), &id(4)), Ok(()));
    assert_eq!(h.owner, id(4));
    assert_eq!(h.amount, 7);
}

#[test]
fn transfer_moves_exactly_the_amount() {
    let mut from = TokenHolding { key: id(1), owner: id(9), amount: 10 };
    let mut to = TokenHolding { key: id(2), owner: id(8), amount: 1 };
    assert_eq!(transfer(&mut from, &mut to, 4, &id(9)), Ok(()));
    assert_eq!(from.amount, 6);
    assert_eq!(to.amount, 5);
}

#[test]
fn transfer_refuses_wrong_authority_and_shortfall() {
    let mut from = TokenHolding { key: id(1), owner: id(9), amount: 10 };
    let mut to = TokenHolding { key: id(2), owner: id(8), amount: 1 };
    assert_eq!(transfer(&mut from, &mut to, 4, &id(7)), Err(EscrowError::Unauthorized));
    assert_eq!(transfer(&mut from, &mut to, 11, &id(9)), Err(EscrowError::InsufficientBalance));
    assert_eq!(from.amount, 10);
    assert_eq!(to.amount, 1);
}

#[test]
fn pay_requires_signature_and_funds() {
    let mut from = Wallet { key: id(1), lamports: 5, is_signer: false };
    let mut to = Wallet { key: id(2), lamports: 0, is_signer: false };
    assert_eq!(pay(&mut from, &mut to, 3), Err(EscrowError::Unauthorized));
    from.is_signer = true;
    assert_eq!(pay(&mut from, &mut to, 6), Err(EscrowError::InsufficientFunds));
    assert_eq!(pay(&mut from, &mut to, 3), Ok(()));
    assert_eq!(from.lamports, 2);
    assert_eq!(to.lamports, 3);
}
