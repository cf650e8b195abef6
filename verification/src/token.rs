//! The asset-transfer service and the native-currency primitive, as the
//! state machine consumes them.
//!
//! Their whole behaviour is a few lines — an authority check and a balance
//! move — so they are written out and proved here rather than taken on
//! trust. Authority over a holding is its `owner` field; these are the only
//! operations that change it or move a balance, and each checks the
//! presented authority first.

use vstd::prelude::*;

use crate::accounts::{TokenHolding, Wallet};
use crate::identity::Identity;
use crate::EscrowError;

verus! {

/// Delegate authority over `holding` to `new_authority`.
///
/// Only the holding's current authority may delegate it away; anyone else
/// is refused and the holding is untouched.
pub fn set_authority(holding: &mut TokenHolding, authorized_by: &Identity, new_authority: &Identity) -> (r: Result<
    (),
    EscrowError,
>)
    ensures
        r is Ok <==> old(holding).owner == *authorized_by,
        r is Ok ==> *final(holding) == (TokenHolding {
            key: old(holding).key,
            owner: *new_authority,
            amount: old(holding).amount,
        }),
        r is Err ==> *final(holding) == *old(holding) && r == Err::<(), EscrowError>(
            EscrowError::Unauthorized,
        ),
{
    if holding.owner == *authorized_by {
        holding.owner = *new_authority;
        Ok(())
    } else {
        Err(EscrowError::Unauthorized)
    }
}

/// Move `amount` tokens from one holding to another, on the authority of
/// `from`'s owner.
///
/// Refused, with both holdings untouched, unless `authorized_by` owns the
/// source and the source balance covers `amount`.
pub fn transfer(
    from: &mut TokenHolding,
    to: &mut TokenHolding,
    amount: u64,
    authorized_by: &Identity,
) -> (r: Result<(), EscrowError>)
    requires
        old(to).amount + amount <= u64::MAX,
    ensures
        r is Ok <==> (old(from).owner == *authorized_by && amount <= old(from).amount),
        r is Ok ==> *final(from) == (TokenHolding {
            key: old(from).key,
            owner: old(from).owner,
            amount: (old(from).amount - amount) as u64,
        }) && *final(to) == (TokenHolding {
            key: old(to).key,
            owner: old(to).owner,
            amount: (old(to).amount + amount) as u64,
        }),
        r matches Err(e) ==> *final(from) == *old(from) && *final(to) == *old(to) && e == (
        if old(from).owner != *authorized_by {
            EscrowError::Unauthorized
        } else {
            EscrowError::InsufficientBalance
        }),
{
    if from.owner != *authorized_by {
        return Err(EscrowError::Unauthorized);
    }
    if from.amount < amount {
        return Err(EscrowError::InsufficientBalance);
    }
    from.amount = from.amount - amount;
    to.amount = to.amount + amount;
    Ok(())
}

/// Pay `amount` of native currency from one wallet to another, authorized
/// by the payer's own signature.
///
/// Refused, with both wallets untouched, unless the payer signed and its
/// balance covers `amount`.
pub fn pay(from: &mut Wallet, to: &mut Wallet, amount: u64) -> (r: Result<(), EscrowError>)
    requires
        old(to).lamports + amount <= u64::MAX,
    ensures
        r is Ok <==> (old(from).is_signer && amount <= old(from).lamports),
        r is Ok ==> *final(from) == (Wallet {
            key: old(from).key,
            lamports: (old(from).lamports - amount) as u64,
            is_signer: old(from).is_signer,
        }) && *final(to) == (Wallet {
            key: old(to).key,
            lamports: (old(to).lamports + amount) as u64,
            is_signer: old(to).is_signer,
        }),
        r matches Err(e) ==> *final(from) == *old(from) && *final(to) == *old(to) && e == (
        if !old(from).is_signer {
            EscrowError::Unauthorized
        } else {
            EscrowError::InsufficientFunds
        }),
{
    if !from.is_signer {
        return Err(EscrowError::Unauthorized);
    }
    if from.lamports < amount {
        return Err(EscrowError::InsufficientFunds);
    }
    from.lamports = from.lamports - amount;
    to.lamports = to.lamports + amount;
    Ok(())
}

} // verus!
