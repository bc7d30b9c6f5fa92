use vstd::prelude::*;

use crate::error::ClawbackError;

verus! {

/// A balance of the vault's single asset, held by the vault, by one payment's
/// escrow, or by a recipient.
#[derive(Clone, Copy, Debug, PartialEq, Eq, Structural)]
pub struct TokenAccount {
    pub amount: u64,
}

/// Whether moving `amount` from `from` to `to` succeeds, and with which error if not.
pub open spec fn transfer_error(from: TokenAccount, to: TokenAccount, amount: u64) -> Option<
    ClawbackError,
> {
    if from.amount < amount {
        Some(ClawbackError::InsufficientFunds)
    } else if to.amount + amount > u64::MAX {
        Some(ClawbackError::Overflow)
    } else {
        None
    }
}

impl TokenAccount {
    /// An account with the given balance.
    pub fn new(amount: u64) -> (r: TokenAccount)
        ensures
            r.amount == amount,
    {
        TokenAccount { amount }
    }
}

/// Moves `amount` from `from` to `to`, all or nothing: on an error neither
/// balance changes.
pub fn transfer(from: &mut TokenAccount, to: &mut TokenAccount, amount: u64) -> (r: Result<
    (),
    ClawbackError,
>)
    ensures
        match transfer_error(*old(from), *old(to), amount) {
            Some(e) => r == Err::<(), ClawbackError>(e) && *final(from) == *old(from) && *final(to)
                == *old(to),
            None => r is Ok && final(from).amount == old(from).amount - amount && final(to).amount
                == old(to).amount + amount,
        },
{
    if from.amount < amount {
        return Err(ClawbackError::InsufficientFunds);
    }
    if to.amount > u64::MAX - amount {
        return Err(ClawbackError::Overflow);
    }
    from.amount = from.amount - amount;
    to.amount = to.amount + amount;
    Ok(())
}

} // verus!
