use vstd::prelude::*;

use crate::error::ClawbackError;
use crate::keys::Pubkey;
use crate::token::TokenAccount;

verus! {

/// The custodial record of one owner: which asset it holds, where its balance
/// lies, and the id that the next payment will take.
#[derive(Clone, Copy, Debug)]
pub struct Vault {
    pub owner: Pubkey,
    pub usdc_mint: Pubkey,
    pub vault_token_account: Pubkey,
    pub next_payment_id: u64,
}

/// The records that creating a vault reads and fills: `vault` and
/// `vault_token_account` are `None` until the vault exists.
#[derive(Clone, Copy, Debug)]
pub struct InitializeVault {
    pub owner: Pubkey,
    pub usdc_mint: Pubkey,
    pub vault_token_address: Pubkey,
    pub vault: Option<Vault>,
    pub vault_token_account: Option<TokenAccount>,
}

/// Why creating a vault refuses, if it does: only when it exists already.
pub open spec fn initialize_error(ctx: InitializeVault) -> Option<ClawbackError> {
    if ctx.vault is Some || ctx.vault_token_account is Some {
        Some(ClawbackError::AlreadyExists)
    } else {
        None
    }
}

/// Creates the owner's vault, with payment ids starting at zero and an empty
/// custody account. Refused with `AlreadyExists` when either record exists.
pub fn initialize_vault(ctx: &mut InitializeVault) -> (r: Result<(), ClawbackError>)
    ensures
        match initialize_error(*old(ctx)) {
            Some(e) => r == Err::<(), ClawbackError>(e) && *final(ctx) == *old(ctx),
            None => r is Ok && *final(ctx) == (InitializeVault {
                vault: Some(
                    Vault {
                        owner: old(ctx).owner,
                        usdc_mint: old(ctx).usdc_mint,
                        vault_token_account: old(ctx).vault_token_address,
                        next_payment_id: 0,
                    },
                ),
                vault_token_account: Some(TokenAccount { amount: 0 }),
                ..*old(ctx)
            }),
        },
{
    if ctx.vault.is_some() || ctx.vault_token_account.is_some() {
        return Err(ClawbackError::AlreadyExists);
    }
    ctx.vault = Some(
        Vault {
            owner: ctx.owner,
            usdc_mint: ctx.usdc_mint,
            vault_token_account: ctx.vault_token_address,
            next_payment_id: 0,
        },
    );
    ctx.vault_token_account = Some(TokenAccount { amount: 0 });
    Ok(())
}

} // verus!
