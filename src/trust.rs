use vstd::prelude::*;

use crate::error::ClawbackError;
use crate::keys::Pubkey;
use crate::vault::Vault;

verus! {

/// The owner's decision on one recipient: a trusted recipient is paid without
/// a cooling-off delay.
#[derive(Clone, Copy, Debug)]
pub struct TrustedRecipient {
    pub vault: Pubkey,
    pub recipient: Pubkey,
    pub trusted: bool,
}

/// Whether a recipient whose record is `record` is trusted; no record means untrusted.
pub open spec fn trusted_flag(record: Option<TrustedRecipient>) -> bool {
    match record {
        Some(t) => t.trusted,
        None => false,
    }
}

/// Whether a recipient whose record is `record` is trusted; no record means untrusted.
pub fn is_trusted(record: &Option<TrustedRecipient>) -> (r: bool)
    ensures
        r == trusted_flag(*record),
{
    match record {
        Some(t) => t.trusted,
        None => false,
    }
}

/// The records that setting a recipient's trust reads and writes;
/// `trusted_recipient` is `None` until a record exists for the recipient.
#[derive(Clone, Copy, Debug)]
pub struct SetTrustedRecipient {
    pub owner: Pubkey,
    pub vault_address: Pubkey,
    pub vault: Vault,
    pub trusted_recipient: Option<TrustedRecipient>,
}

/// Why `set_trusted_recipient` refuses, if it does.
pub open spec fn set_trusted_error(ctx: SetTrustedRecipient, recipient: Pubkey) -> Option<
    ClawbackError,
> {
    if ctx.owner != ctx.vault.owner {
        Some(ClawbackError::Unauthorized)
    } else if ctx.trusted_recipient matches Some(t) && (t.vault != ctx.vault_address || t.recipient
        != recipient) {
        Some(ClawbackError::AccountMismatch)
    } else {
        None
    }
}

/// Creates the recipient's record, or overwrites its flag; owner only.
pub fn set_trusted_recipient(ctx: &mut SetTrustedRecipient, recipient: Pubkey, trusted: bool) -> (r:
    Result<(), ClawbackError>)
    ensures
        match set_trusted_error(*old(ctx), recipient) {
            Some(e) => r == Err::<(), ClawbackError>(e) && *final(ctx) == *old(ctx),
            None => r is Ok && *final(ctx) == (SetTrustedRecipient {
                trusted_recipient: Some(
                    TrustedRecipient { vault: old(ctx).vault_address, recipient, trusted },
                ),
                ..*old(ctx)
            }),
        },
        r is Ok ==> trusted_flag(final(ctx).trusted_recipient) == trusted,
{
    if ctx.owner != ctx.vault.owner {
        return Err(ClawbackError::Unauthorized);
    }
    if let Some(t) = &ctx.trusted_recipient {
        if t.vault != ctx.vault_address || t.recipient != recipient {
            return Err(ClawbackError::AccountMismatch);
        }
    }
    ctx.trusted_recipient = Some(TrustedRecipient { vault: ctx.vault_address, recipient, trusted });
    Ok(())
}

} // verus!
