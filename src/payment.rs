use vstd::prelude::*;

use crate::cooling_off::{cooling_off, get_cooling_off_period};
use crate::error::ClawbackError;
use crate::keys::Pubkey;
use crate::policy::Policy;
use crate::token::{transfer, transfer_error, TokenAccount};
use crate::trust::{is_trusted, trusted_flag, TrustedRecipient};
use crate::vault::Vault;
use vstd::utf8::encode_utf8;

verus! {

/// The longest intent URI a payment record holds, in bytes.
pub const MAX_INTENT_URI_LEN: usize = 200;

/// Where a payment stands: waiting out its cooling-off period, or settled
/// one way or the other for good.
#[derive(Clone, Copy, Debug, PartialEq, Eq, Structural)]
pub enum PaymentStatus {
    Pending,
    Finalized,
    ClawedBack,
}

/// The record of one payment, kept after settlement as an audit trail.
#[derive(Clone, Debug)]
pub struct Payment {
    pub id: u64,
    pub vault: Pubkey,
    pub agent: Pubkey,
    pub recipient: Pubkey,
    pub amount: u64,
    pub initiated_at: i64,
    pub finalize_at: i64,
    pub intent_hash: [u8; 32],
    pub intent_uri: String,
    pub status: PaymentStatus,
}

/// What a payment's escrow holds: its whole amount while pending, nothing
/// once settled.
pub open spec fn escrow_matches(payment: Payment, escrow: TokenAccount) -> bool {
    escrow.amount == if payment.status == PaymentStatus::Pending {
        payment.amount
    } else {
        0
    }
}

/// A status may stay as it is, or leave `Pending` for a settled state; nothing
/// else.
pub open spec fn status_step(a: PaymentStatus, b: PaymentStatus) -> bool {
    a == b || (a == PaymentStatus::Pending && b != PaymentStatus::Pending)
}

/// The length in bytes of the UTF-8 encoding of `s`, as `str::len` reports it.
pub open spec fn utf8_len(s: Seq<char>) -> usize {
    encode_utf8(s).len() as usize
}

/// The records that initiating a payment reads and writes; `payment` and its
/// escrow `payment_token_account` are `None` until the payment exists.
#[derive(Clone, Debug)]
pub struct InitiatePayment {
    pub agent: Pubkey,
    pub recipient: Pubkey,
    pub vault_address: Pubkey,
    pub vault: Vault,
    pub policy: Policy,
    pub trusted_recipient: Option<TrustedRecipient>,
    pub payment: Option<Payment>,
    pub vault_token_account: TokenAccount,
    pub payment_token_account: Option<TokenAccount>,
    pub recipient_token_account: TokenAccount,
}

/// The cooling-off delay that a payment of `amount` gets under `ctx`.
pub open spec fn delay_for(ctx: InitiatePayment, amount: u64) -> int {
    if trusted_flag(ctx.trusted_recipient) {
        0
    } else {
        cooling_off(amount)
    }
}

/// Why initiating a payment refuses, if it does, in the order of the checks.
pub open spec fn initiate_error(ctx: InitiatePayment, amount: u64, uri_len: nat, now: i64) -> Option<
    ClawbackError,
> {
    let trusted = trusted_flag(ctx.trusted_recipient);
    if ctx.agent != ctx.policy.agent {
        Some(ClawbackError::Unauthorized)
    } else if ctx.policy.vault != ctx.vault_address {
        Some(ClawbackError::AccountMismatch)
    } else if ctx.trusted_recipient matches Some(t) && (t.vault != ctx.vault_address || t.recipient
        != ctx.recipient) {
        Some(ClawbackError::AccountMismatch)
    } else if ctx.payment is Some || ctx.payment_token_account is Some {
        Some(ClawbackError::AlreadyExists)
    } else if uri_len > MAX_INTENT_URI_LEN {
        Some(ClawbackError::IntentUriTooLong)
    } else if ctx.policy.admission(amount, now) is Err {
        Some(ctx.policy.admission(amount, now)->Err_0)
    } else if ctx.vault.next_payment_id == u64::MAX {
        Some(ClawbackError::Overflow)
    } else if now + delay_for(ctx, amount) > i64::MAX {
        Some(ClawbackError::Overflow)
    } else if ctx.vault_token_account.amount < amount {
        Some(ClawbackError::InsufficientFunds)
    } else if trusted && ctx.recipient_token_account.amount + amount > u64::MAX {
        Some(ClawbackError::Overflow)
    } else {
        None
    }
}

/// An agent pays `amount` to the recipient. The spend must pass the agent's
/// policy; the amount then leaves the vault for a new escrow bound to a new
/// payment record, which takes the vault's next id. A trusted recipient is
/// paid at once and the payment is recorded as finalized; otherwise it stays
/// pending until `now` plus the cooling-off delay. A refused payment changes
/// nothing: no id is used, no policy spend is counted and no funds move.
pub fn initiate_payment(
    ctx: &mut InitiatePayment,
    amount: u64,
    intent_hash: [u8; 32],
    intent_uri: String,
    now: i64,
) -> (r: Result<(), ClawbackError>)
    ensures
        match initiate_error(*old(ctx), amount, utf8_len(intent_uri@) as nat, now) {
            Some(e) => r == Err::<(), ClawbackError>(e),
            None => r is Ok,
        },
        r is Err ==> *final(ctx) == *old(ctx),
        r is Ok ==> {
            let trusted = trusted_flag(old(ctx).trusted_recipient);
            &&& final(ctx).vault == (Vault {
                next_payment_id: (old(ctx).vault.next_payment_id + 1) as u64,
                ..old(ctx).vault
            })
            &&& final(ctx).policy == old(ctx).policy.admission(amount, now)->Ok_0
            &&& final(ctx).payment == Some(
                Payment {
                    id: old(ctx).vault.next_payment_id,
                    vault: old(ctx).vault_address,
                    agent: old(ctx).agent,
                    recipient: old(ctx).recipient,
                    amount,
                    initiated_at: now,
                    finalize_at: (now + delay_for(*old(ctx), amount)) as i64,
                    intent_hash,
                    intent_uri,
                    status: if trusted {
                        PaymentStatus::Finalized
                    } else {
                        PaymentStatus::Pending
                    },
                },
            )
            &&& final(ctx).vault_token_account.amount == old(ctx).vault_token_account.amount
                - amount
            &&& final(ctx).payment_token_account == Some(
                TokenAccount {
                    amount: if trusted {
                        0
                    } else {
                        amount
                    },
                },
            )
            &&& final(ctx).recipient_token_account.amount == old(ctx).recipient_token_account.amount
                + if trusted {
                amount
            } else {
                0
            }
            &&& escrow_matches(final(ctx).payment->0, final(ctx).payment_token_account->0)
            &&& final(ctx).agent == old(ctx).agent
            &&& final(ctx).recipient == old(ctx).recipient
            &&& final(ctx).vault_address == old(ctx).vault_address
            &&& final(ctx).trusted_recipient == old(ctx).trusted_recipient
        },
        // without the funds nothing happens, whatever else holds
        old(ctx).vault_token_account.amount < amount ==> r is Err && *final(ctx) == *old(ctx),
        // a trusted recipient is paid within this operation: the payment is never seen pending
        r is Ok && trusted_flag(old(ctx).trusted_recipient) ==> final(ctx).payment->0.status
            == PaymentStatus::Finalized && final(ctx).payment->0.finalize_at == now,
        old(ctx).policy.wf() ==> final(ctx).policy.wf(),
        // the id counter moves exactly when a record is created and funded
        (final(ctx).vault.next_payment_id != old(ctx).vault.next_payment_id) <==> r is Ok,
        (final(ctx).payment is Some && old(ctx).payment is None) <==> r is Ok,
        (final(ctx).vault_token_account != old(ctx).vault_token_account) ==> r is Ok,
{
    if ctx.agent != ctx.policy.agent {
        return Err(ClawbackError::Unauthorized);
    }
    if ctx.policy.vault != ctx.vault_address {
        return Err(ClawbackError::AccountMismatch);
    }
    if let Some(t) = &ctx.trusted_recipient {
        if t.vault != ctx.vault_address || t.recipient != ctx.recipient {
            return Err(ClawbackError::AccountMismatch);
        }
    }
    if ctx.payment.is_some() || ctx.payment_token_account.is_some() {
        return Err(ClawbackError::AlreadyExists);
    }
    if intent_uri.as_str().len() > MAX_INTENT_URI_LEN {
        return Err(ClawbackError::IntentUriTooLong);
    }
    let mut policy = ctx.policy;
    match policy.admit_spend(amount, now) {
        Ok(()) => {},
        Err(e) => {
            return Err(e);
        },
    }
    if ctx.vault.next_payment_id == u64::MAX {
        return Err(ClawbackError::Overflow);
    }
    let trusted = is_trusted(&ctx.trusted_recipient);
    let delay: i64 = if trusted {
        0
    } else {
        get_cooling_off_period(amount)
    };
    if now > i64::MAX - delay {
        return Err(ClawbackError::Overflow);
    }
    if ctx.vault_token_account.amount < amount {
        return Err(ClawbackError::InsufficientFunds);
    }
    if trusted && ctx.recipient_token_account.amount > u64::MAX - amount {
        return Err(ClawbackError::Overflow);
    }
    // every check has passed: commit the spend, the id, the record and the transfers together
    let payment_id = ctx.vault.next_payment_id;
    ctx.policy = policy;
    ctx.vault.next_payment_id = payment_id + 1;
    ctx.vault_token_account.amount = ctx.vault_token_account.amount - amount;
    let status = if trusted {
        ctx.recipient_token_account.amount = ctx.recipient_token_account.amount + amount;
        PaymentStatus::Finalized
    } else {
        PaymentStatus::Pending
    };
    ctx.payment_token_account = Some(
        TokenAccount {
            amount: if trusted {
                0
            } else {
                amount
            },
        },
    );
    ctx.payment = Some(
        Payment {
            id: payment_id,
            vault: ctx.vault_address,
            agent: ctx.agent,
            recipient: ctx.recipient,
            amount,
            initiated_at: now,
            finalize_at: now + delay,
            intent_hash,
            intent_uri,
            status,
        },
    );
    Ok(())
}

/// The records that clawing a payment back reads and writes.
#[derive(Clone, Debug)]
pub struct Clawback {
    pub owner: Pubkey,
    pub vault_address: Pubkey,
    pub vault: Vault,
    pub payment: Payment,
    pub payment_token_account: TokenAccount,
    pub vault_token_account: TokenAccount,
}

/// Why a clawback refuses, if it does, in the order of the checks.
pub open spec fn clawback_error(ctx: Clawback) -> Option<ClawbackError> {
    if ctx.owner != ctx.vault.owner {
        Some(ClawbackError::Unauthorized)
    } else if ctx.payment.vault != ctx.vault_address {
        Some(ClawbackError::AccountMismatch)
    } else if ctx.payment.status != PaymentStatus::Pending {
        Some(ClawbackError::PaymentNotPending)
    } else {
        transfer_error(ctx.payment_token_account, ctx.vault_token_account, ctx.payment.amount)
    }
}

/// The vault's owner reverses a pending payment: its escrow goes back to the
/// vault and it becomes `ClawedBack`, together or not at all. A settled
/// payment is refused with `PaymentNotPending`.
pub fn clawback(ctx: &mut Clawback) -> (r: Result<(), ClawbackError>)
    ensures
        match clawback_error(*old(ctx)) {
            Some(e) => r == Err::<(), ClawbackError>(e) && *final(ctx) == *old(ctx),
            None => r is Ok && final(ctx).payment == (Payment {
                status: PaymentStatus::ClawedBack,
                ..old(ctx).payment
            }) && final(ctx).payment_token_account.amount == old(ctx).payment_token_account.amount
                - old(ctx).payment.amount && final(ctx).vault_token_account.amount == old(
                ctx,
            ).vault_token_account.amount + old(ctx).payment.amount && final(ctx).owner == old(
                ctx,
            ).owner && final(ctx).vault_address == old(ctx).vault_address && final(ctx).vault
                == old(ctx).vault,
        },
        status_step(old(ctx).payment.status, final(ctx).payment.status),
        old(ctx).payment.status != PaymentStatus::Pending ==> r is Err && *final(ctx) == *old(ctx),
        escrow_matches(old(ctx).payment, old(ctx).payment_token_account) ==> escrow_matches(
            final(ctx).payment,
            final(ctx).payment_token_account,
        ),
{
    if ctx.owner != ctx.vault.owner {
        return Err(ClawbackError::Unauthorized);
    }
    if ctx.payment.vault != ctx.vault_address {
        return Err(ClawbackError::AccountMismatch);
    }
    if ctx.payment.status != PaymentStatus::Pending {
        return Err(ClawbackError::PaymentNotPending);
    }
    let amount = ctx.payment.amount;
    match transfer(&mut ctx.payment_token_account, &mut ctx.vault_token_account, amount) {
        Ok(()) => {},
        Err(e) => {
            return Err(e);
        },
    }
    ctx.payment.status = PaymentStatus::ClawedBack;
    Ok(())
}

/// The records that finalizing a payment reads and writes. Anyone may be the
/// caller.
#[derive(Clone, Debug)]
pub struct Finalize {
    pub caller: Pubkey,
    pub vault_address: Pubkey,
    pub vault: Vault,
    pub payment: Payment,
    pub payment_token_account: TokenAccount,
    pub recipient_token_account: TokenAccount,
}

/// Why finalizing refuses at time `now`, if it does, in the order of the checks.
pub open spec fn finalize_error(ctx: Finalize, now: i64) -> Option<ClawbackError> {
    if ctx.payment.vault != ctx.vault_address {
        Some(ClawbackError::AccountMismatch)
    } else if ctx.payment.status != PaymentStatus::Pending {
        Some(ClawbackError::PaymentNotPending)
    } else if now < ctx.payment.finalize_at {
        Some(ClawbackError::CoolingOffNotExpired)
    } else {
        transfer_error(ctx.payment_token_account, ctx.recipient_token_account, ctx.payment.amount)
    }
}

/// Settles a pending payment once its cooling-off deadline has come: the
/// escrow goes to the recipient and the payment becomes `Finalized`, together
/// or not at all. No identity is checked; only the deadline.
pub fn finalize(ctx: &mut Finalize, now: i64) -> (r: Result<(), ClawbackError>)
    ensures
        match finalize_error(*old(ctx), now) {
            Some(e) => r == Err::<(), ClawbackError>(e) && *final(ctx) == *old(ctx),
            None => r is Ok && final(ctx).payment == (Payment {
                status: PaymentStatus::Finalized,
                ..old(ctx).payment
            }) && final(ctx).payment_token_account.amount == old(ctx).payment_token_account.amount
                - old(ctx).payment.amount && final(ctx).recipient_token_account.amount == old(
                ctx,
            ).recipient_token_account.amount + old(ctx).payment.amount && final(ctx).caller == old(
                ctx,
            ).caller && final(ctx).vault_address == old(ctx).vault_address && final(ctx).vault
                == old(ctx).vault,
        },
        status_step(old(ctx).payment.status, final(ctx).payment.status),
        old(ctx).payment.status != PaymentStatus::Pending ==> r is Err && *final(ctx) == *old(ctx),
        escrow_matches(old(ctx).payment, old(ctx).payment_token_account) ==> escrow_matches(
            final(ctx).payment,
            final(ctx).payment_token_account,
        ),
{
    if ctx.payment.vault != ctx.vault_address {
        return Err(ClawbackError::AccountMismatch);
    }
    if ctx.payment.status != PaymentStatus::Pending {
        return Err(ClawbackError::PaymentNotPending);
    }
    if now < ctx.payment.finalize_at {
        return Err(ClawbackError::CoolingOffNotExpired);
    }
    let amount = ctx.payment.amount;
    match transfer(&mut ctx.payment_token_account, &mut ctx.recipient_token_account, amount) {
        Ok(()) => {},
        Err(e) => {
            return Err(e);
        },
    }
    ctx.payment.status = PaymentStatus::Finalized;
    Ok(())
}

/// A settled payment can be neither clawed back nor finalized: for a payment
/// that belongs to the vault handed in, both refuse with `PaymentNotPending`
/// (a clawback by someone other than the owner is refused before that).
pub proof fn lemma_settled_payment_is_final(c: Clawback, f: Finalize, now: i64)
    requires
        c.payment.status != PaymentStatus::Pending,
        f.payment.status != PaymentStatus::Pending,
    ensures
        clawback_error(c) is Some,
        finalize_error(f, now) is Some,
        c.owner == c.vault.owner && c.payment.vault == c.vault_address ==> clawback_error(c)
            == Some(ClawbackError::PaymentNotPending),
        f.payment.vault == f.vault_address ==> finalize_error(f, now) == Some(
            ClawbackError::PaymentNotPending,
        ),
{
}

/// Once a payment has left `Pending` its status never changes again: along
/// any run of operations, each of which steps the status as `status_step`
/// allows, the status changes at most once.
pub proof fn lemma_status_changes_once(run: Seq<PaymentStatus>)
    requires
        forall|i: int| 0 <= i < run.len() - 1 ==> status_step(#[trigger] run[i], run[i + 1]),
    ensures
        forall|i: int, j: int|
            0 <= i < j < run.len() - 1 && #[trigger] run[i] != run[i + 1] ==> #[trigger] run[j]
                == run[j + 1],
{
    assert forall|i: int, j: int|
        0 <= i < j < run.len() - 1 && #[trigger] run[i] != run[i + 1] implies #[trigger] run[j]
            == run[j + 1] by {
        lemma_settled_stays(run, i + 1, j + 1);
        lemma_settled_stays(run, i + 1, j);
    }
}

/// In such a run, a settled status at index `k` is still there at every later index.
pub proof fn lemma_settled_stays(run: Seq<PaymentStatus>, k: int, m: int)
    requires
        forall|i: int| 0 <= i < run.len() - 1 ==> status_step(#[trigger] run[i], run[i + 1]),
        0 <= k <= m < run.len(),
        run[k] != PaymentStatus::Pending,
    ensures
        run[m] == run[k],
    decreases m - k,
{
    if m > k {
        lemma_settled_stays(run, k, m - 1);
        assert(status_step(run[m - 1], run[m]));
    }
}

} // verus!
