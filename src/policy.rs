use vstd::prelude::*;

use crate::error::ClawbackError;
use crate::keys::Pubkey;
use crate::vault::Vault;

verus! {

/// Length of the daily spending window, in seconds.
pub const DAY_SECONDS: i64 = 86400;

/// The spending limits of one agent under one vault. A limit of zero means
/// no limit.
#[derive(Clone, Copy, Debug)]
pub struct Policy {
    pub vault: Pubkey,
    pub agent: Pubkey,
    pub max_per_tx: u64,
    pub daily_limit: u64,
    pub daily_spent: u64,
    pub daily_window_start: i64,
    pub paused: bool,
}

impl Policy {
    /// Within a daily limit, what was spent never exceeds it.
    pub open spec fn wf(&self) -> bool {
        self.daily_limit > 0 ==> self.daily_spent <= self.daily_limit
    }

    /// Whether the daily window has run its full day at time `now`.
    pub open spec fn window_expired(&self, now: i64) -> bool {
        now >= self.daily_window_start + DAY_SECONDS
    }

    /// The admission rule: the policy after spending `amount` at `now`, or
    /// the reason the spend is refused.
    pub open spec fn admission(&self, amount: u64, now: i64) -> Result<Policy, ClawbackError> {
        if self.paused {
            Err(ClawbackError::AgentPaused)
        } else if self.max_per_tx > 0 && amount > self.max_per_tx {
            Err(ClawbackError::ExceedsMaxPerTx)
        } else if self.daily_limit > 0 {
            let spent: int = if self.window_expired(now) {
                0
            } else {
                self.daily_spent as int
            };
            let start: i64 = if self.window_expired(now) {
                now
            } else {
                self.daily_window_start
            };
            if spent + amount > self.daily_limit {
                Err(ClawbackError::ExceedsDailyLimit)
            } else {
                Ok(Policy { daily_spent: (spent + amount) as u64, daily_window_start: start, ..*self })
            }
        } else {
            Ok(*self)
        }
    }

    /// Admits a spend of `amount` at time `now`: refused while paused, above
    /// the per-transaction cap, or past the daily limit; on success the spend
    /// is counted in the daily window, which restarts at `now` once a full day
    /// has passed since it began. A refused spend changes nothing.
    pub fn admit_spend(&mut self, amount: u64, now: i64) -> (r: Result<(), ClawbackError>)
        ensures
            match old(self).admission(amount, now) {
                Ok(p) => r is Ok && *final(self) == p,
                Err(e) => r == Err::<(), ClawbackError>(e) && *final(self) == *old(self),
            },
            old(self).wf() ==> final(self).wf(),
    {
        if self.paused {
            return Err(ClawbackError::AgentPaused);
        }
        if self.max_per_tx > 0 && amount > self.max_per_tx {
            return Err(ClawbackError::ExceedsMaxPerTx);
        }
        if self.daily_limit > 0 {
            let expired = (now as i128) >= (self.daily_window_start as i128) + 86400;
            let spent: u64 = if expired {
                0
            } else {
                self.daily_spent
            };
            if spent > self.daily_limit || amount > self.daily_limit - spent {
                return Err(ClawbackError::ExceedsDailyLimit);
            }
            self.daily_spent = spent + amount;
            if expired {
                self.daily_window_start = now;
            }
        }
        Ok(())
    }
}

/// At exactly one day after the window began the window restarts before the
/// limit is checked; one second earlier the spend still counts against the
/// old window.
pub proof fn lemma_window_boundary(p: Policy, amount: u64)
    requires
        p.daily_limit > 0,
        !p.paused,
        p.max_per_tx == 0 || amount <= p.max_per_tx,
        p.daily_window_start + DAY_SECONDS <= i64::MAX,
    ensures
        ({
            let before = (p.daily_window_start + DAY_SECONDS - 1) as i64;
            &&& p.daily_spent + amount > p.daily_limit ==> p.admission(amount, before) == Err::<
                Policy,
                ClawbackError,
            >(ClawbackError::ExceedsDailyLimit)
            &&& p.daily_spent + amount <= p.daily_limit ==> p.admission(amount, before) == Ok::<
                Policy,
                ClawbackError,
            >(Policy { daily_spent: (p.daily_spent + amount) as u64, ..p })
        }),
        ({
            let at = (p.daily_window_start + DAY_SECONDS) as i64;
            &&& amount > p.daily_limit ==> p.admission(amount, at) == Err::<Policy, ClawbackError>(
                ClawbackError::ExceedsDailyLimit,
            )
            &&& amount <= p.daily_limit ==> p.admission(amount, at) == Ok::<Policy, ClawbackError>(
                Policy { daily_spent: amount, daily_window_start: at, ..p },
            )
        }),
{
}

/// The records that setting a policy reads and writes; `policy` is `None`
/// until one exists for this agent.
#[derive(Clone, Copy, Debug)]
pub struct SetPolicy {
    pub owner: Pubkey,
    pub vault_address: Pubkey,
    pub vault: Vault,
    pub policy: Option<Policy>,
}

/// Why `set_policy` refuses, if it does.
pub open spec fn set_policy_error(ctx: SetPolicy, agent: Pubkey) -> Option<ClawbackError> {
    if ctx.owner != ctx.vault.owner {
        Some(ClawbackError::Unauthorized)
    } else if ctx.policy matches Some(p) && (p.vault != ctx.vault_address || p.agent != agent) {
        Some(ClawbackError::AccountMismatch)
    } else {
        None
    }
}

/// Creates or resets the policy of `agent`: the given limits, nothing spent,
/// a window starting at `now`, not paused. Only the vault's owner may do so.
pub fn set_policy(
    ctx: &mut SetPolicy,
    agent: Pubkey,
    max_per_tx: u64,
    daily_limit: u64,
    now: i64,
) -> (r: Result<(), ClawbackError>)
    ensures
        match set_policy_error(*old(ctx), agent) {
            Some(e) => r == Err::<(), ClawbackError>(e) && *final(ctx) == *old(ctx),
            None => r is Ok && *final(ctx) == (SetPolicy {
                policy: Some(
                    Policy {
                        vault: old(ctx).vault_address,
                        agent,
                        max_per_tx,
                        daily_limit,
                        daily_spent: 0,
                        daily_window_start: now,
                        paused: false,
                    },
                ),
                ..*old(ctx)
            }),
        },
        r is Ok ==> final(ctx).policy->0.wf(),
{
    if ctx.owner != ctx.vault.owner {
        return Err(ClawbackError::Unauthorized);
    }
    if let Some(p) = &ctx.policy {
        if p.vault != ctx.vault_address || p.agent != agent {
            return Err(ClawbackError::AccountMismatch);
        }
    }
    ctx.policy = Some(
        Policy {
            vault: ctx.vault_address,
            agent,
            max_per_tx,
            daily_limit,
            daily_spent: 0,
            daily_window_start: now,
            paused: false,
        },
    );
    Ok(())
}

/// The records that pausing or unpausing an agent reads and writes.
#[derive(Clone, Copy, Debug)]
pub struct ModifyPolicy {
    pub owner: Pubkey,
    pub vault_address: Pubkey,
    pub vault: Vault,
    pub policy: Policy,
}

/// Why pausing or unpausing refuses, if it does.
pub open spec fn modify_policy_error(ctx: ModifyPolicy) -> Option<ClawbackError> {
    if ctx.owner != ctx.vault.owner {
        Some(ClawbackError::Unauthorized)
    } else if ctx.policy.vault != ctx.vault_address {
        Some(ClawbackError::AccountMismatch)
    } else {
        None
    }
}

fn set_paused(ctx: &mut ModifyPolicy, paused: bool) -> (r: Result<(), ClawbackError>)
    ensures
        match modify_policy_error(*old(ctx)) {
            Some(e) => r == Err::<(), ClawbackError>(e) && *final(ctx) == *old(ctx),
            None => r is Ok && *final(ctx) == (ModifyPolicy {
                policy: Policy { paused, ..old(ctx).policy },
                ..*old(ctx)
            }),
        },
{
    if ctx.owner != ctx.vault.owner {
        return Err(ClawbackError::Unauthorized);
    }
    if ctx.policy.vault != ctx.vault_address {
        return Err(ClawbackError::AccountMismatch);
    }
    ctx.policy.paused = paused;
    Ok(())
}

/// Stops the agent from spending until it is unpaused; idempotent, owner only.
pub fn pause_agent(ctx: &mut ModifyPolicy) -> (r: Result<(), ClawbackError>)
    ensures
        match modify_policy_error(*old(ctx)) {
            Some(e) => r == Err::<(), ClawbackError>(e) && *final(ctx) == *old(ctx),
            None => r is Ok && *final(ctx) == (ModifyPolicy {
                policy: Policy { paused: true, ..old(ctx).policy },
                ..*old(ctx)
            }),
        },
{
    set_paused(ctx, true)
}

/// Lets a paused agent spend again; idempotent, owner only.
pub fn unpause_agent(ctx: &mut ModifyPolicy) -> (r: Result<(), ClawbackError>)
    ensures
        match modify_policy_error(*old(ctx)) {
            Some(e) => r == Err::<(), ClawbackError>(e) && *final(ctx) == *old(ctx),
            None => r is Ok && *final(ctx) == (ModifyPolicy {
                policy: Policy { paused: false, ..old(ctx).policy },
                ..*old(ctx)
            }),
        },
{
    set_paused(ctx, false)
}

} // verus!
