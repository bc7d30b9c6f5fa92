use clawback::cooling_off::UNIT;
use clawback::{
    clawback, finalize, get_cooling_off_period, initialize_vault, initiate_payment, is_trusted,
    pause_agent, set_policy, set_trusted_recipient, transfer, unpause_agent, Clawback,
    ClawbackError, Finalize, InitializeVault, InitiatePayment, ModifyPolicy, Payment,
    PaymentStatus, Policy, Pubkey, SetPolicy, SetTrustedRecipient, TokenAccount,
    TrustedRecipient, Vault,
};

const T0: i64 = 1_700_000_000;

fn key(b: u8) -> Pubkey {
    Pubkey::new([b; 32])
}

fn owner() -> Pubkey {
    key(1)
}
fn agent() -> Pubkey {
    key(2)
}
fn recipient() -> Pubkey {
    key(3)
}
fn vault_address() -> Pubkey {
    key(4)
}

fn vault() -> Vault {
    Vault {
        owner: owner(),
        usdc_mint: key(5),
        vault_token_account: key(6),
        next_payment_id: 0,
    }
}

fn policy(max_per_tx: u64, daily_limit: u64) -> Policy {
    let mut ctx = SetPolicy {
        owner: owner(),
        vault_address: vault_address(),
        vault: vault(),
        policy: None,
    };
    set_policy(&mut ctx, agent(), max_per_tx, daily_limit, T0).unwrap();
    ctx.policy.unwrap()
}

fn trust(flag: bool) -> Option<TrustedRecipient> {
    Some(TrustedRecipient { vault: vault_address(), recipient: recipient(), trusted: flag })
}

fn initiate_ctx(v: Vault, p: Policy, t: Option<TrustedRecipient>, balance: u64) -> InitiatePayment {
    InitiatePayment {
        agent: agent(),
        recipient: recipient(),
        vault_address: vault_address(),
        vault: v,
        policy: p,
        trusted_recipient: t,
        payment: None,
        vault_token_account: TokenAccount::new(balance),
        payment_token_account: None,
        recipient_token_account: TokenAccount::new(0),
    }
}

/// Initiates one payment and hands back the vault, policy and vault balance after it.
fn pay(v: Vault, p: Policy, balance: u64, amount: u64, now: i64) -> (Result<(), ClawbackError>, InitiatePayment) {
    let mut ctx = initiate_ctx(v, p, None, balance);
    let r = initiate_payment(&mut ctx, amount, [7; 32], "ipfs://intent".to_string(), now);
    (r, ctx)
}

fn pending_payment(amount: u64, now: i64) -> (Payment, TokenAccount, TokenAccount) {
    let (r, ctx) = pay(vault(), policy(0, 0), 1_000 * UNIT, amount, now);
    r.unwrap();
    (ctx.payment.unwrap(), ctx.payment_token_account.unwrap(), ctx.vault_token_account)
}

fn clawback_ctx(p: Payment, escrow: TokenAccount, vault_tokens: TokenAccount) -> Clawback {
    Clawback {
        owner: owner(),
        vault_address: vault_address(),
        vault: vault(),
        payment: p,
        payment_token_account: escrow,
        vault_token_account: vault_tokens,
    }
}

fn finalize_ctx(p: Payment, escrow: TokenAccount) -> Finalize {
    Finalize {
        caller: key(9),
        vault_address: vault_address(),
        vault: vault(),
        payment: p,
        payment_token_account: escrow,
        recipient_token_account: TokenAccount::new(0),
    }
}

#[test]
fn cooling_off_tiers_and_boundaries() {
    assert_eq!(get_cooling_off_period(0), 900);
    assert_eq!(get_cooling_off_period(9_999_999), 900);
    assert_eq!(get_cooling_off_period(10_000_000), 3600);
    assert_eq!(get_cooling_off_period(99_999_999), 3600);
    assert_eq!(get_cooling_off_period(100_000_000), 21600);
    assert_eq!(get_cooling_off_period(499_999_999), 21600);
    assert_eq!(get_cooling_off_period(500_000_000), 86400);
    assert_eq!(get_cooling_off_period(u64::MAX), 86400);
}

#[test]
fn cooling_off_never_decreases() {
    let amounts = [0, 1, 9_999_999, 10_000_000, 50_000_000, 100_000_000, 300_000_000, 500_000_000, u64::MAX];
    for w in amounts.windows(2) {
        assert!(get_cooling_off_period(w[0]) <= get_cooling_off_period(w[1]));
    }
}

#[test]
fn initialize_vault_creates_empty_vault_once() {
    let mut ctx = InitializeVault {
        owner: owner(),
        usdc_mint: key(5),
        vault_token_address: key(6),
        vault: None,
        vault_token_account: None,
    };
    assert_eq!(initialize_vault(&mut ctx), Ok(()));
    let v = ctx.vault.unwrap();
    assert_eq!(v.owner, owner());
    assert_eq!(v.usdc_mint, key(5));
    assert_eq!(v.vault_token_account, key(6));
    assert_eq!(v.next_payment_id, 0);
    assert_eq!(ctx.vault_token_account, Some(TokenAccount::new(0)));
    assert_eq!(initialize_vault(&mut ctx), Err(ClawbackError::AlreadyExists));
}

#[test]
fn set_policy_resets_spend_and_checks_owner() {
    let mut spent = policy(10, 100);
    spent.daily_spent = 60;
    spent.paused = true;
    let mut ctx = SetPolicy { owner: owner(), vault_address: vault_address(), vault: vault(), policy: Some(spent) };
    assert_eq!(set_policy(&mut ctx, agent(), 20, 200, T0 + 5), Ok(()));
    let p = ctx.policy.unwrap();
    assert_eq!((p.max_per_tx, p.daily_limit, p.daily_spent, p.daily_window_start, p.paused), (20, 200, 0, T0 + 5, false));
    assert_eq!(p.agent, agent());
    assert_eq!(p.vault, vault_address());

    let mut wrong = SetPolicy { owner: key(8), vault_address: vault_address(), vault: vault(), policy: None };
    assert_eq!(set_policy(&mut wrong, agent(), 20, 200, T0), Err(ClawbackError::Unauthorized));
    assert!(wrong.policy.is_none());

    let mut other_agent = SetPolicy { owner: owner(), vault_address: vault_address(), vault: vault(), policy: Some(policy(1, 1)) };
    assert_eq!(set_policy(&mut other_agent, key(8), 20, 200, T0), Err(ClawbackError::AccountMismatch));
}

#[test]
fn pause_and_unpause_are_idempotent_and_owner_only() {
    let mut ctx = ModifyPolicy { owner: owner(), vault_address: vault_address(), vault: vault(), policy: policy(0, 0) };
    assert_eq!(pause_agent(&mut ctx), Ok(()));
    assert!(ctx.policy.paused);
    assert_eq!(pause_agent(&mut ctx), Ok(()));
    assert!(ctx.policy.paused);
    assert_eq!(unpause_agent(&mut ctx), Ok(()));
    assert!(!ctx.policy.paused);
    assert_eq!(unpause_agent(&mut ctx), Ok(()));
    assert!(!ctx.policy.paused);
    ctx.owner = key(8);
    assert_eq!(pause_agent(&mut ctx), Err(ClawbackError::Unauthorized));
    assert!(!ctx.policy.paused);
}

#[test]
fn paused_agent_cannot_pay() {
    let mut p = policy(0, 0);
    p.paused = true;
    let (r, ctx) = pay(vault(), p, 100 * UNIT, UNIT, T0);
    assert_eq!(r, Err(ClawbackError::AgentPaused));
    assert_eq!(ctx.vault.next_payment_id, 0);
    assert!(ctx.payment.is_none());
}

#[test]
fn trust_registry_upserts() {
    let mut ctx = SetTrustedRecipient { owner: owner(), vault_address: vault_address(), vault: vault(), trusted_recipient: None };
    assert!(!is_trusted(&ctx.trusted_recipient));
    assert_eq!(set_trusted_recipient(&mut ctx, recipient(), true), Ok(()));
    assert!(is_trusted(&ctx.trusted_recipient));
    assert_eq!(set_trusted_recipient(&mut ctx, recipient(), false), Ok(()));
    assert!(!is_trusted(&ctx.trusted_recipient));
    assert_eq!(set_trusted_recipient(&mut ctx, key(8), true), Err(ClawbackError::AccountMismatch));
    ctx.owner = key(8);
    assert_eq!(set_trusted_recipient(&mut ctx, recipient(), true), Err(ClawbackError::Unauthorized));
    assert!(!is_trusted(&ctx.trusted_recipient));
}

#[test]
fn daily_limit_scenario() {
    let p = policy(50_000_000, 100_000_000);
    let (r1, c1) = pay(vault(), p, 1_000 * UNIT, 40_000_000, T0 + 10);
    assert_eq!(r1, Ok(()));
    let (r2, c2) = pay(c1.vault, c1.policy, c1.vault_token_account.amount, 40_000_000, T0 + 20);
    assert_eq!(r2, Ok(()));
    assert_eq!(c2.policy.daily_spent, 80_000_000);
    let (r3, c3) = pay(c2.vault, c2.policy, c2.vault_token_account.amount, 30_000_000, T0 + 30);
    assert_eq!(r3, Err(ClawbackError::ExceedsDailyLimit));
    assert_eq!(c3.policy.daily_spent, 80_000_000);
    assert_eq!(c3.vault.next_payment_id, 2);
    assert_eq!(c3.vault_token_account.amount, 1_000 * UNIT - 80_000_000);
}

#[test]
fn max_per_tx_is_enforced() {
    let (r, ctx) = pay(vault(), policy(50_000_000, 0), 1_000 * UNIT, 50_000_001, T0);
    assert_eq!(r, Err(ClawbackError::ExceedsMaxPerTx));
    assert_eq!(ctx.vault_token_account.amount, 1_000 * UNIT);
    let (r, _) = pay(vault(), policy(50_000_000, 0), 1_000 * UNIT, 50_000_000, T0);
    assert_eq!(r, Ok(()));
}

#[test]
fn window_one_second_before_a_day_still_counts() {
    let mut p = policy(0, 100);
    p.daily_spent = 60;
    let (r, ctx) = pay(vault(), p, 1_000, 50, T0 + 86399);
    assert_eq!(r, Err(ClawbackError::ExceedsDailyLimit));
    assert_eq!(ctx.policy.daily_window_start, T0);
    let (r, ctx) = pay(vault(), p, 1_000, 40, T0 + 86399);
    assert_eq!(r, Ok(()));
    assert_eq!(ctx.policy.daily_spent, 100);
    assert_eq!(ctx.policy.daily_window_start, T0);
}

#[test]
fn window_resets_exactly_after_a_day() {
    let mut p = policy(0, 100);
    p.daily_spent = 60;
    let (r, ctx) = pay(vault(), p, 1_000, 50, T0 + 86400);
    assert_eq!(r, Ok(()));
    assert_eq!(ctx.policy.daily_spent, 50);
    assert_eq!(ctx.policy.daily_window_start, T0 + 86400);
}

#[test]
fn untrusted_payment_waits_out_cooling_off() {
    let (p, escrow, vault_tokens) = pending_payment(5_000_000, T0);
    assert_eq!(p.status, PaymentStatus::Pending);
    assert_eq!(p.initiated_at, T0);
    assert_eq!(p.finalize_at, T0 + 900);
    assert_eq!(p.id, 0);
    assert_eq!(p.intent_hash, [7; 32]);
    assert_eq!(p.intent_uri, "ipfs://intent");
    assert_eq!(escrow.amount, 5_000_000);
    assert_eq!(vault_tokens.amount, 1_000 * UNIT - 5_000_000);

    let mut early = finalize_ctx(p.clone(), escrow);
    assert_eq!(finalize(&mut early, T0 + 899), Err(ClawbackError::CoolingOffNotExpired));
    assert_eq!(early.payment.status, PaymentStatus::Pending);
    assert_eq!(early.payment_token_account.amount, 5_000_000);

    let mut on_time = finalize_ctx(p, escrow);
    assert_eq!(finalize(&mut on_time, T0 + 900), Ok(()));
    assert_eq!(on_time.payment.status, PaymentStatus::Finalized);
    assert_eq!(on_time.payment_token_account.amount, 0);
    assert_eq!(on_time.recipient_token_account.amount, 5_000_000);
}

#[test]
fn clawback_returns_funds_then_finalize_fails() {
    let (p, escrow, vault_tokens) = pending_payment(200_000_000, T0);
    assert_eq!(p.finalize_at, T0 + 21600);
    let mut ctx = clawback_ctx(p, escrow, vault_tokens);
    assert_eq!(clawback(&mut ctx), Ok(()));
    assert_eq!(ctx.payment.status, PaymentStatus::ClawedBack);
    assert_eq!(ctx.payment_token_account.amount, 0);
    assert_eq!(ctx.vault_token_account.amount, 1_000 * UNIT);

    let mut fin = finalize_ctx(ctx.payment.clone(), ctx.payment_token_account);
    assert_eq!(finalize(&mut fin, T0 + 100_000), Err(ClawbackError::PaymentNotPending));
    assert_eq!(fin.payment.status, PaymentStatus::ClawedBack);
    assert_eq!(fin.recipient_token_account.amount, 0);

    assert_eq!(clawback(&mut ctx), Err(ClawbackError::PaymentNotPending));
}

#[test]
fn clawback_after_finalize_fails() {
    let (p, escrow, vault_tokens) = pending_payment(UNIT, T0);
    let mut fin = finalize_ctx(p, escrow);
    assert_eq!(finalize(&mut fin, T0 + 900), Ok(()));
    let mut ctx = clawback_ctx(fin.payment.clone(), fin.payment_token_account, vault_tokens);
    assert_eq!(clawback(&mut ctx), Err(ClawbackError::PaymentNotPending));
    assert_eq!(ctx.payment.status, PaymentStatus::Finalized);
    assert_eq!(ctx.vault_token_account, vault_tokens);
    assert_eq!(finalize(&mut fin, T0 + 1_000), Err(ClawbackError::PaymentNotPending));
}

#[test]
fn clawback_is_owner_only() {
    let (p, escrow, vault_tokens) = pending_payment(UNIT, T0);
    let mut ctx = clawback_ctx(p, escrow, vault_tokens);
    ctx.owner = agent();
    assert_eq!(clawback(&mut ctx), Err(ClawbackError::Unauthorized));
    assert_eq!(ctx.payment.status, PaymentStatus::Pending);
    assert_eq!(ctx.payment_token_account.amount, UNIT);
}

#[test]
fn finalize_checks_payment_belongs_to_vault() {
    let (p, escrow, _) = pending_payment(UNIT, T0);
    let mut ctx = finalize_ctx(p, escrow);
    ctx.vault_address = key(8);
    assert_eq!(finalize(&mut ctx, T0 + 900), Err(ClawbackError::AccountMismatch));
}

#[test]
fn trusted_recipient_settles_immediately() {
    let mut ctx = initiate_ctx(vault(), policy(0, 0), trust(true), 1_000 * UNIT);
    assert_eq!(initiate_payment(&mut ctx, 600 * UNIT, [1; 32], String::new(), T0), Ok(()));
    let p = ctx.payment.clone().unwrap();
    assert_eq!(p.status, PaymentStatus::Finalized);
    assert_eq!(p.finalize_at, T0);
    assert_eq!(ctx.payment_token_account, Some(TokenAccount::new(0)));
    assert_eq!(ctx.recipient_token_account.amount, 600 * UNIT);
    assert_eq!(ctx.vault_token_account.amount, 400 * UNIT);
    assert_eq!(ctx.vault.next_payment_id, 1);
}

#[test]
fn untrusted_flag_record_gets_delay() {
    let mut ctx = initiate_ctx(vault(), policy(0, 0), trust(false), 1_000 * UNIT);
    assert_eq!(initiate_payment(&mut ctx, 600 * UNIT, [1; 32], String::new(), T0), Ok(()));
    let p = ctx.payment.clone().unwrap();
    assert_eq!(p.status, PaymentStatus::Pending);
    assert_eq!(p.finalize_at, T0 + 86400);
    assert_eq!(ctx.recipient_token_account.amount, 0);
}

#[test]
fn payment_ids_increase_per_payment() {
    let mut v = vault();
    v.next_payment_id = 41;
    let (r, ctx) = pay(v, policy(0, 0), 1_000 * UNIT, UNIT, T0);
    assert_eq!(r, Ok(()));
    assert_eq!(ctx.payment.unwrap().id, 41);
    assert_eq!(ctx.vault.next_payment_id, 42);
}

#[test]
fn insufficient_funds_changes_nothing() {
    let p = policy(0, 100 * UNIT);
    let (r, ctx) = pay(vault(), p, 5, 6, T0);
    assert_eq!(r, Err(ClawbackError::InsufficientFunds));
    assert_eq!(ctx.vault.next_payment_id, 0);
    assert_eq!(ctx.policy.daily_spent, 0);
    assert!(ctx.payment.is_none());
    assert!(ctx.payment_token_account.is_none());
    assert_eq!(ctx.vault_token_account.amount, 5);
}

#[test]
fn wrong_agent_is_refused() {
    let mut ctx = initiate_ctx(vault(), policy(0, 0), None, 1_000);
    ctx.agent = key(8);
    assert_eq!(initiate_payment(&mut ctx, 1, [0; 32], String::new(), T0), Err(ClawbackError::Unauthorized));
}

#[test]
fn trust_record_of_another_recipient_is_refused() {
    let t = Some(TrustedRecipient { vault: vault_address(), recipient: key(8), trusted: true });
    let mut ctx = initiate_ctx(vault(), policy(0, 0), t, 1_000);
    assert_eq!(initiate_payment(&mut ctx, 1, [0; 32], String::new(), T0), Err(ClawbackError::AccountMismatch));
}

#[test]
fn existing_payment_record_is_refused() {
    let mut ctx = initiate_ctx(vault(), policy(0, 0), None, 1_000);
    ctx.payment_token_account = Some(TokenAccount::new(0));
    assert_eq!(initiate_payment(&mut ctx, 1, [0; 32], String::new(), T0), Err(ClawbackError::AlreadyExists));
}

#[test]
fn intent_uri_is_bounded() {
    let mut ctx = initiate_ctx(vault(), policy(0, 0), None, 1_000);
    assert_eq!(initiate_payment(&mut ctx, 1, [0; 32], "a".repeat(201), T0), Err(ClawbackError::IntentUriTooLong));
    assert_eq!(initiate_payment(&mut ctx, 1, [0; 32], "a".repeat(200), T0), Ok(()));
}

#[test]
fn exhausted_id_counter_is_refused() {
    let mut v = vault();
    v.next_payment_id = u64::MAX;
    let (r, ctx) = pay(v, policy(0, 10), 1_000, 1, T0);
    assert_eq!(r, Err(ClawbackError::Overflow));
    assert_eq!(ctx.policy.daily_spent, 0);
}

#[test]
fn transfer_moves_all_or_nothing() {
    let mut a = TokenAccount::new(10);
    let mut b = TokenAccount::new(5);
    assert_eq!(transfer(&mut a, &mut b, 4), Ok(()));
    assert_eq!((a.amount, b.amount), (6, 9));
    assert_eq!(transfer(&mut a, &mut b, 7), Err(ClawbackError::InsufficientFunds));
    assert_eq!((a.amount, b.amount), (6, 9));
    let mut full = TokenAccount::new(u64::MAX);
    assert_eq!(transfer(&mut a, &mut full, 1), Err(ClawbackError::Overflow));
    assert_eq!(a.amount, 6);
}
