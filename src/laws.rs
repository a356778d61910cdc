use vstd::prelude::*;

use crate::ops::{
    deposit_error,
    deposited,
    transfer_error,
    transferred,
    withdraw_error,
    withdrawn,
    Deposit,
    TransferSol,
    Withdraw,
};
use crate::reward::{accrue_error, accrued_box, accrued_vault, elapsed_since, reward_spec};
use crate::state::{RewardBox, UserKey, Vault, VaultError, Wallet};

verus! {

/// A balance-changing request against one owner's vault and reward box,
/// together with the accounts around it that the request reads.
pub enum Request {
    Deposit { amount: u64 },
    Withdraw { wallet: Wallet, vault_lamports: u64, amount: u64 },
    Transfer { signer: UserKey, vault_lamports: u64, recipient: Wallet, amount: u64 },
}

/// The vault and reward box after `req` is served at clock reading `now`;
/// a refused request leaves them as they were.
pub open spec fn apply_request(v: Vault, b: RewardBox, req: Request, now: i64) -> (Vault, RewardBox) {
    match req {
        Request::Deposit { amount } => {
            let c = Deposit { user: v.user, vault: v, reward_box: b };
            if deposit_error(c, amount, now) is Some {
                (v, b)
            } else {
                let d = deposited(c, amount, now);
                (d.vault, d.reward_box)
            }
        },
        Request::Withdraw { wallet, vault_lamports, amount } => {
            let c = Withdraw { user: wallet, vault: v, vault_lamports, reward_box: b };
            if withdraw_error(c, amount, now) is Some {
                (v, b)
            } else {
                let d = withdrawn(c, amount, now);
                (d.vault, d.reward_box)
            }
        },
        Request::Transfer { signer, vault_lamports, recipient, amount } => {
            let c = TransferSol { user: signer, vault: v, vault_lamports, reward_box: b, recipient };
            if transfer_error(c, amount, now) is Some {
                (v, b)
            } else {
                let d = transferred(c, amount, now);
                (d.vault, d.reward_box)
            }
        },
    }
}

/// The vault and reward box after serving each request in turn, each at its
/// own clock reading.
pub open spec fn run(v: Vault, b: RewardBox, reqs: Seq<(Request, i64)>) -> (Vault, RewardBox)
    decreases reqs.len(),
{
    if reqs.len() == 0 {
        (v, b)
    } else {
        let next = apply_request(v, b, reqs[0].0, reqs[0].1);
        run(next.0, next.1, reqs.drop_first())
    }
}

/// Reward earned is never negative.
pub proof fn lemma_reward_nonnegative(balance: int, elapsed: int)
    requires
        balance >= 0,
    ensures
        reward_spec(balance, elapsed) >= 0,
{
    if elapsed >= 1 {
        assert(balance * elapsed >= 0) by (nonlinear_arith)
            requires
                balance >= 0,
                elapsed >= 1,
        ;
    }
}

/// Serving one request never lowers the reward box's balance nor moves the
/// vault's checkpoint back.
pub proof fn lemma_request_monotone(v: Vault, b: RewardBox, req: Request, now: i64)
    ensures
        apply_request(v, b, req, now).1.balance >= b.balance,
        apply_request(v, b, req, now).0.last_update_time >= v.last_update_time,
{
    lemma_reward_nonnegative(v.balance as int, elapsed_since(v, now));
}

/// Over any sequence of requests the reward box's balance never decreases
/// and the vault's checkpoint never moves back; balances stay non-negative.
pub proof fn lemma_run_monotone(v: Vault, b: RewardBox, reqs: Seq<(Request, i64)>)
    ensures
        run(v, b, reqs).1.balance >= b.balance,
        run(v, b, reqs).0.last_update_time >= v.last_update_time,
        run(v, b, reqs).0.balance >= 0,
    decreases reqs.len(),
{
    if reqs.len() > 0 {
        let next = apply_request(v, b, reqs[0].0, reqs[0].1);
        lemma_request_monotone(v, b, reqs[0].0, reqs[0].1);
        lemma_run_monotone(next.0, next.1, reqs.drop_first());
    }
}

/// Settling twice at the same clock reading is the same as settling once:
/// the second settlement succeeds and changes nothing.
pub proof fn lemma_update_rewards_idempotent(v: Vault, b: RewardBox, now: i64)
    requires
        accrue_error(v, b, now) is None,
    ensures
        accrue_error(accrued_vault(v, now), accrued_box(v, b, now), now) is None,
        accrued_vault(accrued_vault(v, now), now) == accrued_vault(v, now),
        accrued_box(accrued_vault(v, now), accrued_box(v, b, now), now) == accrued_box(v, b, now),
{
    let v1 = accrued_vault(v, now);
    assert(elapsed_since(v1, now) == 0);
    assert(reward_spec(v1.balance as int, 0) == 0);
}

/// A withdrawal of more than the vault holds, by its owner at a clock
/// reading that does not run back, is refused as insufficient funds.
pub proof fn lemma_withdraw_overdraw_refused(c: Withdraw, amount: u64, now: i64)
    requires
        c.vault.user == c.user.key,
        accrue_error(c.vault, c.reward_box, now) is None,
        amount > c.vault.balance,
    ensures
        withdraw_error(c, amount, now) == Some(VaultError::InsufficientFunds),
{
}

/// A transfer of more than the vault holds, by its owner at a clock reading
/// that does not run back, is refused as insufficient funds.
pub proof fn lemma_transfer_overdraw_refused(c: TransferSol, amount: u64, now: i64)
    requires
        c.vault.user == c.user,
        accrue_error(c.vault, c.reward_box, now) is None,
        amount > c.vault.balance,
    ensures
        transfer_error(c, amount, now) == Some(VaultError::InsufficientFunds),
{
}

} // verus!
