use vstd::prelude::*;

use crate::state::{outcome, RewardBox, Vault, VaultError};

verus! {

/// Reward accrues at one ten-thousandth of the balance per elapsed time unit.
pub const RATE_DENOMINATOR: u128 = 10000;

/// Reward earned by `balance` over `elapsed` time units, rounded down;
/// nothing when less than one unit has passed.
pub open spec fn reward_spec(balance: int, elapsed: int) -> int {
    if elapsed >= 1 {
        (balance * elapsed) / 10000
    } else {
        0
    }
}

/// Time elapsed on the vault's checkpoint at clock reading `now`.
pub open spec fn elapsed_since(v: Vault, now: i64) -> int {
    now - v.last_update_time
}

/// Why settling reward at `now` is refused, if it is.
pub open spec fn accrue_error(v: Vault, b: RewardBox, now: i64) -> Option<VaultError> {
    if now < v.last_update_time {
        Some(VaultError::ClockRegression)
    } else if b.balance + reward_spec(v.balance as int, elapsed_since(v, now)) > u64::MAX {
        Some(VaultError::ArithmeticOverflow)
    } else {
        None
    }
}

/// The vault after settlement: the checkpoint moves to `now` only once a
/// whole time unit has passed.
pub open spec fn accrued_vault(v: Vault, now: i64) -> Vault {
    if elapsed_since(v, now) >= 1 {
        Vault { last_update_time: now, ..v }
    } else {
        v
    }
}

/// The reward box after settlement: credited with the reward earned since
/// the checkpoint.
pub open spec fn accrued_box(v: Vault, b: RewardBox, now: i64) -> RewardBox {
    RewardBox {
        balance: (b.balance + reward_spec(v.balance as int, elapsed_since(v, now))) as u64,
        ..b
    }
}

/// Computes the reward earned by `balance` over `elapsed` time units,
/// multiplying before dividing in a widened type.
pub fn reward_amount(balance: u64, elapsed: u64) -> (r: u128)
    ensures
        r == reward_spec(balance as int, elapsed as int),
        balance == 0 ==> r == 0,
{
    if elapsed < 1 {
        return 0;
    }
    let b: u128 = balance as u128;
    let e: u128 = elapsed as u128;
    assert(b * e <= 0xffff_ffff_ffff_ffffu128 * 0xffff_ffff_ffff_ffffu128) by (nonlinear_arith)
        requires
            b <= 0xffff_ffff_ffff_ffffu128,
            e <= 0xffff_ffff_ffff_ffffu128,
    ;
    assert(b == 0 ==> b * e == 0) by (nonlinear_arith);
    (b * e) / RATE_DENOMINATOR
}

/// Settles the reward earned since the vault's checkpoint into `reward_box`
/// and advances the checkpoint to `now` when at least one time unit has
/// passed. A refusal leaves both records as they were.
pub fn update_rewards(vault: &mut Vault, reward_box: &mut RewardBox, now: i64) -> (r: Result<
    (),
    VaultError,
>)
    ensures
        r == outcome(accrue_error(*old(vault), *old(reward_box), now)),
        r is Ok ==> *final(vault) == accrued_vault(*old(vault), now) && *final(reward_box)
            == accrued_box(*old(vault), *old(reward_box), now),
        r is Err ==> *final(vault) == *old(vault) && *final(reward_box) == *old(reward_box),
        final(reward_box).balance >= old(reward_box).balance,
        final(vault).balance == old(vault).balance,
        final(vault).last_update_time >= old(vault).last_update_time,
        r is Ok ==> final(vault).last_update_time <= now,
        0 <= elapsed_since(*old(vault), now) < 1 ==> final(vault).last_update_time
            == old(vault).last_update_time,
{
    if now < vault.last_update_time {
        return Err(VaultError::ClockRegression);
    }
    let elapsed: i128 = now as i128 - vault.last_update_time as i128;
    if elapsed < 1 {
        return Ok(());
    }
    let reward: u128 = reward_amount(vault.balance, elapsed as u64);
    if reward > (u64::MAX - reward_box.balance) as u128 {
        return Err(VaultError::ArithmeticOverflow);
    }
    reward_box.balance = reward_box.balance + reward as u64;
    vault.last_update_time = now;
    Ok(())
}

} // verus!
