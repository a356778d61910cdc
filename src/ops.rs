use vstd::prelude::*;

use crate::reward::{accrue_error, accrued_box, accrued_vault, update_rewards};
use crate::state::{outcome, RewardBox, UserKey, Vault, VaultError, Wallet};

verus! {

/// Accounts for opening a vault: the signer and the storage for the vault
/// and its reward box, empty until the vault is opened.
#[derive(Clone, Copy, Debug)]
pub struct Initialize {
    pub user: UserKey,
    pub vault: Option<Vault>,
    pub reward_box: Option<RewardBox>,
    pub vault_bump: u8,
    pub reward_box_bump: u8,
}

/// Accounts for a deposit: the signer's vault and reward box.
#[derive(Clone, Copy, Debug)]
pub struct Deposit {
    pub user: UserKey,
    pub vault: Vault,
    pub reward_box: RewardBox,
}

/// Accounts for a withdrawal: the signer's wallet, vault, the lamports the
/// vault account holds in custody, and the reward box.
#[derive(Clone, Copy, Debug)]
pub struct Withdraw {
    pub user: Wallet,
    pub vault: Vault,
    pub vault_lamports: u64,
    pub reward_box: RewardBox,
}

/// Accounts for a transfer out of the signer's vault to any recipient
/// account, which is distinct from the vault account.
#[derive(Clone, Copy, Debug)]
pub struct TransferSol {
    pub user: UserKey,
    pub vault: Vault,
    pub vault_lamports: u64,
    pub reward_box: RewardBox,
    pub recipient: Wallet,
}

/// Why opening a vault is refused, if it is.
pub open spec fn initialize_error(c: Initialize) -> Option<VaultError> {
    if c.vault is Some || c.reward_box is Some {
        Some(VaultError::AlreadyInitialized)
    } else {
        None
    }
}

/// The accounts once the vault is opened at clock reading `now`.
pub open spec fn initialized(c: Initialize, now: i64) -> Initialize {
    Initialize {
        vault: Some(Vault { user: c.user, balance: 0, bump: c.vault_bump, last_update_time: now }),
        reward_box: Some(RewardBox { balance: 0, bump: c.reward_box_bump }),
        ..c
    }
}

/// Why a deposit of `amount` at `now` is refused, if it is.
pub open spec fn deposit_error(c: Deposit, amount: u64, now: i64) -> Option<VaultError> {
    if accrue_error(c.vault, c.reward_box, now) is Some {
        accrue_error(c.vault, c.reward_box, now)
    } else if c.vault.balance + amount > u64::MAX {
        Some(VaultError::ArithmeticOverflow)
    } else {
        None
    }
}

/// The accounts after a deposit: reward settled, then the balance raised.
pub open spec fn deposited(c: Deposit, amount: u64, now: i64) -> Deposit {
    Deposit {
        vault: Vault {
            balance: (c.vault.balance + amount) as u64,
            ..accrued_vault(c.vault, now)
        },
        reward_box: accrued_box(c.vault, c.reward_box, now),
        ..c
    }
}

/// Why moving `amount` out of a vault to an account holding `to_lamports`
/// is refused, if it is, once the caller is known to own the vault.
pub open spec fn payout_error(
    v: Vault,
    vault_lamports: u64,
    b: RewardBox,
    to_lamports: u64,
    amount: u64,
    now: i64,
) -> Option<VaultError> {
    if accrue_error(v, b, now) is Some {
        accrue_error(v, b, now)
    } else if amount > v.balance || amount > vault_lamports {
        Some(VaultError::InsufficientFunds)
    } else if to_lamports + amount > u64::MAX {
        Some(VaultError::ArithmeticOverflow)
    } else {
        None
    }
}

/// The vault after paying out `amount`: reward settled, then the balance
/// lowered.
pub open spec fn paid_vault(v: Vault, amount: u64, now: i64) -> Vault {
    Vault { balance: (v.balance - amount) as u64, ..accrued_vault(v, now) }
}

/// Why a withdrawal of `amount` at `now` is refused, if it is.
pub open spec fn withdraw_error(c: Withdraw, amount: u64, now: i64) -> Option<VaultError> {
    if c.vault.user != c.user.key {
        Some(VaultError::Unauthorized)
    } else {
        payout_error(c.vault, c.vault_lamports, c.reward_box, c.user.lamports, amount, now)
    }
}

/// The accounts after a withdrawal: `amount` leaves the vault's balance and
/// custody and reaches the owner's wallet.
pub open spec fn withdrawn(c: Withdraw, amount: u64, now: i64) -> Withdraw {
    Withdraw {
        user: Wallet { lamports: (c.user.lamports + amount) as u64, ..c.user },
        vault: paid_vault(c.vault, amount, now),
        vault_lamports: (c.vault_lamports - amount) as u64,
        reward_box: accrued_box(c.vault, c.reward_box, now),
    }
}

/// Why a transfer of `amount` at `now` is refused, if it is.
pub open spec fn transfer_error(c: TransferSol, amount: u64, now: i64) -> Option<VaultError> {
    if c.vault.user != c.user {
        Some(VaultError::Unauthorized)
    } else {
        payout_error(c.vault, c.vault_lamports, c.reward_box, c.recipient.lamports, amount, now)
    }
}

/// The accounts after a transfer: `amount` leaves the vault's balance and
/// custody and reaches the recipient.
pub open spec fn transferred(c: TransferSol, amount: u64, now: i64) -> TransferSol {
    TransferSol {
        vault: paid_vault(c.vault, amount, now),
        vault_lamports: (c.vault_lamports - amount) as u64,
        reward_box: accrued_box(c.vault, c.reward_box, now),
        recipient: Wallet { lamports: (c.recipient.lamports + amount) as u64, ..c.recipient },
        ..c
    }
}

/// Opens the signer's vault and reward box, both empty, with the checkpoint
/// at `now`.
pub fn initialize(ctx: &mut Initialize, now: i64) -> (r: Result<(), VaultError>)
    ensures
        r == outcome(initialize_error(*old(ctx))),
        r is Ok ==> *final(ctx) == initialized(*old(ctx), now),
        r is Err ==> *final(ctx) == *old(ctx),
{
    if ctx.vault.is_some() || ctx.reward_box.is_some() {
        return Err(VaultError::AlreadyInitialized);
    }
    ctx.vault = Some(
        Vault { user: ctx.user, balance: 0, bump: ctx.vault_bump, last_update_time: now },
    );
    ctx.reward_box = Some(RewardBox { balance: 0, bump: ctx.reward_box_bump });
    Ok(())
}

/// Settles reward, then adds `amount` to the vault's balance. The funds
/// themselves are moved into custody by the host alongside.
pub fn deposit(ctx: &mut Deposit, amount: u64, now: i64) -> (r: Result<(), VaultError>)
    ensures
        r == outcome(deposit_error(*old(ctx), amount, now)),
        r is Ok ==> *final(ctx) == deposited(*old(ctx), amount, now),
        r is Err ==> *final(ctx) == *old(ctx),
        final(ctx).reward_box.balance >= old(ctx).reward_box.balance,
        final(ctx).vault.last_update_time >= old(ctx).vault.last_update_time,
        r is Ok ==> final(ctx).vault.last_update_time <= now,
{
    let mut vault = ctx.vault;
    let mut reward_box = ctx.reward_box;
    match update_rewards(&mut vault, &mut reward_box, now) {
        Ok(()) => {},
        Err(e) => {
            return Err(e);
        },
    }
    if amount > u64::MAX - vault.balance {
        return Err(VaultError::ArithmeticOverflow);
    }
    vault.balance = vault.balance + amount;
    ctx.vault = vault;
    ctx.reward_box = reward_box;
    Ok(())
}

/// Settles reward on the vault, then moves `amount` from the vault's balance
/// and custody lamports to an account holding `to_lamports`. Nothing is
/// written unless every step succeeds.
fn pay_out(
    vault: &mut Vault,
    vault_lamports: &mut u64,
    reward_box: &mut RewardBox,
    to_lamports: &mut u64,
    amount: u64,
    now: i64,
) -> (r: Result<(), VaultError>)
    ensures
        r == outcome(
            payout_error(*old(vault), *old(vault_lamports), *old(reward_box), *old(to_lamports), amount, now),
        ),
        r is Ok ==> *final(vault) == paid_vault(*old(vault), amount, now) && *final(vault_lamports)
            == *old(vault_lamports) - amount && *final(reward_box) == accrued_box(
            *old(vault),
            *old(reward_box),
            now,
        ) && *final(to_lamports) == *old(to_lamports) + amount,
        r is Err ==> *final(vault) == *old(vault) && *final(vault_lamports) == *old(vault_lamports)
            && *final(reward_box) == *old(reward_box) && *final(to_lamports) == *old(to_lamports),
{
    let mut v = *vault;
    let mut b = *reward_box;
    match update_rewards(&mut v, &mut b, now) {
        Ok(()) => {},
        Err(e) => {
            return Err(e);
        },
    }
    if amount > v.balance || amount > *vault_lamports {
        return Err(VaultError::InsufficientFunds);
    }
    if amount > u64::MAX - *to_lamports {
        return Err(VaultError::ArithmeticOverflow);
    }
    *vault_lamports = *vault_lamports - amount;
    *to_lamports = *to_lamports + amount;
    v.balance = v.balance - amount;
    *vault = v;
    *reward_box = b;
    Ok(())
}

/// Settles reward, then releases `amount` from the vault to its owner.
/// Refused unless the signer owns the vault and the vault holds `amount`.
pub fn withdraw(ctx: &mut Withdraw, amount: u64, now: i64) -> (r: Result<(), VaultError>)
    ensures
        r == outcome(withdraw_error(*old(ctx), amount, now)),
        r is Ok ==> *final(ctx) == withdrawn(*old(ctx), amount, now),
        r is Err ==> *final(ctx) == *old(ctx),
        final(ctx).reward_box.balance >= old(ctx).reward_box.balance,
        final(ctx).vault.last_update_time >= old(ctx).vault.last_update_time,
        r is Ok ==> final(ctx).vault.last_update_time <= now,
{
    if ctx.vault.user != ctx.user.key {
        return Err(VaultError::Unauthorized);
    }
    pay_out(
        &mut ctx.vault,
        &mut ctx.vault_lamports,
        &mut ctx.reward_box,
        &mut ctx.user.lamports,
        amount,
        now,
    )
}

/// Settles reward, then moves `amount` from the vault straight to the
/// recipient's account. Refused unless the signer owns the vault and the
/// vault holds `amount`.
pub fn transfer(ctx: &mut TransferSol, amount: u64, now: i64) -> (r: Result<(), VaultError>)
    ensures
        r == outcome(transfer_error(*old(ctx), amount, now)),
        r is Ok ==> *final(ctx) == transferred(*old(ctx), amount, now),
        r is Err ==> *final(ctx) == *old(ctx),
        final(ctx).reward_box.balance >= old(ctx).reward_box.balance,
        final(ctx).vault.last_update_time >= old(ctx).vault.last_update_time,
        r is Ok ==> final(ctx).vault.last_update_time <= now,
{
    if ctx.vault.user != ctx.user {
        return Err(VaultError::Unauthorized);
    }
    pay_out(
        &mut ctx.vault,
        &mut ctx.vault_lamports,
        &mut ctx.reward_box,
        &mut ctx.recipient.lamports,
        amount,
        now,
    )
}

} // verus!
