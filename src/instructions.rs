use vstd::prelude::*;
use crate::address::Address;
use crate::constants::MIN_STAKE_DURATION;
use crate::errors::VaultError;
use crate::state::{compute_reward, reward_spec, Vault};

verus! {

/// Whether `caller` is the vault's owner.
pub open spec fn is_owner(v: Vault, caller: Address) -> bool {
    caller.bytes@ == v.owner.bytes@
}

/// A fresh record for `owner`: nothing held, nothing staked.
pub open spec fn fresh_vault(owner: Address, bump: u8) -> Vault {
    Vault {
        owner,
        bump,
        total_deposited: 0,
        staked_amount: 0,
        stake_timestamp: 0,
        is_staked: false,
    }
}

/// The record that creation leaves in an empty `slot`.
pub open spec fn initialize_spec(slot: Option<Vault>, owner: Address, bump: u8) -> Result<Vault, VaultError> {
    if slot is Some {
        Err(VaultError::AlreadyInitialized)
    } else {
        Ok(fresh_vault(owner, bump))
    }
}

/// The record after depositing `amount`, or why the deposit is rejected.
pub open spec fn deposit_spec(v: Vault, amount: u64) -> Result<Vault, VaultError> {
    if amount == 0 {
        Err(VaultError::InvalidAmount)
    } else if v.total_deposited + amount > u64::MAX {
        Err(VaultError::ArithmeticOverflow)
    } else {
        Ok(Vault { total_deposited: (v.total_deposited + amount) as u64, ..v })
    }
}

/// The record after `caller` withdraws `amount` from a vault whose custody
/// account holds `custody`, or why the withdrawal is rejected.
pub open spec fn withdraw_spec(v: Vault, caller: Address, amount: u64, custody: u64) -> Result<Vault, VaultError> {
    if !is_owner(v, caller) {
        Err(VaultError::NotOwner)
    } else if amount == 0 {
        Err(VaultError::InvalidAmount)
    } else if v.available_spec() < amount {
        Err(VaultError::InsufficientFunds)
    } else if custody < amount {
        Err(VaultError::InsufficientFunds)
    } else {
        Ok(Vault { total_deposited: (v.total_deposited - amount) as u64, ..v })
    }
}

/// The record after `caller` stakes `amount` at time `now`, or why the stake
/// is rejected.
pub open spec fn stake_spec(v: Vault, caller: Address, amount: u64, now: i64) -> Result<Vault, VaultError> {
    if !is_owner(v, caller) {
        Err(VaultError::NotOwner)
    } else if amount == 0 {
        Err(VaultError::InvalidAmount)
    } else if v.is_staked {
        Err(VaultError::AlreadyStaked)
    } else if v.available_spec() < amount {
        Err(VaultError::InsufficientUnstakedBalance)
    } else {
        Ok(Vault { staked_amount: amount, stake_timestamp: now, is_staked: true, ..v })
    }
}

/// The reward that unstaking at `now` earns: the fixed rate on the staked
/// amount once the minimum duration is met, else nothing.
pub open spec fn unstake_reward_spec(v: Vault, now: i64) -> int {
    if v.stake_duration_spec(now) >= MIN_STAKE_DURATION {
        reward_spec(v.staked_amount)
    } else {
        0
    }
}

/// The record after `caller` unstakes at time `now`, with the reward
/// credited, or why the unstake is rejected.
pub open spec fn unstake_spec(v: Vault, caller: Address, now: i64) -> Result<(Vault, u64), VaultError> {
    if !is_owner(v, caller) {
        Err(VaultError::NotOwner)
    } else if !v.is_staked {
        Err(VaultError::NotStaked)
    } else if v.total_deposited + unstake_reward_spec(v, now) > u64::MAX {
        Err(VaultError::ArithmeticOverflow)
    } else {
        Ok(
            (
                Vault {
                    total_deposited: (v.total_deposited + unstake_reward_spec(v, now)) as u64,
                    staked_amount: 0,
                    stake_timestamp: 0,
                    is_staked: false,
                    ..v
                },
                unstake_reward_spec(v, now) as u64,
            ),
        )
    }
}

/// An operation that returned `r` took the record from `before` to `after`
/// as `outcome` says: to the new record on success, nowhere on rejection.
pub open spec fn settles(before: Vault, after: Vault, r: Result<(), VaultError>, outcome: Result<Vault, VaultError>) -> bool {
    match outcome {
        Ok(next) => r is Ok && after == next,
        Err(e) => r == Err::<(), VaultError>(e) && after == before,
    }
}

/// Creates the vault of `owner` in `slot`, which must be empty.
pub fn initialize(slot: &mut Option<Vault>, owner: &Address, bump: u8) -> (r: Result<(), VaultError>)
    ensures
        match initialize_spec(*old(slot), *owner, bump) {
            Ok(v) => r is Ok && *final(slot) == Some(v),
            Err(e) => r == Err::<(), VaultError>(e) && *final(slot) == *old(slot),
        },
        r is Ok ==> final(slot).unwrap().well_formed(),
{
    if slot.is_some() {
        return Err(VaultError::AlreadyInitialized);
    }
    *slot = Some(
        Vault {
            owner: *owner,
            bump,
            total_deposited: 0,
            staked_amount: 0,
            stake_timestamp: 0,
            is_staked: false,
        },
    );
    Ok(())
}

/// Credits `amount`, already moved into custody, to the vault.
pub fn deposit(vault: &mut Vault, amount: u64) -> (r: Result<(), VaultError>)
    ensures
        settles(*old(vault), *final(vault), r, deposit_spec(*old(vault), amount)),
        old(vault).well_formed() ==> final(vault).well_formed(),
{
    if amount == 0 {
        return Err(VaultError::InvalidAmount);
    }
    match vault.total_deposited.checked_add(amount) {
        Some(total) => {
            vault.total_deposited = total;
            Ok(())
        },
        None => Err(VaultError::ArithmeticOverflow),
    }
}

/// Debits `amount` from the vault for a withdrawal by `caller`; `custody_balance`
/// is what the vault's custody account actually holds.
pub fn withdraw(vault: &mut Vault, caller: &Address, amount: u64, custody_balance: u64) -> (r: Result<(), VaultError>)
    ensures
        settles(*old(vault), *final(vault), r, withdraw_spec(*old(vault), *caller, amount, custody_balance)),
        old(vault).well_formed() ==> final(vault).well_formed(),
{
    if !(*caller == vault.owner) {
        return Err(VaultError::NotOwner);
    }
    if amount == 0 {
        return Err(VaultError::InvalidAmount);
    }
    let available = vault.get_available_balance();
    if available < amount {
        return Err(VaultError::InsufficientFunds);
    }
    if custody_balance < amount {
        return Err(VaultError::InsufficientFunds);
    }
    match vault.total_deposited.checked_sub(amount) {
        Some(total) => {
            vault.total_deposited = total;
            Ok(())
        },
        None => Err(VaultError::ArithmeticOverflow),
    }
}

/// Locks `amount` of the available balance as the vault's stake, from time
/// `now`.
pub fn stake(vault: &mut Vault, caller: &Address, amount: u64, now: i64) -> (r: Result<(), VaultError>)
    ensures
        settles(*old(vault), *final(vault), r, stake_spec(*old(vault), *caller, amount, now)),
        old(vault).well_formed() ==> final(vault).well_formed(),
        old(vault).well_formed() && r is Ok ==> final(vault).available_spec() == old(vault).available_spec() - amount,
{
    if !(*caller == vault.owner) {
        return Err(VaultError::NotOwner);
    }
    if amount == 0 {
        return Err(VaultError::InvalidAmount);
    }
    if vault.is_staked {
        return Err(VaultError::AlreadyStaked);
    }
    let available = vault.get_available_balance();
    if available < amount {
        return Err(VaultError::InsufficientUnstakedBalance);
    }
    vault.staked_amount = amount;
    vault.stake_timestamp = now;
    vault.is_staked = true;
    Ok(())
}

/// Releases the active stake at time `now`, credits the reward it earned,
/// and returns that reward.
pub fn unstake(vault: &mut Vault, caller: &Address, now: i64) -> (r: Result<u64, VaultError>)
    ensures
        match unstake_spec(*old(vault), *caller, now) {
            Ok((next, reward)) => r == Ok::<u64, VaultError>(reward) && *final(vault) == next,
            Err(e) => r == Err::<u64, VaultError>(e) && *final(vault) == *old(vault),
        },
        old(vault).well_formed() ==> final(vault).well_formed(),
{
    if !(*caller == vault.owner) {
        return Err(VaultError::NotOwner);
    }
    if !vault.is_staked {
        return Err(VaultError::NotStaked);
    }
    let reward: u64 = if vault.has_met_min_duration(now, MIN_STAKE_DURATION) {
        match compute_reward(vault.staked_amount) {
            Ok(x) => x,
            Err(e) => return Err(e),
        }
    } else {
        0
    };
    let total = match vault.total_deposited.checked_add(reward) {
        Some(t) => t,
        None => return Err(VaultError::ArithmeticOverflow),
    };
    vault.total_deposited = total;
    vault.staked_amount = 0;
    vault.stake_timestamp = 0;
    vault.is_staked = false;
    Ok(reward)
}

} // verus!
