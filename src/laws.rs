use vstd::prelude::*;
use crate::address::Address;
use crate::constants::MIN_STAKE_DURATION;
use crate::errors::VaultError;
use crate::instructions::{
    deposit_spec, fresh_vault, initialize_spec, is_owner, stake_spec, unstake_spec, withdraw_spec,
};
use crate::state::{reward_spec, Vault};

verus! {

/// Every operation keeps the record's invariant: creation establishes it, and
/// each successful deposit, withdrawal, stake or unstake from a well-formed
/// record yields a well-formed record. (A rejected operation leaves the record
/// as it was.)
pub proof fn lemma_operations_keep_well_formed(
    v: Vault,
    owner: Address,
    bump: u8,
    caller: Address,
    amount: u64,
    custody: u64,
    now: i64,
)
    requires
        v.well_formed(),
    ensures
        fresh_vault(owner, bump).well_formed(),
        deposit_spec(v, amount) matches Ok(n) ==> n.well_formed(),
        withdraw_spec(v, caller, amount, custody) matches Ok(n) ==> n.well_formed(),
        stake_spec(v, caller, amount, now) matches Ok(n) ==> n.well_formed(),
        unstake_spec(v, caller, now) matches Ok((n, _)) ==> n.well_formed(),
{
}

/// Depositing an amount and then withdrawing the same amount, as the owner
/// and with custody holding at least that amount, restores the total and
/// leaves the stake untouched.
pub proof fn lemma_deposit_then_withdraw_restores(v: Vault, amount: u64, custody: u64)
    requires
        v.well_formed(),
        custody >= amount,
    ensures
        deposit_spec(v, amount) matches Ok(d) ==> withdraw_spec(d, v.owner, amount, custody) matches Ok(w)
            && w.total_deposited == v.total_deposited && w.is_staked == v.is_staked && w == v,
{
}

/// Once a stake has succeeded, a second stake of any non-zero amount, with no
/// unstake between, is rejected as already staked.
pub proof fn lemma_second_stake_rejected(
    v: Vault,
    caller: Address,
    first: u64,
    first_time: i64,
    second: u64,
    second_time: i64,
)
    requires
        second > 0,
    ensures
        stake_spec(v, caller, first, first_time) matches Ok(s) ==> stake_spec(s, caller, second, second_time)
            == Err::<Vault, VaultError>(VaultError::AlreadyStaked),
{
}

/// A deposit that would carry the total past the largest `u64` is rejected as
/// an overflow (and a rejected deposit leaves the record unchanged).
pub proof fn lemma_deposit_overflow_rejected(v: Vault, amount: u64)
    requires
        v.total_deposited + amount > u64::MAX,
    ensures
        deposit_spec(v, amount) == Err::<Vault, VaultError>(VaultError::ArithmeticOverflow),
{
}

/// Withdraw, stake and unstake by anyone but the owner are rejected as not
/// the owner's (and a rejected operation leaves the record unchanged).
pub proof fn lemma_non_owner_rejected(v: Vault, caller: Address, amount: u64, custody: u64, now: i64)
    requires
        !is_owner(v, caller),
    ensures
        withdraw_spec(v, caller, amount, custody) == Err::<Vault, VaultError>(VaultError::NotOwner),
        stake_spec(v, caller, amount, now) == Err::<Vault, VaultError>(VaultError::NotOwner),
        unstake_spec(v, caller, now) == Err::<(Vault, u64), VaultError>(VaultError::NotOwner),
{
}

/// A full cycle on a new vault: create, deposit `d`, stake `s` of it at
/// `staked_at`, unstake at `unstaked_at` once the minimum duration has passed
/// (earning the reward on `s`). Every step succeeds. Withdrawing
/// `d + reward` then empties the vault, with no stake left; withdrawing
/// `d - s + reward` instead, where that is not zero, leaves `s` in it.
pub proof fn lemma_full_cycle(
    owner: Address,
    bump: u8,
    d: u64,
    s: u64,
    staked_at: i64,
    unstaked_at: i64,
    custody: u64,
)
    requires
        0 < s <= d,
        unstaked_at - staked_at >= MIN_STAKE_DURATION,
        d + reward_spec(s) <= u64::MAX,
        custody >= d + reward_spec(s),
    ensures
        ({
            &&& initialize_spec(None, owner, bump) matches Ok(v0)
            &&& deposit_spec(v0, d) matches Ok(v1)
            &&& stake_spec(v1, owner, s, staked_at) matches Ok(v2)
            &&& unstake_spec(v2, owner, unstaked_at) matches Ok((v3, reward))
            &&& reward == reward_spec(s)
            &&& d - s + reward > 0 ==> (withdraw_spec(v3, owner, (d - s + reward) as u64, custody) matches Ok(
                partial,
            ) && partial.total_deposited == s)
            &&& withdraw_spec(v3, owner, (d + reward) as u64, custody) matches Ok(emptied)
            &&& emptied.total_deposited == 0
            &&& emptied.staked_amount == 0
            &&& !emptied.is_staked
        }),
{
    assert(0 <= s * 1000int / 10000int <= s) by (nonlinear_arith);
    let v0 = fresh_vault(owner, bump);
    let v1 = Vault { total_deposited: d, ..v0 };
    assert(deposit_spec(v0, d) == Ok::<Vault, VaultError>(v1));
    let v2 = Vault { staked_amount: s, stake_timestamp: staked_at, is_staked: true, ..v1 };
    assert(v1.available_spec() == d);
    assert(stake_spec(v1, owner, s, staked_at) == Ok::<Vault, VaultError>(v2));
    assert(v2.stake_duration_spec(unstaked_at) >= MIN_STAKE_DURATION);
    let reward = reward_spec(s);
    let v3 = Vault {
        total_deposited: (d + reward) as u64,
        staked_amount: 0,
        stake_timestamp: 0,
        is_staked: false,
        ..v2
    };
    assert(unstake_spec(v2, owner, unstaked_at) == Ok::<(Vault, u64), VaultError>((v3, reward as u64)));
    assert(v3.available_spec() == d + reward);
    assert(initialize_spec(None, owner, bump) == Ok::<Vault, VaultError>(v0));
    let partial = Vault { total_deposited: s, ..v3 };
    if d - s + reward > 0 {
        assert(withdraw_spec(v3, owner, (d - s + reward) as u64, custody) == Ok::<Vault, VaultError>(partial));
    }
    let emptied = Vault { total_deposited: 0, ..v3 };
    assert(withdraw_spec(v3, owner, (d + reward) as u64, custody) == Ok::<Vault, VaultError>(emptied));
}

} // verus!
