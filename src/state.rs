use vstd::prelude::*;
use crate::address::{vault_seed, vault_seed_spec, Address};
use crate::constants::{BASIS_POINTS_DIVISOR, REWARD_RATE_BASIS_POINTS};
use crate::errors::VaultError;

verus! {

/// The persisted record of one owner's vault.
#[derive(Clone, Copy, Debug)]
pub struct Vault {
    /// Who controls the vault; fixed at creation.
    pub owner: Address,
    /// The bump seed that, with the vault's seeds, re-derives its address.
    pub bump: u8,
    /// Everything held for the owner, staked or not.
    pub total_deposited: u64,
    /// The part of `total_deposited` locked by the active stake.
    pub staked_amount: u64,
    /// When the active stake began (Unix seconds); zero when none is active.
    pub stake_timestamp: i64,
    /// Whether a stake is active.
    pub is_staked: bool,
}

/// `a - b`, or zero where `b` exceeds `a`.
pub open spec fn saturating_diff(a: int, b: int) -> int {
    if a >= b {
        a - b
    } else {
        0
    }
}

/// `x` clamped into the non-negative range of `i64`.
pub open spec fn clamp_nonneg_i64(x: int) -> int {
    if x < 0 {
        0
    } else if x > i64::MAX {
        i64::MAX as int
    } else {
        x
    }
}

/// The reward for a stake of `amount`: the fixed rate in basis points,
/// rounded down.
pub open spec fn reward_spec(amount: u64) -> int {
    amount * (REWARD_RATE_BASIS_POINTS as int) / (BASIS_POINTS_DIVISOR as int)
}

impl Vault {
    /// The record's invariant: stake never exceeds the total, and a stake is
    /// active exactly when its amount is non-zero.
    pub open spec fn well_formed(&self) -> bool {
        &&& self.total_deposited >= self.staked_amount
        &&& (self.staked_amount == 0) == !self.is_staked
    }

    /// What may be withdrawn or staked: the total less the staked part.
    pub open spec fn available_spec(&self) -> int {
        saturating_diff(self.total_deposited as int, self.staked_amount as int)
    }

    /// How long the active stake has been held at `now`; zero with no stake
    /// and never negative.
    pub open spec fn stake_duration_spec(&self, now: i64) -> int {
        if !self.is_staked {
            0
        } else {
            clamp_nonneg_i64(now - self.stake_timestamp)
        }
    }

    /// The seeds with which the vault signs for itself: its derivation seeds
    /// followed by the bump seed.
    pub open spec fn signer_seeds_spec(&self) -> Seq<Seq<u8>> {
        seq![vault_seed_spec(), self.owner.bytes@, seq![self.bump]]
    }

    /// How long the active stake has been held at `current_time`.
    pub fn get_stake_duration(&self, current_time: i64) -> (r: i64)
        ensures
            r == self.stake_duration_spec(current_time),
            r >= 0,
    {
        if !self.is_staked {
            return 0;
        }
        let d: i128 = current_time as i128 - self.stake_timestamp as i128;
        if d < 0 {
            0
        } else if d > i64::MAX as i128 {
            i64::MAX
        } else {
            d as i64
        }
    }

    /// Whether the active stake has been held at least `min_duration` at
    /// `current_time`.
    pub fn has_met_min_duration(&self, current_time: i64, min_duration: i64) -> (r: bool)
        ensures
            r == (self.stake_duration_spec(current_time) >= min_duration),
    {
        self.get_stake_duration(current_time) >= min_duration
    }

    /// The balance that is not staked.
    pub fn get_available_balance(&self) -> (r: u64)
        ensures
            r == self.available_spec(),
    {
        self.total_deposited.saturating_sub(self.staked_amount)
    }

    /// The seeds with which the vault authorizes transfers out of custody.
    pub fn signer_seeds(&self) -> (r: Vec<Vec<u8>>)
        ensures
            r.deep_view() == self.signer_seeds_spec(),
    {
        let tag = vault_seed();
        let key = self.owner.to_vec();
        let bump: Vec<u8> = vec![self.bump];
        let mut r: Vec<Vec<u8>> = Vec::new();
        r.push(tag);
        r.push(key);
        r.push(bump);
        proof {
            assert(tag.deep_view() =~= vault_seed_spec());
            assert(key.deep_view() =~= self.owner.bytes@);
            assert(bump.deep_view() =~= seq![self.bump]);
            assert(r@[0] == tag && r@[1] == key && r@[2] == bump);
            assert(r.deep_view() =~= self.signer_seeds_spec());
        }
        r
    }
}

proof fn lemma_reward_bounded(amount: u64)
    ensures
        0 <= reward_spec(amount) <= amount,
{
    assert(0 <= amount * 1000int / 10000int <= amount) by (nonlinear_arith);
}

/// The reward for a stake of `amount`, computed in 128 bits with checked
/// multiplication and division. It always succeeds.
pub fn compute_reward(amount: u64) -> (r: Result<u64, VaultError>)
    ensures
        r == Ok::<u64, VaultError>(reward_spec(amount) as u64),
        reward_spec(amount) <= amount,
{
    proof {
        lemma_reward_bounded(amount);
        assert(amount * 1000int <= u128::MAX) by (nonlinear_arith);
    }
    let product = match (amount as u128).checked_mul(REWARD_RATE_BASIS_POINTS as u128) {
        Some(p) => p,
        None => return Err(VaultError::ArithmeticOverflow),
    };
    let quotient = match product.checked_div(BASIS_POINTS_DIVISOR as u128) {
        Some(q) => q,
        None => return Err(VaultError::ArithmeticOverflow),
    };
    Ok(quotient as u64)
}

} // verus!
