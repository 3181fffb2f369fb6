use vstd::prelude::*;

verus! {

/// Seconds a stake must be held before unstaking earns a reward.
pub const MIN_STAKE_DURATION: i64 = 60;

/// Reward rate in basis points (1000 is ten percent).
pub const REWARD_RATE_BASIS_POINTS: u64 = 1000;

/// Basis points that make up one whole (10000 is one hundred percent).
pub const BASIS_POINTS_DIVISOR: u64 = 10000;

} // verus!
