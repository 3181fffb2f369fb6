use vstd::prelude::*;

verus! {

/// Why an operation on a vault was rejected. A rejected operation leaves the
/// record as it was.
#[derive(Clone, Copy, Debug, PartialEq, Eq, Structural)]
pub enum VaultError {
    /// A zero amount was given to deposit, withdraw or stake.
    InvalidAmount,
    /// A withdrawal exceeds the available balance, or what custody holds.
    InsufficientFunds,
    /// A stake exceeds the available balance.
    InsufficientUnstakedBalance,
    /// A stake was requested while one is active.
    AlreadyStaked,
    /// An unstake was requested with no active stake.
    NotStaked,
    /// A checked addition, subtraction, multiplication or division failed.
    ArithmeticOverflow,
    /// The caller is not the vault's owner.
    NotOwner,
    /// A vault already exists at the derived address.
    AlreadyInitialized,
}

} // verus!
