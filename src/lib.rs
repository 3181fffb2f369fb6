//! A custody vault with time-gated staking rewards, as a set of verified
//! state transitions over one per-owner record.

pub mod address;
pub mod constants;
pub mod errors;
pub mod state;
pub mod instructions;
pub mod laws;

pub use address::{derive_vault_address, Address};
pub use errors::VaultError;
pub use instructions::{deposit, initialize, stake, unstake, withdraw};
pub use state::{compute_reward, Vault};
