//! Panorama Swap: the trading pairs, staking, vesting, airdrop and multi-signature
//! wallet logic of the Panorama Swap contracts, as verified state machines.
//!
//! Every contract is a plain struct holding its storage.  A message is a function
//! from that storage, the call environment and the answers that other contracts
//! gave, to a new storage, the calls to make next and the event to emit.
mod account;

pub use account::{AccountId, Mapping, MapKey};
pub mod wide;
pub mod env;
pub mod token;
pub mod trading_pair_azero;
pub mod trading_pair_psp22;
pub mod staking;
pub mod vesting;
pub mod airdrop;
pub mod contract_creator;
pub mod pair_creator;
pub mod multi_sig;
pub mod panx_a0;
