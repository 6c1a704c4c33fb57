//! A custody-and-rewards ledger for staking collectible tokens.
//!
//! Each instruction context holds the records that a transition reads and
//! writes. Its method validates the request against the global policy, updates
//! the records, and hands back the custody or mint commands that the host must
//! carry out together with the record updates, all or nothing.
pub mod claim;
pub mod command;
pub mod error;
pub mod initialize_config;
pub mod initialize_user;
pub mod laws;
pub mod nft_staking;
pub mod stake;
pub mod state;
pub mod unstake;
