use vstd::prelude::*;
use crate::state::Key;

verus! {

/// A command for the custody or minting collaborator, carried out by the host
/// in the same all-or-nothing transaction as the record updates.
#[derive(Clone, Copy, Debug, PartialEq, Eq, Structural)]
pub enum Command {
    /// Let the asset's custody record move `amount` units out of the owner's
    /// token account.
    Approve { owner: Key, mint: Key, amount: u64 },
    /// Freeze the owner's token account under the custody record's delegation.
    FreezeDelegated { owner: Key, mint: Key },
    /// Thaw the owner's token account under the custody record's delegation.
    ThawDelegated { owner: Key, mint: Key },
    /// Take back the delegation from the owner's token account.
    Revoke { owner: Key, mint: Key },
    /// Mint `amount` base units of the reward currency to the recipient's
    /// reward account.
    MintTo { recipient: Key, amount: u64 },
}

} // verus!
