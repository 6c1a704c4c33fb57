use vstd::prelude::*;

verus! {

/// A 32-byte identity (a participant, an asset, a collection), as two halves.
#[derive(Clone, Copy, Debug, PartialEq, Eq, Structural)]
pub struct Key {
    pub hi: u128,
    pub lo: u128,
}

/// The global policy, created once by an administrator.
#[derive(Clone, Copy, Debug, PartialEq, Eq, Structural)]
pub struct StakeConfig {
    /// Points credited per asset when accrual happens on release.
    pub points_per_stake: u8,
    /// The most assets one participant may have locked at a time.
    pub max_stake: u8,
    /// The number of whole days an asset must stay locked.
    pub freeze_period: u32,
    pub rewards_bump: u8,
    pub bump: u8,
}

/// The ledger of one participant.
#[derive(Clone, Copy, Debug, PartialEq, Eq, Structural)]
pub struct UserAccount {
    /// Accrued points not yet claimed.
    pub points: u32,
    /// The number of assets this participant has locked now.
    pub amount_staked: u8,
    pub bump: u8,
}

/// The custody record of one locked asset.
#[derive(Clone, Copy, Debug, PartialEq, Eq, Structural)]
pub struct StakeAccount {
    /// The participant who locked the asset, the only one who may release it.
    pub owner: Key,
    /// The locked asset.
    pub mint: Key,
    /// When the asset was locked, in seconds.
    pub staked_at: i64,
    pub bump: u8,
}

impl UserAccount {
    /// The participant's count of locked assets is within the policy's ceiling.
    pub open spec fn within_limit(self, config: StakeConfig) -> bool {
        self.amount_staked <= config.max_stake
    }
}

} // verus!
