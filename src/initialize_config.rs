use vstd::prelude::*;
use crate::error::StakeError;
use crate::state::{Key, StakeConfig};

verus! {

/// Bump seeds of the records that policy initialization creates.
#[derive(Clone, Copy, Debug, PartialEq, Eq, Structural)]
pub struct InitializeConfigBumps {
    pub config: u8,
    pub rewards_mint: u8,
}

/// The records that policy initialization reads and writes.
#[derive(Clone, Copy, Debug, PartialEq, Eq, Structural)]
pub struct InitializeConfig {
    /// The administrator who creates the policy.
    pub admin: Key,
    /// The policy record, if it exists already.
    pub config: Option<StakeConfig>,
}

impl InitializeConfig {
    /// Creates the policy from the given settings, unless it exists already.
    pub fn initialize_config(
        &mut self,
        points_per_stake: u8,
        max_stake: u8,
        freeze_period: u32,
        bumps: InitializeConfigBumps,
    ) -> (r: Result<(), StakeError>)
        ensures
            old(self).config is Some <==> r == Err::<(), StakeError>(StakeError::AlreadyInitialized),
            old(self).config is Some ==> *final(self) == *old(self),
            old(self).config is None ==> r is Ok && *final(self) == (InitializeConfig {
                config: Some(
                    StakeConfig {
                        points_per_stake,
                        max_stake,
                        freeze_period,
                        rewards_bump: bumps.rewards_mint,
                        bump: bumps.config,
                    },
                ),
                ..*old(self)
            }),
    {
        if self.config.is_some() {
            return Err(StakeError::AlreadyInitialized);
        }
        self.config = Some(
            StakeConfig {
                points_per_stake,
                max_stake,
                freeze_period,
                rewards_bump: bumps.rewards_mint,
                bump: bumps.config,
            },
        );
        Ok(())
    }
}

} // verus!
