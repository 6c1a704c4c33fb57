use vstd::prelude::*;
use crate::command::Command;
use crate::error::StakeError;
use crate::state::{Key, StakeAccount, StakeConfig, UserAccount};

verus! {

/// What the asset's metadata says of its collection.
#[derive(Clone, Copy, Debug, PartialEq, Eq, Structural)]
pub struct CollectionRef {
    /// The collection the asset claims to belong to.
    pub key: Key,
    /// Whether the collection's authority has verified that claim.
    pub verified: bool,
}

/// Bump seeds of the records that lock-in creates.
#[derive(Clone, Copy, Debug, PartialEq, Eq, Structural)]
pub struct StakeBumps {
    pub stake_account: u8,
}

/// The records that a lock-in reads and writes.
#[derive(Clone, Copy, Debug, PartialEq, Eq, Structural)]
pub struct Stake {
    /// The caller, who owns the asset.
    pub user: Key,
    /// The asset to lock.
    pub mint: Key,
    /// The collection the asset must belong to.
    pub collection_mint: Key,
    /// The collection entry of the asset's metadata, if it has one.
    pub collection: Option<CollectionRef>,
    pub config: StakeConfig,
    /// The caller's ledger.
    pub user_account: UserAccount,
    /// The custody record kept under the asset's key, if there is one.
    pub stake_account: Option<StakeAccount>,
    /// The current time, in seconds.
    pub now: i64,
}

/// The asset is a verified member of the given collection.
pub open spec fn is_verified_member(collection: Option<CollectionRef>, collection_mint: Key) -> bool {
    match collection {
        Some(c) => c.key == collection_mint && c.verified,
        None => false,
    }
}

/// The commands that put `mint` into custody: a one-unit delegation, then a
/// freeze under it.
pub open spec fn lock_commands(owner: Key, mint: Key) -> Seq<Command> {
    seq![
        Command::Approve { owner, mint, amount: 1 },
        Command::FreezeDelegated { owner, mint },
    ]
}

/// The commands that a transition handed back, as a sequence.
pub open spec fn commands_view(r: Result<Vec<Command>, StakeError>) -> Result<Seq<Command>, StakeError> {
    match r {
        Ok(c) => Ok(c@),
        Err(e) => Err(e),
    }
}

impl Stake {
    /// The first precondition of lock-in that fails, if any.
    pub open spec fn refusal(self) -> Option<StakeError> {
        if !is_verified_member(self.collection, self.collection_mint) {
            Some(StakeError::UnrecognizedAsset)
        } else if self.user_account.amount_staked >= self.config.max_stake {
            Some(StakeError::MaxStakeReached)
        } else if self.stake_account is Some {
            Some(StakeError::AlreadyLocked)
        } else {
            None
        }
    }

    /// The records after a successful lock-in.
    pub open spec fn locked(self, bumps: StakeBumps) -> Stake {
        Stake {
            user_account: UserAccount {
                amount_staked: (self.user_account.amount_staked + 1) as u8,
                ..self.user_account
            },
            stake_account: Some(
                StakeAccount {
                    owner: self.user,
                    mint: self.mint,
                    staked_at: self.now,
                    bump: bumps.stake_account,
                },
            ),
            ..self
        }
    }

    /// The records and the result of a lock-in.
    pub open spec fn outcome(self, bumps: StakeBumps) -> (Stake, Result<Seq<Command>, StakeError>) {
        match self.refusal() {
            Some(e) => (self, Err(e)),
            None => (self.locked(bumps), Ok(lock_commands(self.user, self.mint))),
        }
    }

    /// Locks the asset: checks, in this order, that it is a verified member of
    /// the collection, that the caller is below the policy's ceiling, and that
    /// the asset has no custody record; then creates the record, counts the
    /// asset against the caller, and returns the delegate and freeze commands.
    /// A refused lock-in changes nothing and issues nothing.
    pub fn stake(&mut self, bumps: StakeBumps) -> (r: Result<Vec<Command>, StakeError>)
        ensures
            *final(self) == old(self).outcome(bumps).0,
            commands_view(r) == old(self).outcome(bumps).1,
    {
        let member = match self.collection {
            Some(c) => c.key == self.collection_mint && c.verified,
            None => false,
        };
        if !member {
            return Err(StakeError::UnrecognizedAsset);
        }
        if self.user_account.amount_staked >= self.config.max_stake {
            return Err(StakeError::MaxStakeReached);
        }
        if self.stake_account.is_some() {
            return Err(StakeError::AlreadyLocked);
        }
        let mut commands: Vec<Command> = Vec::new();
        commands.push(Command::Approve { owner: self.user, mint: self.mint, amount: 1 });
        commands.push(Command::FreezeDelegated { owner: self.user, mint: self.mint });
        self.stake_account = Some(
            StakeAccount {
                owner: self.user,
                mint: self.mint,
                staked_at: self.now,
                bump: bumps.stake_account,
            },
        );
        self.user_account.amount_staked = self.user_account.amount_staked + 1;
        assert(commands@ =~= lock_commands(self.user, self.mint));
        Ok(commands)
    }
}

} // verus!
