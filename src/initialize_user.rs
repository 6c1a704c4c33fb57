use vstd::prelude::*;
use crate::state::{Key, UserAccount};

verus! {

/// Bump seeds of the records that ledger creation creates.
#[derive(Clone, Copy, Debug, PartialEq, Eq, Structural)]
pub struct InitializeUserBumps {
    pub user_account: u8,
}

/// The records that ledger creation reads and writes.
#[derive(Clone, Copy, Debug, PartialEq, Eq, Structural)]
pub struct InitializeUser {
    /// The participant.
    pub user: Key,
    /// The participant's ledger, if it exists already.
    pub user_account: Option<UserAccount>,
}

impl InitializeUser {
    /// The ledger after it has been ensured to exist.
    pub open spec fn ensured(self, bumps: InitializeUserBumps) -> UserAccount {
        match self.user_account {
            Some(a) => a,
            None => UserAccount { points: 0, amount_staked: 0, bump: bumps.user_account },
        }
    }

    /// Ensures that the participant has a ledger: creates a zeroed one where
    /// there is none, and leaves an existing one as it is.
    pub fn initialize_user(&mut self, bumps: InitializeUserBumps) -> (r: UserAccount)
        ensures
            r == old(self).ensured(bumps),
            *final(self) == (InitializeUser { user_account: Some(r), ..*old(self) }),
    {
        let account = match self.user_account {
            Some(a) => a,
            None => UserAccount { points: 0, amount_staked: 0, bump: bumps.user_account },
        };
        self.user_account = Some(account);
        account
    }
}

} // verus!
