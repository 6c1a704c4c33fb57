use vstd::prelude::*;
use crate::command::Command;
use crate::error::StakeError;
use crate::stake::commands_view;
use crate::state::{Key, StakeAccount, StakeConfig, UserAccount};

verus! {

/// The length of the policy's duration unit, a day, in seconds.
pub const SECONDS_PER_DAY: i64 = 86_400;

/// How points reach a participant's ledger.
#[derive(Clone, Copy, Debug, PartialEq, Eq, Structural)]
pub enum Accrual {
    /// An outside process credits points; release leaves them as they are.
    External,
    /// Release credits the policy's `points_per_stake`, saturating at the
    /// largest balance.
    OnRelease,
}

/// The records that a release reads and writes.
#[derive(Clone, Copy, Debug, PartialEq, Eq, Structural)]
pub struct Unstake {
    /// The caller.
    pub user: Key,
    /// The asset to release.
    pub mint: Key,
    pub config: StakeConfig,
    /// The caller's ledger.
    pub user_account: UserAccount,
    /// The custody record kept under the asset's key, if there is one.
    pub stake_account: Option<StakeAccount>,
    /// The current time, in seconds.
    pub now: i64,
    pub accrual: Accrual,
}

/// Whole days from `staked_at` to `now`, rounded down.
pub open spec fn elapsed_days(staked_at: i64, now: i64) -> int {
    (now - staked_at) / (SECONDS_PER_DAY as int)
}

/// At least `freeze_period` whole days have passed since `staked_at`.
pub open spec fn freeze_period_passed(freeze_period: u32, staked_at: i64, now: i64) -> bool {
    elapsed_days(staked_at, now) >= freeze_period
}

/// The commands that hand `mint` back to its owner: a thaw, then the end of
/// the delegation.
pub open spec fn release_commands(owner: Key, mint: Key) -> Seq<Command> {
    seq![Command::ThawDelegated { owner, mint }, Command::Revoke { owner, mint }]
}

/// Whole days elapsed reach `k` exactly when the seconds elapsed reach `k` days.
pub proof fn lemma_days_reached(x: int, k: int)
    ensures
        (x / (SECONDS_PER_DAY as int) >= k) <==> (x >= k * SECONDS_PER_DAY),
{
}

/// Decides whether at least `freeze_period` whole days separate `staked_at`
/// from `now`.
pub fn freeze_period_elapsed(freeze_period: u32, staked_at: i64, now: i64) -> (r: bool)
    ensures
        r == freeze_period_passed(freeze_period, staked_at, now),
{
    proof {
        lemma_days_reached(now - staked_at, freeze_period as int);
    }
    (now as i128) - (staked_at as i128) >= (freeze_period as i128) * (SECONDS_PER_DAY as i128)
}

impl Unstake {
    /// The first precondition of release that fails, if any.
    pub open spec fn refusal(self) -> Option<StakeError> {
        match self.stake_account {
            None => Some(StakeError::NotLocked),
            Some(s) => if s.mint != self.mint {
                Some(StakeError::NotLocked)
            } else if s.owner != self.user {
                Some(StakeError::NotOwner)
            } else if !freeze_period_passed(self.config.freeze_period, s.staked_at, self.now) {
                Some(StakeError::FreezePeriodNotPassed)
            } else {
                None
            },
        }
    }

    /// The caller's balance after a successful release.
    pub open spec fn points_after(self) -> u32 {
        match self.accrual {
            Accrual::External => self.user_account.points,
            Accrual::OnRelease => if self.user_account.points + self.config.points_per_stake
                > u32::MAX {
                u32::MAX
            } else {
                (self.user_account.points + self.config.points_per_stake) as u32
            },
        }
    }

    /// The records after a successful release.
    pub open spec fn released(self) -> Unstake {
        Unstake {
            user_account: UserAccount {
                points: self.points_after(),
                amount_staked: if self.user_account.amount_staked == 0 {
                    0
                } else {
                    (self.user_account.amount_staked - 1) as u8
                },
                ..self.user_account
            },
            stake_account: None,
            ..self
        }
    }

    /// The records and the result of a release.
    pub open spec fn outcome(self) -> (Unstake, Result<Seq<Command>, StakeError>) {
        match self.refusal() {
            Some(e) => (self, Err(e)),
            None => (self.released(), Ok(release_commands(self.user, self.mint))),
        }
    }

    /// Releases the asset: checks that it has a custody record, that the caller
    /// owns it, and that the policy's freeze period has passed in whole days;
    /// then destroys the record, takes the asset off the caller's count
    /// (never below zero), credits points where accrual happens on release,
    /// and returns the thaw and revoke commands. A refused release changes
    /// nothing and issues nothing.
    pub fn unstake(&mut self) -> (r: Result<Vec<Command>, StakeError>)
        ensures
            *final(self) == old(self).outcome().0,
            commands_view(r) == old(self).outcome().1,
    {
        let record = match self.stake_account {
            None => {
                return Err(StakeError::NotLocked);
            },
            Some(s) => s,
        };
        if record.mint != self.mint {
            return Err(StakeError::NotLocked);
        }
        if record.owner != self.user {
            return Err(StakeError::NotOwner);
        }
        if !freeze_period_elapsed(self.config.freeze_period, record.staked_at, self.now) {
            return Err(StakeError::FreezePeriodNotPassed);
        }
        let mut commands: Vec<Command> = Vec::new();
        commands.push(Command::ThawDelegated { owner: self.user, mint: self.mint });
        commands.push(Command::Revoke { owner: self.user, mint: self.mint });
        self.stake_account = None;
        self.user_account.amount_staked = self.user_account.amount_staked.saturating_sub(1);
        match self.accrual {
            Accrual::External => {},
            Accrual::OnRelease => {
                self.user_account.points = self.user_account.points.saturating_add(
                    self.config.points_per_stake as u32,
                );
            },
        }
        assert(commands@ =~= release_commands(self.user, self.mint));
        Ok(commands)
    }
}

} // verus!
