//! Properties that hold across transitions, stated over their outcomes.
use vstd::prelude::*;
use crate::claim::{pow10, Claim};
use crate::command::Command;
use crate::error::StakeError;
use crate::initialize_user::{InitializeUser, InitializeUserBumps};
use crate::stake::{is_verified_member, lock_commands, Stake, StakeBumps};
use crate::unstake::{
    freeze_period_passed, lemma_days_reached, release_commands, Accrual, Unstake, SECONDS_PER_DAY,
};

verus! {

/// A lock-in keeps the caller's count of locked assets within the policy's
/// ceiling.
pub proof fn lemma_lock_in_keeps_limit(s: Stake, bumps: StakeBumps)
    requires
        s.user_account.within_limit(s.config),
    ensures
        s.outcome(bumps).0.user_account.within_limit(s.outcome(bumps).0.config),
{
}

/// A release keeps the caller's count of locked assets within the policy's
/// ceiling, and never takes it below zero.
pub proof fn lemma_release_keeps_limit(u: Unstake)
    requires
        u.user_account.within_limit(u.config),
    ensures
        u.outcome().0.user_account.within_limit(u.outcome().0.config),
        u.outcome().0.user_account.amount_staked <= u.user_account.amount_staked,
{
}

/// A claim leaves the caller's count of locked assets as it is.
pub proof fn lemma_claim_keeps_count(c: Claim)
    ensures
        c.claimed().user_account.amount_staked == c.user_account.amount_staked,
{
}

/// A new ledger holds no points and no locked assets.
pub proof fn lemma_new_ledger_is_zero(i: InitializeUser, bumps: InitializeUserBumps)
    requires
        i.user_account is None,
    ensures
        i.ensured(bumps).points == 0,
        i.ensured(bumps).amount_staked == 0,
{
}

/// A custody record appears exactly when a lock-in issues the commands that
/// take the asset into custody; it then names the caller as owner. A record
/// that exists already is left as it is, whatever the outcome.
pub proof fn lemma_lock_in_custody(s: Stake, bumps: StakeBumps)
    ensures
        s.outcome(bumps).1 is Ok <==> (s.stake_account is None && s.outcome(
            bumps,
        ).0.stake_account is Some),
        s.outcome(bumps).1 is Ok ==> s.outcome(bumps).1 == Ok::<Seq<Command>, StakeError>(
            lock_commands(s.user, s.mint),
        ) && s.outcome(bumps).0.stake_account.unwrap().owner == s.user
            && s.outcome(bumps).0.stake_account.unwrap().mint == s.mint,
        s.stake_account is Some ==> s.outcome(bumps).0.stake_account == s.stake_account,
{
}

/// A custody record disappears exactly when a release issues the commands
/// that hand the asset back; otherwise it is left as it is. A record is never
/// changed in place, so its owner stays the same while it exists.
pub proof fn lemma_release_custody(u: Unstake)
    ensures
        u.outcome().1 is Ok <==> (u.stake_account is Some && u.outcome().0.stake_account is None),
        u.outcome().1 is Ok ==> u.outcome().1 == Ok::<Seq<Command>, StakeError>(
            release_commands(u.user, u.mint),
        ),
        u.outcome().1 is Err ==> u.outcome().0 == u,
{
}

/// A lock-in followed, once the freeze period has passed, by a release by the
/// same owner leaves no custody record, takes back the one count that the
/// lock-in added, and a second release then finds no record.
pub proof fn lemma_lock_release_round_trip(s: Stake, bumps: StakeBumps, now: i64, accrual: Accrual)
    requires
        s.refusal() is None,
        freeze_period_passed(s.config.freeze_period, s.now, now),
    ensures
        ({
            let locked = s.outcome(bumps).0;
            let u = Unstake {
                user: s.user,
                mint: s.mint,
                config: s.config,
                user_account: locked.user_account,
                stake_account: locked.stake_account,
                now,
                accrual,
            };
            &&& u.outcome().1 == Ok::<Seq<Command>, StakeError>(release_commands(s.user, s.mint))
            &&& u.outcome().0.stake_account is None
            &&& u.outcome().0.user_account.amount_staked == locked.user_account.amount_staked - 1
            &&& u.outcome().0.user_account.amount_staked == s.user_account.amount_staked
            &&& u.outcome().0.outcome().1 == Err::<Seq<Command>, StakeError>(StakeError::NotLocked)
        }),
{
}

/// A lock-in of an asset that has a custody record fails with
/// `AlreadyLocked` and changes nothing, whoever the caller is, once the asset
/// is recognized and the caller is below the ceiling.
pub proof fn lemma_lock_in_locked_asset(s: Stake, bumps: StakeBumps)
    requires
        s.stake_account is Some,
        is_verified_member(s.collection, s.collection_mint),
        s.user_account.amount_staked < s.config.max_stake,
    ensures
        s.outcome(bumps) == (s, Err::<Seq<Command>, StakeError>(StakeError::AlreadyLocked)),
{
}

/// The owner's release of a locked asset fails with `FreezePeriodNotPassed`
/// while fewer than `freeze_period` days of seconds have passed, and succeeds
/// once exactly that many have.
pub proof fn lemma_release_boundary(u: Unstake)
    requires
        u.stake_account is Some,
        u.stake_account.unwrap().mint == u.mint,
        u.stake_account.unwrap().owner == u.user,
    ensures
        u.now - u.stake_account.unwrap().staked_at < u.config.freeze_period * SECONDS_PER_DAY
            ==> u.outcome().1 == Err::<Seq<Command>, StakeError>(
            StakeError::FreezePeriodNotPassed,
        ),
        u.now - u.stake_account.unwrap().staked_at == u.config.freeze_period * SECONDS_PER_DAY
            ==> u.outcome().1 is Ok,
{
    lemma_days_reached(u.now - u.stake_account.unwrap().staked_at, u.config.freeze_period as int);
}

/// A claim mints exactly the balance it finds, in base units, and zeroes it;
/// a second claim right after mints nothing.
pub proof fn lemma_claim_twice(c: Claim)
    requires
        c.amount_fits(),
    ensures
        c.mint_command() == (Command::MintTo {
            recipient: c.user,
            amount: (c.user_account.points * pow10(c.reward_decimals as nat)) as u64,
        }),
        c.claimed().user_account.points == 0,
        c.claimed().amount_fits(),
        c.claimed().mint_command() == (Command::MintTo { recipient: c.user, amount: 0 }),
{
}

} // verus!
