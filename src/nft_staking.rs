use vstd::prelude::*;
use crate::claim::Claim;
use crate::command::Command;
use crate::error::StakeError;
use crate::initialize_config::{InitializeConfig, InitializeConfigBumps};
use crate::initialize_user::{InitializeUser, InitializeUserBumps};
use crate::stake::{commands_view, Stake, StakeBumps};
use crate::state::{StakeConfig, UserAccount};
use crate::unstake::Unstake;

verus! {

/// Entry point: creates the policy.
pub fn initialize_config(
    ctx: &mut InitializeConfig,
    points_per_stake: u8,
    max_stake: u8,
    freeze_period: u32,
    bumps: InitializeConfigBumps,
) -> (r: Result<(), StakeError>)
    ensures
        old(ctx).config is Some <==> r is Err,
        r is Err ==> r == Err::<(), StakeError>(StakeError::AlreadyInitialized) && *final(ctx) == *old(ctx),
        r is Ok ==> final(ctx).config == Some(
            StakeConfig {
                points_per_stake,
                max_stake,
                freeze_period,
                rewards_bump: bumps.rewards_mint,
                bump: bumps.config,
            },
        ) && final(ctx).admin == old(ctx).admin,
{
    ctx.initialize_config(points_per_stake, max_stake, freeze_period, bumps)
}

/// Entry point: ensures that the caller has a ledger.
pub fn initialize_user(ctx: &mut InitializeUser, bumps: InitializeUserBumps) -> (r: UserAccount)
    ensures
        r == old(ctx).ensured(bumps),
        *final(ctx) == (InitializeUser { user_account: Some(r), ..*old(ctx) }),
{
    ctx.initialize_user(bumps)
}

/// Entry point: locks an asset.
pub fn stake(ctx: &mut Stake, bumps: StakeBumps) -> (r: Result<Vec<Command>, StakeError>)
    ensures
        *final(ctx) == old(ctx).outcome(bumps).0,
        commands_view(r) == old(ctx).outcome(bumps).1,
{
    ctx.stake(bumps)
}

/// Entry point: releases an asset.
pub fn unstake(ctx: &mut Unstake) -> (r: Result<Vec<Command>, StakeError>)
    ensures
        *final(ctx) == old(ctx).outcome().0,
        commands_view(r) == old(ctx).outcome().1,
{
    ctx.unstake()
}

/// Entry point: converts the caller's points into reward currency.
pub fn claim(ctx: &mut Claim) -> (r: Command)
    requires
        old(ctx).amount_fits(),
    ensures
        *final(ctx) == old(ctx).claimed(),
        r == old(ctx).mint_command(),
{
    ctx.claim()
}

} // verus!
