use vstd::prelude::*;
use crate::command::Command;
use crate::state::{Key, UserAccount};

verus! {

/// The number of decimals of the reward currency, fixed when it is created.
pub const REWARD_DECIMALS: u8 = 6;

/// The records that a claim reads and writes.
#[derive(Clone, Copy, Debug, PartialEq, Eq, Structural)]
pub struct Claim {
    /// The caller, whose reward account receives the mint.
    pub user: Key,
    /// The caller's ledger.
    pub user_account: UserAccount,
    /// The decimals of the reward currency.
    pub reward_decimals: u8,
}

/// Ten to the power `n`.
pub open spec fn pow10(n: nat) -> nat
    decreases n,
{
    if n == 0 {
        1
    } else {
        10 * pow10((n - 1) as nat)
    }
}

/// The base units of reward currency that `points` are worth.
pub open spec fn reward_amount(points: u32, decimals: u8) -> int {
    points * pow10(decimals as nat)
}

proof fn lemma_pow10_grows(i: nat, j: nat)
    requires
        i <= j,
    ensures
        pow10(i) <= pow10(j),
    decreases j - i,
{
    if i < j {
        lemma_pow10_grows(i, (j - 1) as nat);
    }
}

/// Scales `points` to base units of a currency with `decimals` decimals.
pub fn scale_points(points: u32, decimals: u8) -> (r: u64)
    requires
        reward_amount(points, decimals) <= u64::MAX,
    ensures
        r == reward_amount(points, decimals),
{
    let mut amount: u64 = points as u64;
    let mut i: u8 = 0;
    assert(pow10(0) == 1);
    while i < decimals
        invariant
            i <= decimals,
            amount == points * pow10(i as nat),
            reward_amount(points, decimals) <= u64::MAX,
        decreases decimals - i,
    {
        proof {
            lemma_pow10_grows((i + 1) as nat, decimals as nat);
            assert(points * pow10((i + 1) as nat) <= points * pow10(decimals as nat)) by (nonlinear_arith)
                requires
                    pow10((i + 1) as nat) <= pow10(decimals as nat),
            ;
            assert(points * pow10((i + 1) as nat) == 10 * (points * pow10(i as nat))) by (nonlinear_arith)
                requires
                    pow10((i + 1) as nat) == 10 * pow10(i as nat),
            ;
        }
        amount = amount * 10;
        i = i + 1;
    }
    amount
}

impl Claim {
    /// The claim can be worked out: the caller's balance, in base units, fits
    /// in 64 bits.
    pub open spec fn amount_fits(self) -> bool {
        reward_amount(self.user_account.points, self.reward_decimals) <= u64::MAX
    }

    /// The records after a claim.
    pub open spec fn claimed(self) -> Claim {
        Claim { user_account: UserAccount { points: 0, ..self.user_account }, ..self }
    }

    /// The mint command that a claim issues.
    pub open spec fn mint_command(self) -> Command {
        Command::MintTo {
            recipient: self.user,
            amount: reward_amount(self.user_account.points, self.reward_decimals) as u64,
        }
    }

    /// Converts the caller's whole balance into reward currency: returns the
    /// command that mints it, in base units, to the caller, and zeroes the
    /// balance.
    pub fn claim(&mut self) -> (r: Command)
        requires
            old(self).amount_fits(),
        ensures
            *final(self) == old(self).claimed(),
            r == old(self).mint_command(),
    {
        let amount = scale_points(self.user_account.points, self.reward_decimals);
        self.user_account.points = 0;
        Command::MintTo { recipient: self.user, amount }
    }
}

} // verus!
