use vstd::prelude::*;

verus! {

/// The ways in which a transition can be refused.
#[derive(Clone, Copy, Debug, PartialEq, Eq, Structural)]
pub enum StakeError {
    /// The asset has been locked for fewer whole days than the policy asks.
    FreezePeriodNotPassed,
    /// The participant already has as many assets locked as the policy allows.
    MaxStakeReached,
    /// The policy record exists already.
    AlreadyInitialized,
    /// The asset is not a verified member of the expected collection.
    UnrecognizedAsset,
    /// The asset has a live custody record.
    AlreadyLocked,
    /// The asset has no custody record.
    NotLocked,
    /// The custody record belongs to another participant.
    NotOwner,
}

} // verus!
