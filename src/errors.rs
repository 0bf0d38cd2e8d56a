use vstd::prelude::*;

verus! {

/// The launchpad's own failure kinds.
#[derive(Clone, Copy, Debug, PartialEq, Eq, Structural)]
pub enum LaunchpadError {
    /// The token mint already has tokens in circulation.
    SupplyNonZero,
    /// The token mint keeps a freeze authority.
    FreezeAuthoritySet,
    /// Reserved: the token mint does not have the expected decimals.
    InvalidDecimals,
    /// The account offered as launch signer is not the derived launch signer.
    InvalidMintAuthority,
}

/// Every way an initialization attempt can fail: the launchpad's own kinds,
/// and the ledger's account rules that the attempt runs into.
#[derive(Clone, Copy, Debug, PartialEq, Eq, Structural)]
pub enum LaunchError {
    Launchpad(LaunchpadError),
    /// The launch record or the token vault exists already.
    AccountAlreadyInitialized,
    /// The launch record account is not the one derived from the token mint.
    ConstraintSeeds,
    /// No bump seed yields a valid derived address for the seeds.
    NoViableBump,
}

impl LaunchpadError {
    /// The message that accompanies the error.
    pub fn message(&self) -> &'static str {
        match self {
            LaunchpadError::SupplyNonZero => "Token mint supply must be zero",
            LaunchpadError::FreezeAuthoritySet => "Token mint freeze authority must not be set",
            LaunchpadError::InvalidDecimals => "Token mint must have 6 decimals",
            LaunchpadError::InvalidMintAuthority => "Token mint authority must be the launch signer",
        }
    }
}

} // verus!
