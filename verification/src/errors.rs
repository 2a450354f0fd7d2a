//! Typed failures raised by the fundraiser's validation and business rules.
use vstd::prelude::*;

verus! {

/// Business-rule and authorization failures specific to the fundraiser.
#[derive(Clone, Copy, Debug, PartialEq, Eq, Structural)]
pub enum FundraiserError {
    NotSigner,
    InvalidAddress,
    TargetNotMet,
    TargetMet,
    ContributionTooBig,
    ContributionTooSmall,
    MaximumContributionsReached,
    FundraiserNotEnded,
    FundraiserEnded,
    InvalidAmount,
    InvalidMintToRaise,
    BelowMinRaiseAmount,
}

/// Any failure an instruction can end with: either a generic account or
/// payload problem, or a typed fundraiser error.
#[derive(Clone, Copy, Debug, PartialEq, Eq, Structural)]
pub enum ProgramFailure {
    NotEnoughAccountKeys,
    InvalidInstructionData,
    InvalidAccountData,
    InvalidAccountOwner,
    IncorrectProgramId,
    ArithmeticOverflow,
    Fundraiser(FundraiserError),
}

impl FundraiserError {
    /// The stable numeric code that identifies this error at the interface.
    pub open spec fn code_spec(self) -> u32 {
        match self {
            FundraiserError::NotSigner => 0,
            FundraiserError::InvalidAddress => 1,
            FundraiserError::TargetNotMet => 2,
            FundraiserError::TargetMet => 3,
            FundraiserError::ContributionTooBig => 4,
            FundraiserError::ContributionTooSmall => 5,
            FundraiserError::MaximumContributionsReached => 6,
            FundraiserError::FundraiserNotEnded => 7,
            FundraiserError::FundraiserEnded => 8,
            FundraiserError::InvalidAmount => 9,
            FundraiserError::InvalidMintToRaise => 10,
            FundraiserError::BelowMinRaiseAmount => 11,
        }
    }

    /// The stable numeric error code.
    pub fn code(&self) -> (r: u32)
        ensures
            r == self.code_spec(),
    {
        match self {
            FundraiserError::NotSigner => 0,
            FundraiserError::InvalidAddress => 1,
            FundraiserError::TargetNotMet => 2,
            FundraiserError::TargetMet => 3,
            FundraiserError::ContributionTooBig => 4,
            FundraiserError::ContributionTooSmall => 5,
            FundraiserError::MaximumContributionsReached => 6,
            FundraiserError::FundraiserNotEnded => 7,
            FundraiserError::FundraiserEnded => 8,
            FundraiserError::InvalidAmount => 9,
            FundraiserError::InvalidMintToRaise => 10,
            FundraiserError::BelowMinRaiseAmount => 11,
        }
    }

    /// The human-readable description of this error.
    pub open spec fn describe(self) -> Seq<char> {
        match self {
            FundraiserError::NotSigner => "Account is not a signer"@,
            FundraiserError::InvalidAddress => "Account address is invalid"@,
            FundraiserError::TargetNotMet => "The amount to raise has not been met"@,
            FundraiserError::TargetMet => "The amount to raise has been achieved"@,
            FundraiserError::ContributionTooBig => "The contribution is too big"@,
            FundraiserError::ContributionTooSmall => "The contribution is too small"@,
            FundraiserError::MaximumContributionsReached => "The maximum amount to contribute has been reached"@,
            FundraiserError::FundraiserNotEnded => "The fundraiser has not ended yet"@,
            FundraiserError::FundraiserEnded => "The fundraiser has ended"@,
            FundraiserError::InvalidAmount => "Invalid total amount. i should be bigger than 3"@,
            FundraiserError::InvalidMintToRaise => "Mint to raise does not match"@,
            FundraiserError::BelowMinRaiseAmount => "The amount to raise is below the minimum required"@,
        }
    }

    /// A static human-readable description.
    pub fn to_str(&self) -> (r: &'static str)
        ensures
            r@ == self.describe(),
    {
        match self {
            FundraiserError::NotSigner => "Account is not a signer",
            FundraiserError::InvalidAddress => "Account address is invalid",
            FundraiserError::TargetNotMet => "The amount to raise has not been met",
            FundraiserError::TargetMet => "The amount to raise has been achieved",
            FundraiserError::ContributionTooBig => "The contribution is too big",
            FundraiserError::ContributionTooSmall => "The contribution is too small",
            FundraiserError::MaximumContributionsReached => "The maximum amount to contribute has been reached",
            FundraiserError::FundraiserNotEnded => "The fundraiser has not ended yet",
            FundraiserError::FundraiserEnded => "The fundraiser has ended",
            FundraiserError::InvalidAmount => "Invalid total amount. i should be bigger than 3",
            FundraiserError::InvalidMintToRaise => "Mint to raise does not match",
            FundraiserError::BelowMinRaiseAmount => "The amount to raise is below the minimum required",
        }
    }
}

} // verus!
