use vstd::prelude::*;

verus! {

/// Why an operation on a vault or a proposal was refused.
#[derive(Clone, Copy, Debug, PartialEq, Eq, Structural)]
pub enum VaultError {
    TooManySigners,
    InvalidThreshold,
    UnauthorizedSigner,
    AlreadyVoted,
    ProposalNotActive,
    ThresholdNotMet,
    AlreadyExecuted,
    NotProposer,
    DescriptionTooLong,
    InsufficientBalance,
    DuplicateSigner,
    PriceConditionNotMet,
    StalePriceFeed,
}

} // verus!
