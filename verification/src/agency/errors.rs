use vstd::prelude::*;

verus! {

/// Why the agency refused a call.
#[derive(Clone, Copy, Debug, PartialEq, Eq, Structural)]
pub enum Error {
    /// Account is not a member
    NotMember,
    /// Duplicate proposals not allowed
    DuplicateProposal,
    /// Proposal must exist
    ProposalMissing,
    /// Mismatched index
    WrongIndex,
    /// Duplicate vote ignored
    DuplicateVote,
    /// Members are already initialized!
    AlreadyInitialized,
    /// The close call was made too early, before the end of the voting.
    TooEarly,
    /// There can only be a maximum of `MaxProposals` active proposals.
    TooManyProposals,
    /// The given weight bound for the proposal was too low.
    WrongProposalWeight,
    /// The given length bound for the proposal was too low.
    WrongProposalLength,
    /// The number of people exceeds the maximum limit
    MembersTooLarge,
    /// The proportion is more than 100%
    ProportionErr,
    /// Threshold exceeds the number of people
    ThresholdWrong,
    /// The threshold is below what a vote needs
    ThresholdTooLow,
}

} // verus!
