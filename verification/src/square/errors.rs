use vstd::prelude::*;

verus! {

/// Why the square refused a call.
#[derive(Clone, Copy, Debug, PartialEq, Eq, Structural)]
pub enum Error {
    /// Integer computation overflow.
    Overflow,
    /// Insufficient amount of deposit.
    DepositTooLow,
    /// Maximum number of proposals reached.
    TooManyProposals,
    /// Proposal does not exist.
    ProposalMissing,
    /// There are no proposals in progress.
    NoneWaiting,
    /// Referendum does not exist.
    ReferendumNotExists,
    /// Referendum ends.
    ReferendumFinished,
    /// Referendum voting is underway.
    VoteNotEnd,
    /// Delayed execution time.
    InDelayTime,
    /// Referendum voting has ended.
    VoteEnd,
    /// Voting closed but proposal rejected.
    VoteEndButNotPass,
    /// It's not time to open a new referendum.
    NotTableTime,
    /// The combined weight of the votes is below what the call needs.
    VoteWeightTooLow,
    /// The stake does not cover the vote.
    PledgeNotEnough,
}

} // verus!
