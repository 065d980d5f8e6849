use vstd::prelude::*;

verus! {

/// What a voter stakes on a vote: the strategy that turns a stake into vote
/// weight and a lock.
pub trait Vote<VoteWeight, AccountId, SecondId, Convivtion, BlockNumber, DispatchError> {
    /// Locks the stake of `who` and gives the weight of the vote and how long
    /// the stake stays locked.
    fn try_vote(&self, who: &AccountId, second_id: &SecondId, conviction: &Convivtion) -> Result<
        (VoteWeight, BlockNumber),
        DispatchError,
    >;

    /// Releases the stake of `who`.
    fn vote_end_do(&self, who: &AccountId, second_id: &SecondId) -> Result<(), DispatchError>;
}

/// Whether a stake can be voted with.
pub trait CheckedVote<SecondId, DispatchError> {
    fn is_can_vote(&self, second_id: SecondId) -> Result<bool, DispatchError>;
}

/// A conversion into `A`.
pub trait ConvertInto<A> {
    fn convert_into(&self) -> A;
}

} // verus!
