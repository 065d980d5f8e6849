use vstd::prelude::*;

verus! {

/// What a voter stakes on a referendum: the strategy that turns a stake into
/// vote weight and a lock.
pub trait Pledge<VoteWeight, AccountId, DaoId, Convivtion, BlockNumber, DispatchError> {
    /// Locks the stake of `who` and gives the weight of the vote and how long
    /// the stake stays locked.
    fn try_vote(&self, who: &AccountId, dao_id: &DaoId, conviction: &Convivtion) -> Result<
        (VoteWeight, BlockNumber),
        DispatchError,
    >;

    /// Releases the stake of `who`.
    fn vote_end_do(&self, who: &AccountId, dao_id: &DaoId) -> Result<(), DispatchError>;
}

/// A conversion into `A`.
pub trait ConvertInto<A> {
    fn convert_into(&self) -> A;
}

} // verus!
