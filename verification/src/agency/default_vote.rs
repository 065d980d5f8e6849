use vstd::prelude::*;
use crate::primitives::types::MemberCount;

verus! {

/// Default voting strategy when a member is inactive.
pub trait DefaultVote {
    /// The vote that the strategy gives to every member who did not vote.
    spec fn spec_default_vote(
        prime_vote: Option<bool>,
        yes_votes: MemberCount,
        no_votes: MemberCount,
        len: MemberCount,
    ) -> bool;

    /// Get the default voting strategy, given:
    ///
    /// - Whether the prime member voted Aye.
    /// - Raw number of yes votes.
    /// - Raw number of no votes.
    /// - Total number of member count.
    fn default_vote(
        prime_vote: Option<bool>,
        yes_votes: MemberCount,
        no_votes: MemberCount,
        len: MemberCount,
    ) -> (r: bool)
        ensures
            r == Self::spec_default_vote(prime_vote, yes_votes, no_votes, len),
    ;
}

/// Set the prime member's vote as the default vote.
pub struct PrimeDefaultVote;

impl DefaultVote for PrimeDefaultVote {
    open spec fn spec_default_vote(
        prime_vote: Option<bool>,
        yes_votes: MemberCount,
        no_votes: MemberCount,
        len: MemberCount,
    ) -> bool {
        prime_vote == Some(true)
    }

    fn default_vote(
        prime_vote: Option<bool>,
        _yes_votes: MemberCount,
        _no_votes: MemberCount,
        _len: MemberCount,
    ) -> (r: bool) {
        match prime_vote {
            Some(v) => v,
            None => false,
        }
    }
}

/// First see if yes vote are over majority of the whole collective. If so, set
/// the default vote as yes. Otherwise, use the prime member's vote as the
/// default vote.
pub struct MoreThanMajorityThenPrimeDefaultVote;

impl DefaultVote for MoreThanMajorityThenPrimeDefaultVote {
    open spec fn spec_default_vote(
        prime_vote: Option<bool>,
        yes_votes: MemberCount,
        no_votes: MemberCount,
        len: MemberCount,
    ) -> bool {
        yes_votes * 2 > len || prime_vote == Some(true)
    }

    fn default_vote(
        prime_vote: Option<bool>,
        yes_votes: MemberCount,
        _no_votes: MemberCount,
        len: MemberCount,
    ) -> (r: bool) {
        let doubled: u64 = (yes_votes as u64) * 2;
        let more_than_majority = doubled > len as u64;
        more_than_majority || match prime_vote {
            Some(v) => v,
            None => false,
        }
    }
}

} // verus!
