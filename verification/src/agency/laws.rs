//! What holds of the collective in every consistent state.
use vstd::prelude::*;
use crate::agency::collective::{lemma_with_members_wf, lemma_without_wf, CollectiveView};
use crate::agency::default_vote::DefaultVote;
use crate::agency::errors::Error;
use crate::agency::members::ascending;
use crate::agency::votes::{lemma_purged_wf, lemma_voted_wf, VotesView};
use crate::primitives::types::{AccountId, BlockNumber, MemberCount, ProposalIndex};

verus! {

/// At most one live motion has a given hash.
pub proof fn lemma_one_motion_per_hash(c: CollectiveView, i: int, j: int)
    requires
        c.wf(),
        0 <= i < c.motions.len(),
        0 <= j < c.motions.len(),
        c.motions[i].hash == c.motions[j].hash,
    ensures
        i == j,
{
}

/// A proposal whose hash is live is refused as a duplicate, whoever makes it
/// and whatever threshold it asks for.
pub proof fn lemma_propose_live_hash_is_duplicate(
    c: CollectiveView,
    who: AccountId,
    threshold: MemberCount,
    hash: Seq<u8>,
)
    requires
        c.has_motion(hash),
    ensures
        c.propose_check(who, threshold, hash) == Err::<bool, Error>(Error::DuplicateProposal),
{
}

/// On no live motion is an account among the ayes and among the nays.
pub proof fn lemma_never_on_both_sides(c: CollectiveView, hash: Seq<u8>, who: AccountId)
    requires
        c.wf(),
        c.has_motion(hash),
    ensures
        !(c.motion(hash).votes.ayes.contains(who) && c.motion(hash).votes.nays.contains(who)),
{
    let i = c.motion_index(hash);
    assert(c.motions[i].votes.wf());
}

/// The record after the ballots were cast in their order, each a voter and
/// what the voter said. A ballot that repeats its voter's stance is refused
/// and changes nothing.
pub open spec fn after_ballots(v: VotesView, ballots: Seq<(AccountId, bool)>) -> VotesView
    decreases ballots.len(),
{
    if ballots.len() == 0 {
        v
    } else {
        let before = after_ballots(v, ballots.drop_last());
        let (who, approve) = ballots.last();
        if before.stance(who) == Some(approve) {
            before
        } else {
            before.voted(who, approve)
        }
    }
}

/// After any sequence of votes no account is among the ayes and among the
/// nays, and an account whose last ballot was cast stands where that ballot
/// put it.
pub proof fn lemma_never_on_both_sides_after_any_votes(
    v: VotesView,
    ballots: Seq<(AccountId, bool)>,
    who: AccountId,
)
    requires
        v.wf(),
    ensures
        after_ballots(v, ballots).wf(),
        !(after_ballots(v, ballots).ayes.contains(who) && after_ballots(v, ballots).nays.contains(
            who,
        )),
        ballots.len() > 0 ==> after_ballots(v, ballots).stance(ballots.last().0) == Some(
            ballots.last().1,
        ),
    decreases ballots.len(),
{
    if ballots.len() > 0 {
        let b = ballots.last();
        lemma_never_on_both_sides_after_any_votes(v, ballots.drop_last(), who);
        let before = after_ballots(v, ballots.drop_last());
        if before.stance(b.0) != Some(b.1) {
            lemma_voted_wf(before, b.0, b.1);
        }
    }
}

/// Once a motion has been closed, closing it again finds no motion, at
/// whatever index and time: nothing can be approved a second time.
pub proof fn lemma_closed_is_gone<D: DefaultVote>(
    c: CollectiveView,
    hash: Seq<u8>,
    index: ProposalIndex,
    now: BlockNumber,
    index_again: ProposalIndex,
    now_again: BlockNumber,
)
    requires
        c.wf(),
        c.close_check::<D>(hash, index, now).is_ok(),
    ensures
        c.without(hash).close_check::<D>(hash, index_again, now_again) == Err::<
            crate::agency::votes::Verdict,
            Error,
        >(Error::ProposalMissing),
{
    lemma_without_wf(c, hash);
}

/// After the members were replaced, an account that is no longer a member
/// has a vote on no live motion, and a motion closes against the new number
/// of seats.
pub proof fn lemma_set_members_purges<D: DefaultVote>(
    c: CollectiveView,
    members: Seq<AccountId>,
    prime: Option<AccountId>,
    gone: AccountId,
    hash: Seq<u8>,
    index: ProposalIndex,
    now: BlockNumber,
)
    requires
        c.wf(),
        ascending(members),
        members.len() <= MemberCount::MAX,
        !members.contains(gone),
        c.has_motion(hash),
    ensures
        c.with_members(members, prime).has_motion(hash),
        !c.with_members(members, prime).motion(hash).votes.ayes.contains(gone),
        !c.with_members(members, prime).motion(hash).votes.nays.contains(gone),
        c.with_members(members, prime).motion(hash).votes.index == index ==> c.with_members(
            members,
            prime,
        ).close_check::<D>(hash, index, now) == match c.motion(hash).votes.purged(
            members,
        ).verdict::<D>(members.len() as MemberCount, prime, now) {
            Ok(v) => Ok::<crate::agency::votes::Verdict, Error>(v),
            Err(_) => Err::<crate::agency::votes::Verdict, Error>(Error::TooEarly),
        },
{
    lemma_with_members_wf(c, members, prime);
    let i = c.motion_index(hash);
    assert(c.motions[i].votes.wf());
    lemma_purged_wf(c.motion(hash).votes, members);
}

} // verus!
