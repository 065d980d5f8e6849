use vstd::prelude::*;
use crate::primitives::action::{Action, ActionView};
use crate::primitives::ids::DaoId;
use crate::primitives::types::{AccountId, Balance, BlockNumber, ContentHash};

verus! {

pub type AssetId = u32;

pub type PropIndex = u32;

pub type ReferendumIndex = u32;

/// Voting Statistics.
#[derive(Clone, Copy, Debug, PartialEq, Eq, Structural)]
pub struct Tally<Balance> {
    /// The number of aye votes, expressed in terms of post-conviction
    /// lock-vote.
    pub ayes: Balance,
    /// The number of nay votes, expressed in terms of post-conviction
    /// lock-vote.
    pub nays: Balance,
}

/// vote yes or no
#[derive(Clone, Copy, Debug, PartialEq, Eq, Structural)]
pub enum Opinion {
    /// Agree.
    AYES,
    /// Reject.
    NAYS,
}

impl Default for Opinion {
    fn default() -> (r: Self)
        ensures
            r == Opinion::AYES,
    {
        Opinion::AYES
    }
}

/// Information about individual votes.
#[derive(Clone, Copy, Debug, PartialEq, Eq)]
pub struct VoteInfo<DaoId, ConcreteId, Pledge, BlockNumber, VoteWeight, Opinion, ReferendumIndex> {
    /// The id of the Dao where the vote is located.
    pub dao_id: DaoId,
    /// The specific group id mapped by Dao.
    pub concrete_id: ConcreteId,
    /// The specific thing that the vote pledged.
    pub pledge: Pledge,
    /// Object or agree.
    pub opinion: Opinion,
    /// voting weight.
    pub vote_weight: VoteWeight,
    /// Block height that can be unlocked.
    pub unlock_block: BlockNumber,
    /// The referendum id corresponding to the vote.
    pub referendum_index: ReferendumIndex,
}

/// The lock that a vote leaves on its voter.
pub type VoteLock<C, P> = VoteInfo<DaoId, C, P, BlockNumber, Balance, Opinion, ReferendumIndex>;

/// Info regarding an ongoing referendum.
#[derive(Clone, Debug, PartialEq, Eq)]
pub struct ReferendumStatus<BlockNumber, Call, Balance> {
    /// When voting on this referendum will end.
    pub end: BlockNumber,
    /// The proposal being voted on.
    pub proposal: Call,
    /// The delay (in blocks) to wait after a successful referendum before
    /// deploying.
    pub delay: BlockNumber,
    /// The current tally of votes in this referendum.
    pub tally: Tally<Balance>,
}

/// Info regarding a referendum, present or past.
#[derive(Clone, Debug, PartialEq, Eq)]
pub enum ReferendumInfo<BlockNumber, Call, Balance> {
    /// Referendum is happening, the arg is the block number at which it will
    /// end.
    Ongoing(ReferendumStatus<BlockNumber, Call, Balance>),
    /// Referendum finished at `end`, and has been `approved` or rejected.
    Finished { approved: bool, end: BlockNumber },
}

/// The mathematical content of a referendum.
pub enum ReferendumView {
    Ongoing { end: BlockNumber, proposal: ActionView, delay: BlockNumber, tally: Tally<Balance> },
    Finished { approved: bool, end: BlockNumber },
}

impl View for ReferendumInfo<BlockNumber, Action, Balance> {
    type V = ReferendumView;

    open spec fn view(&self) -> ReferendumView {
        match *self {
            ReferendumInfo::Ongoing(s) => ReferendumView::Ongoing {
                end: s.end,
                proposal: s.proposal@,
                delay: s.delay,
                tally: s.tally,
            },
            ReferendumInfo::Finished { approved, end } => ReferendumView::Finished {
                approved,
                end,
            },
        }
    }
}

/// The state of a referendum without its proposal.
#[derive(Clone, Copy, Debug, PartialEq, Eq)]
pub enum ReferendumState {
    /// Voting runs until `end`; the tally so far.
    Ongoing { end: BlockNumber, delay: BlockNumber, tally: Tally<Balance> },
    /// Finished at `end`, approved or rejected.
    Finished { approved: bool, end: BlockNumber },
}

impl ReferendumView {
    /// The state of the referendum without its proposal.
    pub open spec fn state(self) -> ReferendumState {
        match self {
            ReferendumView::Ongoing { end, delay, tally, .. } => ReferendumState::Ongoing {
                end,
                delay,
                tally,
            },
            ReferendumView::Finished { approved, end } => ReferendumState::Finished {
                approved,
                end,
            },
        }
    }
}

/// A proposal that waits in the queue for a referendum, with those who back
/// it and what each of them has deposited.
#[derive(Clone, Debug, PartialEq, Eq)]
pub struct PublicProposal {
    /// The index under which the proposal was queued.
    pub index: PropIndex,
    /// The content hash of the proposal.
    pub hash: ContentHash,
    /// The action that the referendum is about.
    pub call: Action,
    /// Who proposed it.
    pub proposer: AccountId,
    /// Who backs it, the proposer first.
    pub backers: Vec<AccountId>,
    /// What each backer has deposited.
    pub deposit: Balance,
}

/// The mathematical content of a `PublicProposal`.
pub struct PublicProposalView {
    pub index: PropIndex,
    pub hash: Seq<u8>,
    pub call: ActionView,
    pub proposer: AccountId,
    pub backers: Seq<AccountId>,
    pub deposit: Balance,
}

impl View for PublicProposal {
    type V = PublicProposalView;

    open spec fn view(&self) -> PublicProposalView {
        PublicProposalView {
            index: self.index,
            hash: self.hash@,
            call: self.call@,
            proposer: self.proposer,
            backers: self.backers@,
            deposit: self.deposit,
        }
    }
}

impl PublicProposalView {
    /// The backing of the proposal: the deposit times the number of backers,
    /// capped at the largest amount.
    pub open spec fn backing(self) -> Balance {
        if self.deposit * self.backers.len() > Balance::MAX {
            Balance::MAX
        } else {
            (self.deposit * self.backers.len()) as Balance
        }
    }
}

} // verus!
