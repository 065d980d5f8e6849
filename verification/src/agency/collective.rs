use vstd::prelude::*;
use crate::agency::default_vote::DefaultVote;
use crate::agency::errors::Error;
use crate::agency::members::{ascending, contains, lemma_ascending_unique, sort_accounts};
use crate::agency::votes::{Verdict, Votes, VotesView};
use crate::primitives::action::{Action, ActionView};
use crate::primitives::hashing::hash_eq;
use crate::primitives::types::{
    AccountId,
    BlockNumber,
    ContentHash,
    MemberCount,
    ProposalIndex,
};

verus! {

/// A motion that the collective is voting on.
#[derive(Clone, Debug, PartialEq, Eq)]
pub struct Motion {
    /// The content hash of the proposal: the key of the motion.
    pub hash: ContentHash,
    /// The action that runs if the motion is approved.
    pub proposal: Action,
    /// The votes so far.
    pub votes: Votes<AccountId, BlockNumber>,
}

/// The mathematical content of a `Motion`.
pub struct MotionView {
    pub hash: Seq<u8>,
    pub proposal: ActionView,
    pub votes: VotesView,
}

impl View for Motion {
    type V = MotionView;

    open spec fn view(&self) -> MotionView {
        MotionView { hash: self.hash@, proposal: self.proposal@, votes: self.votes@ }
    }
}

/// The collective of one DAO: its members, its settings and its live motions.
#[derive(Clone, Debug, PartialEq, Eq)]
pub struct Collective {
    pub(crate) members: Vec<AccountId>,
    pub(crate) prime: Option<AccountId>,
    pub(crate) motion_duration: u32,
    pub(crate) max_proposals: ProposalIndex,
    pub(crate) max_members: MemberCount,
    pub(crate) proposal_count: u32,
    pub(crate) motions: Vec<Motion>,
}

/// The mathematical content of a `Collective`.
pub struct CollectiveView {
    /// The members, in ascending order.
    pub members: Seq<AccountId>,
    /// The member whose vote may stand for those who did not vote.
    pub prime: Option<AccountId>,
    /// How long a motion stays open.
    pub motion_duration: u32,
    /// How many motions may be live at once.
    pub max_proposals: ProposalIndex,
    /// How many members the DAO allows itself.
    pub max_members: MemberCount,
    /// How many motions have been queued so far: the next index.
    pub proposal_count: u32,
    /// The live motions, oldest first.
    pub motions: Seq<MotionView>,
}

impl View for Collective {
    type V = CollectiveView;

    closed spec fn view(&self) -> CollectiveView {
        CollectiveView {
            members: self.members@,
            prime: self.prime,
            motion_duration: self.motion_duration,
            max_proposals: self.max_proposals,
            max_members: self.max_members,
            proposal_count: self.proposal_count,
            motions: self.motions@.map_values(|m: Motion| m@),
        }
    }
}

/// The time at which a motion made at `now` ends, capped at the last time
/// that the clock can show.
pub open spec fn motion_end(now: BlockNumber, duration: u32) -> BlockNumber {
    if now + duration > BlockNumber::MAX {
        BlockNumber::MAX
    } else {
        (now + duration) as BlockNumber
    }
}

/// What a proposal led to.
#[derive(Debug, PartialEq, Eq)]
pub enum Proposed {
    /// The threshold was below two: the proposal is to run at once, backed by
    /// its proposer alone out of `seats` members. Nothing was stored.
    Direct { seats: MemberCount, proposal: Action },
    /// The proposal was queued as a motion under `index`, with its proposer's
    /// aye.
    Queued { index: ProposalIndex },
}

/// How a motion was closed.
#[derive(Debug, PartialEq, Eq)]
pub enum Closed {
    /// Approved: `proposal` is to run, backed by `yes` out of `seats`.
    Approved { yes: MemberCount, no: MemberCount, seats: MemberCount, proposal: Action },
    /// Disapproved: nothing is to run.
    Disapproved { yes: MemberCount, no: MemberCount },
}

impl CollectiveView {
    /// The settings of a DAO that has set none, with no member and no motion.
    pub open spec fn empty() -> CollectiveView {
        CollectiveView {
            members: Seq::empty(),
            prime: None,
            motion_duration: 500,
            max_proposals: 20,
            max_members: 10,
            proposal_count: 0,
            motions: Seq::empty(),
        }
    }

    /// The state is consistent: the members are in ascending order, no two
    /// live motions have the same hash, and on every motion each voter is a
    /// member and is counted once.
    pub open spec fn wf(self) -> bool {
        &&& ascending(self.members)
        &&& self.members.len() <= MemberCount::MAX
        &&& forall|i: int|
            0 <= i < self.motions.len() ==> {
                &&& (#[trigger] self.motions[i]).votes.wf()
                &&& self.motions[i].votes.within(self.members)
            }
        &&& forall|i: int, j: int|
            0 <= i < self.motions.len() && 0 <= j < self.motions.len() && i != j
                ==> self.motions[i].hash != self.motions[j].hash
    }

    /// Whether a motion with this hash is live.
    pub open spec fn has_motion(self, hash: Seq<u8>) -> bool {
        exists|i: int| 0 <= i < self.motions.len() && self.motions[i].hash == hash
    }

    /// The place of the live motion with this hash.
    pub open spec fn motion_index(self, hash: Seq<u8>) -> int {
        choose|i: int| 0 <= i < self.motions.len() && self.motions[i].hash == hash
    }

    /// The live motion with this hash.
    pub open spec fn motion(self, hash: Seq<u8>) -> MotionView {
        self.motions[self.motion_index(hash)]
    }

    /// Whether `who` is a member.
    pub open spec fn is_member(self, who: AccountId) -> bool {
        self.members.contains(who)
    }

    /// The state without the motion with this hash.
    pub open spec fn without(self, hash: Seq<u8>) -> CollectiveView {
        if self.has_motion(hash) {
            CollectiveView { motions: self.motions.remove(self.motion_index(hash)), ..self }
        } else {
            self
        }
    }

    /// Why a proposal is refused, or what it leads to: `Ok(true)` where it is
    /// to run at once, `Ok(false)` where it is queued.
    ///
    /// A proposal whose hash is live is always a duplicate, whoever makes it.
    pub open spec fn propose_check(
        self,
        who: AccountId,
        threshold: MemberCount,
        hash: Seq<u8>,
    ) -> Result<bool, Error> {
        if self.has_motion(hash) {
            Err(Error::DuplicateProposal)
        } else if !self.is_member(who) {
            Err(Error::NotMember)
        } else if threshold > self.members.len() {
            Err(Error::ThresholdWrong)
        } else if threshold < 2 {
            Ok(true)
        } else if self.motions.len() >= self.max_proposals || self.proposal_count
            == ProposalIndex::MAX {
            Err(Error::TooManyProposals)
        } else {
            Ok(false)
        }
    }

    /// The state after a proposal was queued.
    pub open spec fn queued(
        self,
        who: AccountId,
        threshold: MemberCount,
        hash: Seq<u8>,
        proposal: ActionView,
        now: BlockNumber,
    ) -> CollectiveView {
        CollectiveView {
            proposal_count: (self.proposal_count + 1) as u32,
            motions: self.motions.push(
                MotionView {
                    hash,
                    proposal,
                    votes: VotesView {
                        index: self.proposal_count,
                        threshold,
                        ayes: seq![who],
                        nays: Seq::empty(),
                        end: motion_end(now, self.motion_duration),
                    },
                },
            ),
            ..self
        }
    }

    /// Why a vote is refused.
    pub open spec fn vote_check(
        self,
        who: AccountId,
        hash: Seq<u8>,
        index: ProposalIndex,
        approve: bool,
    ) -> Result<(), Error> {
        if !self.is_member(who) {
            Err(Error::NotMember)
        } else if !self.has_motion(hash) {
            Err(Error::ProposalMissing)
        } else if self.motion(hash).votes.index != index {
            Err(Error::WrongIndex)
        } else if self.motion(hash).votes.stance(who) == Some(approve) {
            Err(Error::DuplicateVote)
        } else {
            Ok(())
        }
    }

    /// The state after `who` has voted `approve` on the motion with this hash.
    pub open spec fn voted(self, who: AccountId, hash: Seq<u8>, approve: bool) -> CollectiveView {
        let i = self.motion_index(hash);
        let m = self.motions[i];
        CollectiveView {
            motions: self.motions.update(
                i,
                MotionView { votes: m.votes.voted(who, approve), ..m },
            ),
            ..self
        }
    }

    /// How closing the motion with this hash at `now` ends, or why it is
    /// refused.
    pub open spec fn close_check<D: DefaultVote>(
        self,
        hash: Seq<u8>,
        index: ProposalIndex,
        now: BlockNumber,
    ) -> Result<Verdict, Error> {
        if !self.has_motion(hash) {
            Err(Error::ProposalMissing)
        } else if self.motion(hash).votes.index != index {
            Err(Error::WrongIndex)
        } else {
            match self.motion(hash).votes.verdict::<D>(
                self.members.len() as MemberCount,
                self.prime,
                now,
            ) {
                Ok(v) => Ok(v),
                Err(_) => Err(Error::TooEarly),
            }
        }
    }

    /// The state after the members were replaced: every vote of an account
    /// that is no longer a member is dropped from every motion.
    pub open spec fn with_members(
        self,
        members: Seq<AccountId>,
        prime: Option<AccountId>,
    ) -> CollectiveView {
        CollectiveView {
            members,
            prime,
            motions: self.motions.map_values(
                |m: MotionView| MotionView { votes: m.votes.purged(members), ..m },
            ),
            ..self
        }
    }
}

/// In a consistent state the motion at a place is the motion of its hash.
pub proof fn lemma_motion_at(c: CollectiveView, i: int)
    requires
        c.wf(),
        0 <= i < c.motions.len(),
    ensures
        c.has_motion(c.motions[i].hash),
        c.motion_index(c.motions[i].hash) == i,
        c.motion(c.motions[i].hash) == c.motions[i],
{
    let h = c.motions[i].hash;
    let k = c.motion_index(h);
    assert(0 <= k < c.motions.len() && c.motions[k].hash == h);
}

/// Taking a motion out of a consistent state leaves a consistent state in
/// which no motion has its hash.
pub proof fn lemma_without_wf(c: CollectiveView, hash: Seq<u8>)
    requires
        c.wf(),
    ensures
        c.without(hash).wf(),
        !c.without(hash).has_motion(hash),
        forall|h: Seq<u8>|
            h != hash ==> (c.without(hash).has_motion(h) <==> c.has_motion(h)),
        forall|h: Seq<u8>|
            h != hash && c.has_motion(h) ==> c.without(hash).motion(h) == c.motion(h),
{
    let w = c.without(hash);
    if c.has_motion(hash) {
        let k = c.motion_index(hash);
        assert forall|i: int| 0 <= i < w.motions.len() implies w.motions[i] == c.motions[if i
            < k {
            i
        } else {
            i + 1
        }] by {}
        assert forall|i: int| 0 <= i < w.motions.len() implies {
            &&& (#[trigger] w.motions[i]).votes.wf()
            &&& w.motions[i].votes.within(w.members)
        } by {
            let i0 = if i < k { i } else { i + 1 };
            assert(w.motions[i] == c.motions[i0]);
        }
        assert forall|i: int, j: int|
            0 <= i < w.motions.len() && 0 <= j < w.motions.len() && i != j implies w.motions[i].hash
            != w.motions[j].hash by {
            let i0 = if i < k { i } else { i + 1 };
            let j0 = if j < k { j } else { j + 1 };
            assert(w.motions[i] == c.motions[i0] && w.motions[j] == c.motions[j0]);
        }
        if w.has_motion(hash) {
            let i = choose|i: int| 0 <= i < w.motions.len() && w.motions[i].hash == hash;
            let i0 = if i < k { i } else { i + 1 };
            assert(w.motions[i] == c.motions[i0]);
            assert(c.motions[i0].hash == c.motions[k].hash);
        }
        assert forall|h: Seq<u8>| h != hash implies (w.has_motion(h) <==> c.has_motion(h)) && (
        c.has_motion(h) ==> w.motion(h) == c.motion(h)) by {
            if w.has_motion(h) {
                let i = choose|i: int| 0 <= i < w.motions.len() && w.motions[i].hash == h;
                let i0 = if i < k { i } else { i + 1 };
                assert(w.motions[i] == c.motions[i0]);
            }
            if c.has_motion(h) {
                let i0 = c.motion_index(h);
                let i = if i0 < k { i0 } else { i0 - 1 };
                assert(w.motions[i] == c.motions[i0]);
                lemma_motion_at(w, i);
            }
        }
    }
}

/// Queuing a proposal whose hash is not live, made by a member, leaves a
/// consistent state in which the hash is live once, with the proposer's aye.
pub proof fn lemma_queued_wf(
    c: CollectiveView,
    who: AccountId,
    threshold: MemberCount,
    hash: Seq<u8>,
    proposal: ActionView,
    now: BlockNumber,
)
    requires
        c.wf(),
        !c.has_motion(hash),
        c.is_member(who),
    ensures
        c.queued(who, threshold, hash, proposal, now).wf(),
        c.queued(who, threshold, hash, proposal, now).has_motion(hash),
        c.queued(who, threshold, hash, proposal, now).motion(hash).votes.ayes == seq![who],
        forall|h: Seq<u8>|
            c.has_motion(h) ==> c.queued(who, threshold, hash, proposal, now).has_motion(h)
                && c.queued(who, threshold, hash, proposal, now).motion(h) == c.motion(h),
{
    let q = c.queued(who, threshold, hash, proposal, now);
    let n = c.motions.len() as int;
    assert(q.motions[n].hash == hash);
    let ayes = seq![who];
    assert(ayes.no_duplicates());
    assert forall|a: AccountId| ayes.contains(a) implies a == who by {
        let i = choose|i: int| 0 <= i < ayes.len() && ayes[i] == a;
    }
    assert forall|a: AccountId| !Seq::<AccountId>::empty().contains(a) by {}
    assert forall|i: int| 0 <= i < q.motions.len() implies {
        &&& (#[trigger] q.motions[i]).votes.wf()
        &&& q.motions[i].votes.within(q.members)
    } by {
        if i < n {
            assert(q.motions[i] == c.motions[i]);
        }
    }
    assert forall|i: int, j: int|
        0 <= i < q.motions.len() && 0 <= j < q.motions.len() && i != j implies q.motions[i].hash
        != q.motions[j].hash by {
        if i < n {
            assert(q.motions[i] == c.motions[i]);
        }
        if j < n {
            assert(q.motions[j] == c.motions[j]);
        }
    }
    lemma_motion_at(q, n);
    assert forall|h: Seq<u8>| c.has_motion(h) implies q.has_motion(h) && q.motion(h) == c.motion(
        h,
    ) by {
        let i = c.motion_index(h);
        assert(q.motions[i] == c.motions[i]);
        lemma_motion_at(q, i);
    }
}

/// A vote that passes the check leaves a consistent state: the voter stands
/// on the side voted for, on that motion alone, and no other stance changes.
pub proof fn lemma_voted_state_wf(c: CollectiveView, who: AccountId, hash: Seq<u8>, approve: bool)
    requires
        c.wf(),
        c.is_member(who),
        c.has_motion(hash),
        c.motion(hash).votes.stance(who) != Some(approve),
    ensures
        c.voted(who, hash, approve).wf(),
        c.voted(who, hash, approve).has_motion(hash),
        c.voted(who, hash, approve).motion(hash).votes == c.motion(hash).votes.voted(
            who,
            approve,
        ),
        forall|h: Seq<u8>|
            h != hash && c.has_motion(h) ==> c.voted(who, hash, approve).has_motion(h) && c.voted(
                who,
                hash,
                approve,
            ).motion(h) == c.motion(h),
{
    let v = c.voted(who, hash, approve);
    let k = c.motion_index(hash);
    crate::agency::votes::lemma_voted_wf(c.motions[k].votes, who, approve);
    assert(c.motions[k].votes.within(c.members));
    assert forall|i: int| 0 <= i < v.motions.len() implies {
        &&& (#[trigger] v.motions[i]).votes.wf()
        &&& v.motions[i].votes.within(v.members)
    } by {
        if i != k {
            assert(v.motions[i] == c.motions[i]);
        }
    }
    assert forall|i: int, j: int|
        0 <= i < v.motions.len() && 0 <= j < v.motions.len() && i != j implies v.motions[i].hash
        != v.motions[j].hash by {
        assert(v.motions[i].hash == c.motions[i].hash);
        assert(v.motions[j].hash == c.motions[j].hash);
    }
    lemma_motion_at(v, k);
    assert forall|h: Seq<u8>| h != hash && c.has_motion(h) implies v.has_motion(h) && v.motion(h)
        == c.motion(h) by {
        let i = c.motion_index(h);
        assert(v.motions[i] == c.motions[i]);
        lemma_motion_at(v, i);
    }
}

/// Replacing the members of a consistent state by a sorted list leaves a
/// consistent state with the same live motions, on which every voter left is
/// a member.
pub proof fn lemma_with_members_wf(
    c: CollectiveView,
    members: Seq<AccountId>,
    prime: Option<AccountId>,
)
    requires
        c.wf(),
        ascending(members),
        members.len() <= MemberCount::MAX,
    ensures
        c.with_members(members, prime).wf(),
        forall|h: Seq<u8>|
            c.with_members(members, prime).has_motion(h) <==> c.has_motion(h),
        forall|h: Seq<u8>|
            c.has_motion(h) ==> c.with_members(members, prime).motion(h).votes == c.motion(
                h,
            ).votes.purged(members),
{
    let w = c.with_members(members, prime);
    assert forall|i: int| 0 <= i < w.motions.len() implies {
        &&& (#[trigger] w.motions[i]).votes.wf()
        &&& w.motions[i].votes.within(w.members)
    } by {
        assert(c.motions[i].votes.wf());
        crate::agency::votes::lemma_purged_wf(c.motions[i].votes, members);
    }
    assert forall|i: int, j: int|
        0 <= i < w.motions.len() && 0 <= j < w.motions.len() && i != j implies w.motions[i].hash
        != w.motions[j].hash by {
        assert(w.motions[i].hash == c.motions[i].hash);
        assert(w.motions[j].hash == c.motions[j].hash);
    }
    assert forall|h: Seq<u8>| (w.has_motion(h) <==> c.has_motion(h)) && (c.has_motion(h)
        ==> w.motion(h).votes == c.motion(h).votes.purged(members)) by {
        if w.has_motion(h) {
            let i = choose|i: int| 0 <= i < w.motions.len() && w.motions[i].hash == h;
            assert(c.motions[i].hash == h);
        }
        if c.has_motion(h) {
            let i = c.motion_index(h);
            assert(w.motions[i].hash == h);
            lemma_motion_at(w, i);
        }
    }
}

impl Collective {
    /// The collective of a DAO that has set nothing yet.
    pub fn new() -> (r: Self)
        ensures
            r@ == CollectiveView::empty(),
            r@.wf(),
    {
        let r = Collective {
            members: Vec::new(),
            prime: None,
            motion_duration: 500,
            max_proposals: 20,
            max_members: 10,
            proposal_count: 0,
            motions: Vec::new(),
        };
        assert(r@.motions =~= Seq::empty());
        r
    }

    /// The place of the live motion with this hash.
    fn find_motion(&self, hash: &ContentHash) -> (r: Option<usize>)
        ensures
            match r {
                Some(i) => i < self.motions.len() && self@.motions[i as int].hash == hash@
                    && self@.has_motion(hash@),
                None => !self@.has_motion(hash@),
            },
            self@.motions.len() == self.motions.len(),
    {
        let mut i: usize = 0;
        while i < self.motions.len()
            invariant
                i <= self.motions.len(),
                self@.motions.len() == self.motions.len(),
                forall|j: int| 0 <= j < i ==> self@.motions[j].hash != hash@,
            decreases self.motions.len() - i,
        {
            if hash_eq(&self.motions[i].hash, hash) {
                return Some(i);
            }
            i += 1;
        }
        None
    }

    /// Whether `who` is a member of the collective.
    pub fn is_member(&self, who: AccountId) -> (r: bool)
        ensures
            r == self@.is_member(who),
    {
        contains(&self.members, who)
    }

    /// Adds a proposal, under the hash given for it: to run at once where the
    /// threshold is below two, else as a motion with the proposer's aye.
    pub fn propose(
        &mut self,
        who: AccountId,
        threshold: MemberCount,
        hash: ContentHash,
        proposal: Action,
        now: BlockNumber,
    ) -> (r: Result<Proposed, Error>)
        requires
            old(self)@.wf(),
        ensures
            final(self)@.wf(),
            match old(self)@.propose_check(who, threshold, hash@) {
                Err(e) => r == Err::<Proposed, Error>(e) && final(self)@ == old(self)@,
                Ok(true) => r == Ok::<Proposed, Error>(
                    Proposed::Direct { seats: old(self)@.members.len() as MemberCount, proposal },
                ) && final(self)@ == old(self)@,
                Ok(false) => r == Ok::<Proposed, Error>(
                    Proposed::Queued { index: old(self)@.proposal_count },
                ) && final(self)@ == old(self)@.queued(who, threshold, hash@, proposal@, now),
            },
    {
        if self.find_motion(&hash).is_some() {
            return Err(Error::DuplicateProposal);
        }
        if !self.is_member(who) {
            return Err(Error::NotMember);
        }
        let seats: MemberCount = self.members.len() as MemberCount;
        if threshold > seats {
            return Err(Error::ThresholdWrong);
        }
        if threshold < 2 {
            return Ok(Proposed::Direct { seats, proposal });
        }
        if self.motions.len() >= self.max_proposals as usize || self.proposal_count
            == ProposalIndex::MAX {
            return Err(Error::TooManyProposals);
        }
        let index: ProposalIndex = self.proposal_count;
        let end: BlockNumber = now.saturating_add(self.motion_duration as BlockNumber);
        let mut ayes: Vec<AccountId> = Vec::new();
        ayes.push(who);
        proof {
            lemma_queued_wf(self@, who, threshold, hash@, proposal@, now);
            assert(ayes@ =~= seq![who]);
        }
        let ghost before = self@;
        let ghost pv = proposal@;
        self.motions.push(
            Motion { hash, proposal, votes: Votes { index, threshold, ayes, nays: Vec::new(), end } },
        );
        self.proposal_count = index + 1;
        assert(self@.motions =~= before.queued(who, threshold, hash@, pv, now).motions);
        Ok(Proposed::Queued { index })
    }

    /// Adds the vote of `who` to the motion with this hash and index, and
    /// gives the count of ayes and nays after it.
    pub fn vote(
        &mut self,
        who: AccountId,
        hash: &ContentHash,
        index: ProposalIndex,
        approve: bool,
    ) -> (r: Result<(MemberCount, MemberCount), Error>)
        requires
            old(self)@.wf(),
        ensures
            final(self)@.wf(),
            match old(self)@.vote_check(who, hash@, index, approve) {
                Err(e) => r == Err::<(MemberCount, MemberCount), Error>(e) && final(self)@ == old(self)@,
                Ok(()) => final(self)@ == old(self)@.voted(who, hash@, approve) && r == Ok::<
                    (MemberCount, MemberCount),
                    Error,
                >(
                    (
                        final(self)@.motion(hash@).votes.ayes.len() as MemberCount,
                        final(self)@.motion(hash@).votes.nays.len() as MemberCount,
                    ),
                ),
            },
    {
        if !self.is_member(who) {
            return Err(Error::NotMember);
        }
        let i = match self.find_motion(hash) {
            Some(i) => i,
            None => {
                return Err(Error::ProposalMissing);
            },
        };
        proof {
            lemma_motion_at(self@, i as int);
        }
        if self.motions[i].votes.index != index {
            return Err(Error::WrongIndex);
        }
        let ghost before = self@;
        let ghost m0 = self.motions[i as int]@;
        assert(m0 == before.motions[i as int]);
        match self.motions[i].votes.record(who, approve) {
            Err(_) => {
                assert(self@.motions =~= before.motions);
                return Err(Error::DuplicateVote);
            },
            Ok(()) => {},
        }
        proof {
            lemma_voted_state_wf(before, who, hash@, approve);
            assert(self@.motions =~= before.voted(who, hash@, approve).motions);
            crate::agency::votes::lemma_votes_fit_seats(self@.motion(hash@).votes, self@.members);
        }
        let yes: MemberCount = self.motions[i].votes.ayes.len() as MemberCount;
        let no: MemberCount = self.motions[i].votes.nays.len() as MemberCount;
        Ok((yes, no))
    }

    /// Closes the motion with this hash and index, if its outcome is certain
    /// or its time is up, and takes it off the list.
    pub fn close<D: DefaultVote>(
        &mut self,
        hash: &ContentHash,
        index: ProposalIndex,
        now: BlockNumber,
    ) -> (r: Result<Closed, Error>)
        requires
            old(self)@.wf(),
        ensures
            final(self)@.wf(),
            match old(self)@.close_check::<D>(hash@, index, now) {
                Err(e) => r == Err::<Closed, Error>(e) && final(self)@ == old(self)@,
                Ok(v) => final(self)@ == old(self)@.without(hash@) && match r {
                    Ok(Closed::Approved { yes, no, seats, proposal }) => v.approved && yes == v.yes
                        && no == v.no && seats == old(self)@.members.len() && proposal@ == old(self)@.motion(hash@).proposal,
                    Ok(Closed::Disapproved { yes, no }) => !v.approved && yes == v.yes && no
                        == v.no,
                    Err(_) => false,
                },
            },
    {
        let i = match self.find_motion(hash) {
            Some(i) => i,
            None => {
                return Err(Error::ProposalMissing);
            },
        };
        proof {
            lemma_motion_at(self@, i as int);
        }
        if self.motions[i].votes.index != index {
            return Err(Error::WrongIndex);
        }
        let verdict = match self.motions[i].votes.close::<D>(&self.members, self.prime, now) {
            Ok(v) => v,
            Err(_) => {
                return Err(Error::TooEarly);
            },
        };
        proof {
            lemma_without_wf(self@, hash@);
        }
        let ghost before = self@;
        let seats: MemberCount = self.members.len() as MemberCount;
        let motion = self.motions.remove(i);
        assert(self@.motions =~= before.without(hash@).motions);
        if verdict.approved {
            Ok(
                Closed::Approved {
                    yes: verdict.yes,
                    no: verdict.no,
                    seats,
                    proposal: motion.proposal,
                },
            )
        } else {
            Ok(Closed::Disapproved { yes: verdict.yes, no: verdict.no })
        }
    }

    /// Takes the motion with this hash off the list, whatever its state, and
    /// says whether there was one.
    pub fn disapprove_proposal(&mut self, hash: &ContentHash) -> (r: bool)
        requires
            old(self)@.wf(),
        ensures
            final(self)@.wf(),
            r == old(self)@.has_motion(hash@),
            final(self)@ == old(self)@.without(hash@),
    {
        proof {
            lemma_without_wf(self@, hash@);
        }
        match self.find_motion(hash) {
            Some(i) => {
                proof {
                    lemma_motion_at(self@, i as int);
                }
                let ghost before = self@;
                self.motions.remove(i);
                assert(self@.motions =~= before.without(hash@).motions);
                true
            },
            None => false,
        }
    }

    /// Replaces the members by `members`, at most `min(max_members, ceiling)`
    /// accounts, put in ascending order, and the prime by `prime`. Every vote
    /// of an account that is no longer a member is dropped from every live
    /// motion.
    pub fn set_members_sorted(
        &mut self,
        members: &[AccountId],
        prime: Option<AccountId>,
        ceiling: MemberCount,
    ) -> (r: Result<(), Error>)
        requires
            old(self)@.wf(),
        ensures
            final(self)@.wf(),
            members@.len() > old(self)@.max_members || members@.len() > ceiling ==> r == Err::<
                (),
                Error,
            >(Error::MembersTooLarge) && final(self)@ == old(self)@,
            members@.len() <= old(self)@.max_members && members@.len() <= ceiling ==> r.is_ok()
                && ascending(final(self)@.members) && final(self)@.members.to_multiset()
                == members@.to_multiset() && final(self)@ == old(self)@.with_members(
                final(self)@.members,
                prime,
            ),
            r.is_ok() && ascending(members@) ==> final(self)@.members == members@,
    {
        let limit: MemberCount = if self.max_members < ceiling {
            self.max_members
        } else {
            ceiling
        };
        if members.len() > limit as usize {
            return Err(Error::MembersTooLarge);
        }
        let mut new_members: Vec<AccountId> = vstd::slice::slice_to_vec(members);
        sort_accounts(&mut new_members);
        let ghost before = self@;
        let ghost ordered = new_members@;
        proof {
            ordered.to_multiset_ensures();
            members@.to_multiset_ensures();
            assert(ordered.len() == members@.len());
            lemma_with_members_wf(before, ordered, prime);
            if ascending(members@) {
                lemma_ascending_unique(ordered, members@);
            }
        }
        let ghost target = before.with_members(ordered, prime).motions;
        let mut i: usize = 0;
        while i < self.motions.len()
            invariant
                i <= self.motions.len(),
                self.motions.len() == before.motions.len(),
                new_members@ == ordered,
                ascending(ordered),
                before.wf(),
                self@.members == before.members,
                self@.prime == before.prime,
                self@.motion_duration == before.motion_duration,
                self@.max_proposals == before.max_proposals,
                self@.max_members == before.max_members,
                self@.proposal_count == before.proposal_count,
                self@.motions.len() == before.motions.len(),
                target == before.with_members(ordered, prime).motions,
                target.len() == before.motions.len(),
                forall|j: int| 0 <= j < i ==> self@.motions[j] == target[j],
                forall|j: int| i <= j < before.motions.len() ==> self@.motions[j] == before.motions[j],
            decreases self.motions.len() - i,
        {
            let ghost mid = self@;
            assert(mid.motions[i as int] == before.motions[i as int]);
            assert(before.motions[i as int].votes.wf());
            self.motions[i].votes.purge(&new_members);
            assert forall|j: int| 0 <= j < self@.motions.len() && j != i implies self@.motions[j]
                == mid.motions[j] by {}
            assert(self@.motions[i as int].hash == before.motions[i as int].hash);
            assert(self@.motions[i as int].proposal == before.motions[i as int].proposal);
            assert(self@.motions[i as int].votes == before.motions[i as int].votes.purged(
                ordered,
            ));
            assert(self@.motions[i as int] == target[i as int]);
            assert forall|j: int| 0 <= j < i + 1 implies self@.motions[j] == target[j] by {
                if j < i {
                    assert(self@.motions[j] == mid.motions[j]);
                }
            }
            i += 1;
        }
        self.members = new_members;
        self.prime = prime;
        assert(self@.motions =~= target);
        Ok(())
    }

    /// Sets how long a motion stays open.
    pub fn set_motion_duration(&mut self, duration: u32)
        requires
            old(self)@.wf(),
        ensures
            final(self)@ == (CollectiveView { motion_duration: duration, ..old(self)@ }),
            final(self)@.wf(),
    {
        self.motion_duration = duration;
    }

    /// Sets how many motions may be live at once.
    pub fn set_max_proposals(&mut self, max: ProposalIndex)
        requires
            old(self)@.wf(),
        ensures
            final(self)@ == (CollectiveView { max_proposals: max, ..old(self)@ }),
            final(self)@.wf(),
    {
        self.max_proposals = max;
    }

    /// Sets how many members the DAO allows itself.
    pub fn set_max_members(&mut self, max: MemberCount)
        requires
            old(self)@.wf(),
        ensures
            final(self)@ == (CollectiveView { max_members: max, ..old(self)@ }),
            final(self)@.wf(),
    {
        self.max_members = max;
    }

    /// The members, in ascending order.
    pub fn members(&self) -> (r: &Vec<AccountId>)
        ensures
            r@ == self@.members,
    {
        &self.members
    }

    /// The prime, if the collective has one.
    pub fn prime(&self) -> (r: Option<AccountId>)
        ensures
            r == self@.prime,
    {
        self.prime
    }

    /// How long a motion stays open.
    pub fn motion_duration(&self) -> (r: u32)
        ensures
            r == self@.motion_duration,
    {
        self.motion_duration
    }

    /// How many motions may be live at once.
    pub fn max_proposals(&self) -> (r: ProposalIndex)
        ensures
            r == self@.max_proposals,
    {
        self.max_proposals
    }

    /// How many members the DAO allows itself.
    pub fn max_members(&self) -> (r: MemberCount)
        ensures
            r == self@.max_members,
    {
        self.max_members
    }

    /// How many motions have been queued so far.
    pub fn proposal_count(&self) -> (r: u32)
        ensures
            r == self@.proposal_count,
    {
        self.proposal_count
    }

    /// The live motion with this hash, if there is one.
    pub fn motion(&self, hash: &ContentHash) -> (r: Option<&Motion>)
        requires
            self@.wf(),
        ensures
            match r {
                Some(m) => self@.has_motion(hash@) && m@ == self@.motion(hash@),
                None => !self@.has_motion(hash@),
            },
    {
        match self.find_motion(hash) {
            Some(i) => {
                proof {
                    lemma_motion_at(self@, i as int);
                }
                Some(&self.motions[i])
            },
            None => None,
        }
    }

    /// The hashes of the live motions, oldest first.
    pub fn proposals(&self) -> (r: Vec<ContentHash>)
        ensures
            r@.len() == self@.motions.len(),
            forall|i: int| 0 <= i < r@.len() ==> (#[trigger] r@[i])@ == self@.motions[i].hash,
    {
        let mut out: Vec<ContentHash> = Vec::new();
        let mut i: usize = 0;
        while i < self.motions.len()
            invariant
                i <= self.motions.len(),
                self@.motions.len() == self.motions.len(),
                out@.len() == i,
                forall|k: int| 0 <= k < i ==> (#[trigger] out@[k])@ == self@.motions[k].hash,
            decreases self.motions.len() - i,
        {
            out.push(self.motions[i].hash);
            i += 1;
        }
        out
    }
}

} // verus!
