use std::collections::HashMap;
use std::marker::PhantomData;
use vstd::prelude::*;
use crate::agency::collective::{Closed, Collective, CollectiveView, Proposed};
use crate::agency::default_vote::DefaultVote;
use crate::agency::errors::Error;
use crate::agency::members::ascending;
use crate::agency::origin::{eval, spec_eval, RawOrigin};
use crate::agency::votes::Votes;
use crate::error::DispatchError;
use crate::primitives::action::Action;
use crate::primitives::ids::DaoId;
use crate::primitives::types::{
    AccountId,
    BlockNumber,
    ContentHash,
    DoAsEnsureOrigin,
    MemberCount,
    Policy,
    Proportion,
    ProposalIndex,
    RealCallId,
};

verus! {

broadcast use vstd::std_specs::hash::group_hash_axioms;

/// An action that is to run now, and the backing it runs with.
#[derive(Debug, PartialEq, Eq)]
pub struct Dispatch {
    /// The one-shot token that authorizes the run.
    pub origin: RawOrigin,
    /// The content hash of the action.
    pub proposal_hash: ContentHash,
    /// The action.
    pub proposal: Action,
}

/// What a proposal to the agency led to.
#[derive(Debug, PartialEq, Eq)]
pub enum Motioned {
    /// The proposal is to run at once.
    Execute(Dispatch),
    /// The proposal was queued as a motion.
    Queued { proposal_index: ProposalIndex, proposal_hash: ContentHash, threshold: MemberCount },
}

/// How the agency closed a motion.
#[derive(Debug, PartialEq, Eq)]
pub enum Closing {
    /// Approved with `yes` against `no`: the proposal is to run.
    Approved { yes: MemberCount, no: MemberCount, dispatch: Dispatch },
    /// Disapproved with `yes` against `no`.
    Disapproved { yes: MemberCount, no: MemberCount },
}

/// The agencies of all DAOs: each DAO's collective and its table of origins.
///
/// `D` is the default vote: how a member who did not vote is counted when a
/// motion's time is up.
pub struct Pallet<D> {
    collectives: HashMap<u64, Collective>,
    origins: HashMap<u64, HashMap<RealCallId, Policy>>,
    max_members_for_system: MemberCount,
    strategy: PhantomData<D>,
}

impl<D: DefaultVote> Pallet<D> {
    /// The collective of a DAO. A DAO that has set nothing has the defaults.
    pub closed spec fn collective(&self, dao_id: DaoId) -> CollectiveView {
        if self.collectives@.contains_key(dao_id.0) {
            self.collectives@[dao_id.0]@
        } else {
            CollectiveView::empty()
        }
    }

    /// The backing that a DAO asks for a kind of action: the root alone where
    /// the DAO has set none.
    pub closed spec fn policy(&self, dao_id: DaoId, call_id: RealCallId) -> Policy {
        if self.origins@.contains_key(dao_id.0) && self.origins@[dao_id.0]@.contains_key(call_id) {
            self.origins@[dao_id.0]@[call_id]
        } else {
            DoAsEnsureOrigin::Root
        }
    }

    /// The number of members that no DAO may exceed.
    pub closed spec fn ceiling(&self) -> MemberCount {
        self.max_members_for_system
    }

    /// Every collective is in a consistent state.
    pub open spec fn wf(&self) -> bool {
        forall|d: DaoId| (#[trigger] self.collective(d)).wf()
    }

    /// `next` differs from `self` in the collective of `dao_id` at most.
    pub open spec fn same_but_collective(&self, next: &Self, dao_id: DaoId) -> bool {
        &&& next.ceiling() == self.ceiling()
        &&& forall|d: DaoId| d != dao_id ==> #[trigger] next.collective(d) == self.collective(d)
        &&& forall|d: DaoId, c: RealCallId| #[trigger] next.policy(d, c) == self.policy(d, c)
    }

    /// The agencies with no DAO yet, under a ceiling on members.
    pub fn new(max_members_for_system: MemberCount) -> (r: Self)
        ensures
            r.wf(),
            r.ceiling() == max_members_for_system,
            forall|d: DaoId| #[trigger] r.collective(d) == CollectiveView::empty(),
            forall|d: DaoId, c: RealCallId| #[trigger] r.policy(d, c) == Policy::Root,
    {
        Pallet {
            collectives: HashMap::new(),
            origins: HashMap::new(),
            max_members_for_system,
            strategy: PhantomData,
        }
    }

    /// Takes the collective of `dao_id` out, to be put back after a change.
    fn take(&mut self, dao_id: DaoId) -> (c: Collective)
        requires
            old(self).wf(),
        ensures
            c@ == old(self).collective(dao_id),
            c@.wf(),
            old(self).same_but_collective(final(self), dao_id),
    {
        assert(self.collective(dao_id).wf());
        let ghost before = *self;
        let c = match self.collectives.remove(&dao_id.0) {
            Some(c) => c,
            None => Collective::new(),
        };
        assert forall|d: DaoId| d != dao_id implies #[trigger] self.collective(d)
            == before.collective(d) by {
            assert(d.0 != dao_id.0);
        }
        c
    }

    /// Puts the collective of `dao_id` back.
    fn put(&mut self, dao_id: DaoId, c: Collective)
        ensures
            final(self).collective(dao_id) == c@,
            old(self).same_but_collective(final(self), dao_id),
    {
        let ghost before = *self;
        self.collectives.insert(dao_id.0, c);
        assert forall|d: DaoId| d != dao_id implies #[trigger] self.collective(d)
            == before.collective(d) by {
            assert(d.0 != dao_id.0);
        }
    }

    /// Whether `who` is a member of the collective of `dao_id`.
    pub fn is_member(&self, dao_id: DaoId, who: &AccountId) -> (r: Result<bool, DispatchError>)
        ensures
            r == Ok::<bool, DispatchError>(self.collective(dao_id).is_member(*who)),
    {
        match self.collectives.get(&dao_id.0) {
            Some(c) => Ok(c.is_member(*who)),
            None => {
                assert(!Seq::<AccountId>::empty().contains(*who));
                Ok(false)
            },
        }
    }

    /// Lets a member run `proposal` at once, backed by that member alone.
    pub fn execute(&self, who: AccountId, dao_id: DaoId, proposal: Action) -> (r: Result<
        Dispatch,
        DispatchError,
    >)
        ensures
            match r {
                Ok(d) => self.collective(dao_id).is_member(who) && d.origin == RawOrigin::Member(
                    dao_id,
                ) && d.proposal == proposal && d.proposal_hash@ == proposal@.hash(),
                Err(e) => !self.collective(dao_id).is_member(who) && e == DispatchError::Agency(
                    Error::NotMember,
                ),
            },
    {
        let member = match self.is_member(dao_id, &who) {
            Ok(m) => m,
            Err(e) => {
                return Err(e);
            },
        };
        if !member {
            return Err(DispatchError::Agency(Error::NotMember));
        }
        let proposal_hash = proposal.hash();
        Ok(Dispatch { origin: RawOrigin::Member(dao_id), proposal_hash, proposal })
    }

    /// Adds a new proposal to either be voted on or executed directly.
    ///
    /// A proposal whose content hash is live in the DAO is a duplicate, from
    /// whomever. A threshold below two lets the proposal run at once, backed
    /// by its proposer; any other queues it as a motion that ends after the
    /// DAO's motion duration.
    pub fn propose(
        &mut self,
        who: AccountId,
        dao_id: DaoId,
        threshold: MemberCount,
        proposal: Action,
        now: BlockNumber,
    ) -> (r: Result<Motioned, DispatchError>)
        requires
            old(self).wf(),
        ensures
            final(self).wf(),
            old(self).same_but_collective(final(self), dao_id),
            match old(self).collective(dao_id).propose_check(who, threshold, proposal@.hash()) {
                Err(e) => r == Err::<Motioned, DispatchError>(DispatchError::Agency(e)) && final(self).collective(dao_id) == old(self).collective(dao_id),
                Ok(true) => final(self).collective(dao_id) == old(self).collective(dao_id)
                    && match r {
                    Ok(Motioned::Execute(d)) => d.origin == RawOrigin::Members(
                        dao_id,
                        1,
                        old(self).collective(dao_id).members.len() as MemberCount,
                    ) && d.proposal == proposal && d.proposal_hash@ == proposal@.hash(),
                    _ => false,
                },
                Ok(false) => final(self).collective(dao_id) == old(self).collective(
                    dao_id,
                ).queued(who, threshold, proposal@.hash(), proposal@, now) && match r {
                    Ok(Motioned::Queued { proposal_index, proposal_hash, threshold: t }) =>
                        proposal_index == old(self).collective(dao_id).proposal_count
                        && proposal_hash@ == proposal@.hash() && t == threshold,
                    _ => false,
                },
            },
    {
        let proposal_hash = proposal.hash();
        let mut c = self.take(dao_id);
        let res = c.propose(who, threshold, proposal_hash, proposal, now);
        self.put(dao_id, c);
        match res {
            Err(e) => Err(DispatchError::Agency(e)),
            Ok(Proposed::Direct { seats, proposal }) => Ok(
                Motioned::Execute(
                    Dispatch { origin: RawOrigin::Members(dao_id, 1, seats), proposal_hash, proposal },
                ),
            ),
            Ok(Proposed::Queued { index }) => Ok(
                Motioned::Queued { proposal_index: index, proposal_hash, threshold },
            ),
        }
    }

    /// Adds an aye or nay vote for the sender to the given proposal, and
    /// gives the count of ayes and nays after it.
    pub fn vote(
        &mut self,
        who: AccountId,
        dao_id: DaoId,
        proposal: ContentHash,
        index: ProposalIndex,
        approve: bool,
    ) -> (r: Result<(MemberCount, MemberCount), DispatchError>)
        requires
            old(self).wf(),
        ensures
            final(self).wf(),
            old(self).same_but_collective(final(self), dao_id),
            match old(self).collective(dao_id).vote_check(who, proposal@, index, approve) {
                Err(e) => r == Err::<(MemberCount, MemberCount), DispatchError>(
                    DispatchError::Agency(e),
                ) && final(self).collective(dao_id) == old(self).collective(dao_id),
                Ok(()) => final(self).collective(dao_id) == old(self).collective(dao_id).voted(
                    who,
                    proposal@,
                    approve,
                ) && r == Ok::<(MemberCount, MemberCount), DispatchError>(
                    (
                        final(self).collective(dao_id).motion(proposal@).votes.ayes.len() as MemberCount,
                        final(self).collective(dao_id).motion(proposal@).votes.nays.len() as MemberCount,
                    ),
                ),
            },
    {
        let mut c = self.take(dao_id);
        let res = c.vote(who, &proposal, index, approve);
        self.put(dao_id, c);
        match res {
            Err(e) => Err(DispatchError::Agency(e)),
            Ok(t) => Ok(t),
        }
    }

    /// Close a vote that is either approved, disapproved or whose voting
    /// period has ended. The motion is taken off the list; where it was
    /// approved, its proposal is to run backed by the ayes out of all seats.
    pub fn close(
        &mut self,
        _who: AccountId,
        dao_id: DaoId,
        proposal_hash: ContentHash,
        index: ProposalIndex,
        now: BlockNumber,
    ) -> (r: Result<Closing, DispatchError>)
        requires
            old(self).wf(),
        ensures
            final(self).wf(),
            old(self).same_but_collective(final(self), dao_id),
            match old(self).collective(dao_id).close_check::<D>(proposal_hash@, index, now) {
                Err(e) => r == Err::<Closing, DispatchError>(DispatchError::Agency(e)) && final(self).collective(dao_id) == old(self).collective(dao_id),
                Ok(v) => final(self).collective(dao_id) == old(self).collective(dao_id).without(
                    proposal_hash@,
                ) && match r {
                    Ok(Closing::Approved { yes, no, dispatch }) => v.approved && yes == v.yes && no
                        == v.no && dispatch.origin == RawOrigin::Members(
                        dao_id,
                        v.yes,
                        old(self).collective(dao_id).members.len() as MemberCount,
                    ) && dispatch.proposal@ == old(self).collective(dao_id).motion(
                        proposal_hash@,
                    ).proposal && dispatch.proposal_hash@ == proposal_hash@,
                    Ok(Closing::Disapproved { yes, no }) => !v.approved && yes == v.yes && no
                        == v.no,
                    Err(_) => false,
                },
            },
    {
        let mut c = self.take(dao_id);
        let res = c.close::<D>(&proposal_hash, index, now);
        self.put(dao_id, c);
        match res {
            Err(e) => Err(DispatchError::Agency(e)),
            Ok(Closed::Approved { yes, no, seats, proposal }) => Ok(
                Closing::Approved {
                    yes,
                    no,
                    dispatch: Dispatch {
                        origin: RawOrigin::Members(dao_id, yes, seats),
                        proposal_hash,
                        proposal,
                    },
                },
            ),
            Ok(Closed::Disapproved { yes, no }) => Ok(Closing::Disapproved { yes, no }),
        }
    }

    /// `next` differs from `self` in the policy of `dao_id` for `call_id` at
    /// most.
    pub open spec fn same_but_policy(&self, next: &Self, dao_id: DaoId, call_id: RealCallId) -> bool {
        &&& next.ceiling() == self.ceiling()
        &&& forall|d: DaoId| #[trigger] next.collective(d) == self.collective(d)
        &&& forall|d: DaoId, c: RealCallId|
            (d != dao_id || c != call_id) ==> #[trigger] next.policy(d, c) == self.policy(d, c)
    }

    /// Whether a policy is well formed: a share is at most the whole.
    pub open spec fn policy_ok(ensure: Policy) -> bool {
        match ensure {
            DoAsEnsureOrigin::Proportion(Proportion::MoreThan(n, m)) => n <= m,
            DoAsEnsureOrigin::Proportion(Proportion::AtLeast(n, m)) => n <= m,
            _ => true,
        }
    }

    /// The backing that `dao_id` asks for actions of the kind `call_id`.
    pub fn ensures_of(&self, dao_id: DaoId, call_id: RealCallId) -> (r: Policy)
        ensures
            r == self.policy(dao_id, call_id),
    {
        match self.origins.get(&dao_id.0) {
            None => DoAsEnsureOrigin::Root,
            Some(table) => match table.get(&call_id) {
                None => DoAsEnsureOrigin::Root,
                Some(p) => *p,
            },
        }
    }

    /// Disapprove a proposal, close, and remove it from the system,
    /// regardless of its current state. The DAO's root alone may.
    pub fn disapprove_proposal<C>(
        &mut self,
        daos: &crate::dao::Pallet<C>,
        who: AccountId,
        dao_id: DaoId,
        proposal_hash: ContentHash,
    ) -> (r: Result<(), DispatchError>)
        requires
            old(self).wf(),
        ensures
            final(self).wf(),
            old(self).same_but_collective(final(self), dao_id),
            match daos.root_check(who, dao_id) {
                Err(e) => r == Err::<(), DispatchError>(DispatchError::Dao(e)) && final(self).collective(dao_id) == old(self).collective(dao_id),
                Ok(_) => r == Ok::<(), DispatchError>(()) && final(self).collective(dao_id) == old(self).collective(dao_id).without(proposal_hash@),
            },
    {
        match daos.ensrue_dao_root(who, dao_id) {
            Err(e) => {
                return Err(DispatchError::Dao(e));
            },
            Ok(_) => {},
        }
        let mut c = self.take(dao_id);
        c.disapprove_proposal(&proposal_hash);
        self.put(dao_id, c);
        Ok(())
    }

    /// Set the length of time for voting on proposal. The DAO's root alone
    /// may.
    pub fn set_motion_duration<C>(
        &mut self,
        daos: &crate::dao::Pallet<C>,
        who: AccountId,
        dao_id: DaoId,
        duration: u32,
    ) -> (r: Result<(), DispatchError>)
        requires
            old(self).wf(),
        ensures
            final(self).wf(),
            old(self).same_but_collective(final(self), dao_id),
            match daos.root_check(who, dao_id) {
                Err(e) => r == Err::<(), DispatchError>(DispatchError::Dao(e)) && final(self).collective(dao_id) == old(self).collective(dao_id),
                Ok(_) => r == Ok::<(), DispatchError>(()) && final(self).collective(dao_id) == (
                CollectiveView { motion_duration: duration, ..old(self).collective(dao_id) }),
            },
    {
        match daos.ensrue_dao_root(who, dao_id) {
            Err(e) => {
                return Err(DispatchError::Dao(e));
            },
            Ok(_) => {},
        }
        let mut c = self.take(dao_id);
        c.set_motion_duration(duration);
        self.put(dao_id, c);
        Ok(())
    }

    /// Set a cap on the number of agency proposals. The DAO's root alone may.
    pub fn set_max_proposals<C>(
        &mut self,
        daos: &crate::dao::Pallet<C>,
        who: AccountId,
        dao_id: DaoId,
        max: ProposalIndex,
    ) -> (r: Result<(), DispatchError>)
        requires
            old(self).wf(),
        ensures
            final(self).wf(),
            old(self).same_but_collective(final(self), dao_id),
            match daos.root_check(who, dao_id) {
                Err(e) => r == Err::<(), DispatchError>(DispatchError::Dao(e)) && final(self).collective(dao_id) == old(self).collective(dao_id),
                Ok(_) => r == Ok::<(), DispatchError>(()) && final(self).collective(dao_id) == (
                CollectiveView { max_proposals: max, ..old(self).collective(dao_id) }),
            },
    {
        match daos.ensrue_dao_root(who, dao_id) {
            Err(e) => {
                return Err(DispatchError::Dao(e));
            },
            Ok(_) => {},
        }
        let mut c = self.take(dao_id);
        c.set_max_proposals(max);
        self.put(dao_id, c);
        Ok(())
    }

    /// Set the maximum number of members in the agency. The DAO's root alone
    /// may.
    pub fn set_max_members<C>(
        &mut self,
        daos: &crate::dao::Pallet<C>,
        who: AccountId,
        dao_id: DaoId,
        max: MemberCount,
    ) -> (r: Result<(), DispatchError>)
        requires
            old(self).wf(),
        ensures
            final(self).wf(),
            old(self).same_but_collective(final(self), dao_id),
            match daos.root_check(who, dao_id) {
                Err(e) => r == Err::<(), DispatchError>(DispatchError::Dao(e)) && final(self).collective(dao_id) == old(self).collective(dao_id),
                Ok(_) => r == Ok::<(), DispatchError>(()) && final(self).collective(dao_id) == (
                CollectiveView { max_members: max, ..old(self).collective(dao_id) }),
            },
    {
        match daos.ensrue_dao_root(who, dao_id) {
            Err(e) => {
                return Err(DispatchError::Dao(e));
            },
            Ok(_) => {},
        }
        let mut c = self.take(dao_id);
        c.set_max_members(max);
        self.put(dao_id, c);
        Ok(())
    }

    /// Set origin for a specific call. The DAO's root alone may, and a share
    /// of more than the whole is refused. An entry that is there is replaced.
    pub fn set_ensure_origin_for_every_call<C>(
        &mut self,
        daos: &crate::dao::Pallet<C>,
        who: AccountId,
        dao_id: DaoId,
        call_id: RealCallId,
        ensure: Policy,
    ) -> (r: Result<(), DispatchError>)
        ensures
            old(self).same_but_policy(final(self), dao_id, call_id),
            match daos.root_check(who, dao_id) {
                Err(e) => r == Err::<(), DispatchError>(DispatchError::Dao(e)) && final(self).policy(dao_id, call_id) == old(self).policy(dao_id, call_id),
                Ok(_) => if Self::policy_ok(ensure) {
                    r == Ok::<(), DispatchError>(()) && final(self).policy(dao_id, call_id)
                        == ensure
                } else {
                    r == Err::<(), DispatchError>(DispatchError::Agency(Error::ProportionErr))
                        && final(self).policy(dao_id, call_id) == old(self).policy(
                        dao_id,
                        call_id,
                    )
                },
            },
    {
        match daos.ensrue_dao_root(who, dao_id) {
            Err(e) => {
                return Err(DispatchError::Dao(e));
            },
            Ok(_) => {},
        }
        let ok = match ensure {
            DoAsEnsureOrigin::Proportion(Proportion::MoreThan(n, m)) => n <= m,
            DoAsEnsureOrigin::Proportion(Proportion::AtLeast(n, m)) => n <= m,
            _ => true,
        };
        if !ok {
            return Err(DispatchError::Agency(Error::ProportionErr));
        }
        let ghost before = *self;
        let mut table = match self.origins.remove(&dao_id.0) {
            Some(t) => t,
            None => HashMap::new(),
        };
        table.insert(call_id, ensure);
        self.origins.insert(dao_id.0, table);
        assert forall|d: DaoId, c: RealCallId| (d != dao_id || c != call_id) implies #[trigger]
            self.policy(d, c) == before.policy(d, c) by {
            if d != dao_id {
                assert(d.0 != dao_id.0);
            }
        }
        assert forall|d: DaoId| #[trigger] self.collective(d) == before.collective(d) by {}
        Ok(())
    }
}

impl<D: DefaultVote> Pallet<D> {
    /// All members of the collective of `dao_id`.
    pub fn collective_members(&self, dao_id: DaoId) -> (r: Vec<AccountId>)
        ensures
            r@ == self.collective(dao_id).members,
    {
        match self.collectives.get(&dao_id.0) {
            Some(c) => vstd::slice::slice_to_vec(c.members().as_slice()),
            None => Vec::new(),
        }
    }

    /// The prime of the collective of `dao_id`.
    pub fn prime(&self, dao_id: DaoId) -> (r: Option<AccountId>)
        ensures
            r == self.collective(dao_id).prime,
    {
        match self.collectives.get(&dao_id.0) {
            Some(c) => c.prime(),
            None => None,
        }
    }

    /// The time-out for motions of `dao_id`.
    pub fn motion_duration(&self, dao_id: DaoId) -> (r: u32)
        ensures
            r == self.collective(dao_id).motion_duration,
    {
        match self.collectives.get(&dao_id.0) {
            Some(c) => c.motion_duration(),
            None => MotionDurationOnEmpty(),
        }
    }

    /// Maximum number of proposals of `dao_id` allowed to be active in
    /// parallel.
    pub fn max_proposals(&self, dao_id: DaoId) -> (r: ProposalIndex)
        ensures
            r == self.collective(dao_id).max_proposals,
    {
        match self.collectives.get(&dao_id.0) {
            Some(c) => c.max_proposals(),
            None => MaxProposalsOnEmpty(),
        }
    }

    /// The maximum number of members that `dao_id` allows itself.
    pub fn max_members(&self, dao_id: DaoId) -> (r: MemberCount)
        ensures
            r == self.collective(dao_id).max_members,
    {
        match self.collectives.get(&dao_id.0) {
            Some(c) => c.max_members(),
            None => MaxMembersOnEmpty(),
        }
    }

    /// Proposals of `dao_id` so far.
    pub fn proposal_count(&self, dao_id: DaoId) -> (r: u32)
        ensures
            r == self.collective(dao_id).proposal_count,
    {
        match self.collectives.get(&dao_id.0) {
            Some(c) => c.proposal_count(),
            None => 0,
        }
    }

    /// The hashes of the active proposals of `dao_id`.
    pub fn proposals(&self, dao_id: DaoId) -> (r: Vec<ContentHash>)
        ensures
            r@.len() == self.collective(dao_id).motions.len(),
            forall|i: int|
                0 <= i < r@.len() ==> (#[trigger] r@[i])@ == self.collective(dao_id).motions[i].hash,
    {
        match self.collectives.get(&dao_id.0) {
            Some(c) => c.proposals(),
            None => Vec::new(),
        }
    }

    /// Actual proposal of `dao_id` for a given hash, if it's current.
    pub fn proposal_of(&self, dao_id: DaoId, proposal_hash: &ContentHash) -> (r: Option<Action>)
        requires
            self.wf(),
        ensures
            match r {
                Some(p) => self.collective(dao_id).has_motion(proposal_hash@) && p@
                    == self.collective(dao_id).motion(proposal_hash@).proposal,
                None => !self.collective(dao_id).has_motion(proposal_hash@),
            },
    {
        assert(self.collective(dao_id).wf());
        match self.collectives.get(&dao_id.0) {
            Some(c) => match c.motion(proposal_hash) {
                Some(m) => Some(
                    Action {
                        call_id: m.proposal.call_id,
                        data: vstd::slice::slice_to_vec(m.proposal.data.as_slice()),
                    },
                ),
                None => None,
            },
            None => {
                assert(!CollectiveView::empty().has_motion(proposal_hash@));
                None
            },
        }
    }

    /// Votes on a given proposal of `dao_id`, if it is ongoing.
    pub fn voting(&self, dao_id: DaoId, proposal_hash: &ContentHash) -> (r: Option<
        Votes<AccountId, BlockNumber>,
    >)
        requires
            self.wf(),
        ensures
            match r {
                Some(v) => self.collective(dao_id).has_motion(proposal_hash@) && v@
                    == self.collective(dao_id).motion(proposal_hash@).votes,
                None => !self.collective(dao_id).has_motion(proposal_hash@),
            },
    {
        assert(self.collective(dao_id).wf());
        match self.collectives.get(&dao_id.0) {
            Some(c) => match c.motion(proposal_hash) {
                Some(m) => Some(
                    Votes {
                        index: m.votes.index,
                        threshold: m.votes.threshold,
                        ayes: vstd::slice::slice_to_vec(m.votes.ayes.as_slice()),
                        nays: vstd::slice::slice_to_vec(m.votes.nays.as_slice()),
                        end: m.votes.end,
                    },
                ),
                None => None,
            },
            None => {
                assert(!CollectiveView::empty().has_motion(proposal_hash@));
                None
            },
        }
    }
}

/// How long a motion stays open in a DAO that has set nothing.
#[allow(non_snake_case)]
pub fn MotionDurationOnEmpty() -> (r: u32)
    ensures
        r == CollectiveView::empty().motion_duration,
{
    500u32
}

/// How many motions may be live at once in a DAO that has set nothing.
#[allow(non_snake_case)]
pub fn MaxProposalsOnEmpty() -> (r: ProposalIndex)
    ensures
        r == CollectiveView::empty().max_proposals,
{
    20
}

/// How many members a DAO that has set nothing allows itself.
#[allow(non_snake_case)]
pub fn MaxMembersOnEmpty() -> (r: MemberCount)
    ensures
        r == CollectiveView::empty().max_members,
{
    10
}

impl<D: DefaultVote> crate::primitives::traits::EnsureOriginWithArg<
    RawOrigin,
    (DaoId, RealCallId),
> for Pallet<D> {
    type Success = DaoId;

    open spec fn spec_try_origin(&self, o: RawOrigin, a: (DaoId, RealCallId)) -> Result<
        DaoId,
        RawOrigin,
    > {
        if spec_eval(self.policy(a.0, a.1), o, a.0) {
            Ok(a.0)
        } else {
            Err(o)
        }
    }

    /// Checks the token against the policy that the DAO has set for the kind
    /// of action, and hands the token back where it does not satisfy it.
    fn try_origin(&self, o: RawOrigin, a: &(DaoId, RealCallId)) -> (r: Result<DaoId, RawOrigin>) {
        let policy = self.ensures_of(a.0, a.1);
        if eval(&policy, &o, a.0) {
            Ok(a.0)
        } else {
            Err(o)
        }
    }
}

impl<D: DefaultVote> crate::primitives::traits::SetCollectiveMembers<
    AccountId,
    DaoId,
    DispatchError,
> for Pallet<D> {
    open spec fn takes(&self, dao_id: DaoId, members: Seq<AccountId>) -> bool {
        self.wf()
    }

    /// Replaces the members of the collective of `dao_id` by `members`, at
    /// most `min(max_members, ceiling)` of them, put in ascending order, and
    /// its prime by `prime`, and drops the votes of those who are no longer
    /// members from every live motion.
    fn set_members_sorted(
        &mut self,
        dao_id: DaoId,
        members: &[AccountId],
        prime: Option<AccountId>,
    ) -> (r: Result<(), DispatchError>)
        ensures
            final(self).wf(),
            old(self).same_but_collective(final(self), dao_id),
            members@.len() > old(self).collective(dao_id).max_members || members@.len() > old(self).ceiling() ==> r == Err::<(), DispatchError>(
                DispatchError::Agency(Error::MembersTooLarge),
            ) && final(self).collective(dao_id) == old(self).collective(dao_id),
            members@.len() <= old(self).collective(dao_id).max_members && members@.len() <= old(self).ceiling() ==> r == Ok::<(), DispatchError>(()) && ascending(
                final(self).collective(dao_id).members,
            ) && final(self).collective(dao_id).members.to_multiset() == members@.to_multiset()
                && final(self).collective(dao_id) == old(self).collective(dao_id).with_members(
                final(self).collective(dao_id).members,
                prime,
            ),
            r is Ok && ascending(members@) ==> final(self).collective(dao_id).members == members@,
    {
        let mut c = self.take(dao_id);
        let res = c.set_members_sorted(members, prime, self.max_members_for_system);
        self.put(dao_id, c);
        match res {
            Err(e) => Err(DispatchError::Agency(e)),
            Ok(()) => Ok(()),
        }
    }
}

} // verus!
