use std::collections::HashMap;
use std::marker::PhantomData;
use vstd::prelude::*;
use crate::doas::SignedDispatch;
use crate::error::DispatchError;
use crate::primitives::action::Action;
use crate::primitives::ids::DaoId;
use crate::primitives::traits::BaseCallFilter;
use crate::primitives::types::{AccountId, Balance, BlockNumber, ContentHash, RealCallId};
use crate::square::errors::Error;
use crate::square::locks::{
    add_overflows,
    added,
    cancel_kept,
    cancel_tally,
    freed,
    release_due,
    release_matching,
    settle_cancel,
    settle_reserves,
    settle_unlock,
    still_reserved,
    unlock_gone,
    unlock_kept,
};
use crate::square::referenda::{
    EnactmentPeriodOnEmpty,
    LaunchPeriodOnEmpty,
    MaxPublicPropsOnEmpty,
    Referenda,
    ReferendaView,
    ReservePeriodOnEmpty,
    VotingPeriodOnEmpty,
};
use crate::square::traits::Pledge;
use crate::square::types::{
    Opinion,
    PropIndex,
    ReferendumIndex,
    ReferendumState,
    Tally,
    VoteInfo,
    VoteLock,
};

verus! {

broadcast use vstd::std_specs::hash::group_hash_axioms;

/// Funds that are to be reserved from an account.
#[derive(Clone, Copy, Debug, PartialEq, Eq, Structural)]
pub struct Reserve {
    pub who: AccountId,
    pub amount: Balance,
}

/// What queuing a proposal led to.
#[derive(Debug, PartialEq, Eq)]
pub struct Deposited {
    /// The index that the proposal was queued under.
    pub index: PropIndex,
    /// The content hash of the proposal.
    pub proposal_hash: ContentHash,
    /// The deposit that is to be reserved from the proposer.
    pub reserve: Reserve,
}

/// How a referendum was enacted.
#[derive(Debug, PartialEq, Eq)]
pub enum Enacted {
    /// Approved: the proposal is to run under the DAO's own account.
    Approved(SignedDispatch),
    /// Rejected: the nays weigh no less than the ayes. Nothing is to run.
    Rejected,
}

/// The squares of all DAOs, and what each account has locked or reserved.
///
/// `C` is what a DAO stands on, `P` the pledge that a voter stakes, and `V`
/// the conviction that a voter states.
pub struct Pallet<C, P, V> {
    squares: HashMap<u64, Referenda>,
    votes_of: HashMap<AccountId, Vec<VoteLock<C, P>>>,
    reserve_of: HashMap<AccountId, Vec<(Balance, BlockNumber)>>,
    conviction: PhantomData<V>,
}

impl<C, P, V> Pallet<C, P, V> {
    /// The square of a DAO. A DAO that has set nothing has the defaults.
    pub closed spec fn square(&self, dao_id: DaoId) -> ReferendaView {
        if self.squares@.contains_key(dao_id.0) {
            self.squares@[dao_id.0]@
        } else {
            ReferendaView::empty()
        }
    }

    /// The locks that the votes of `who` have left.
    pub closed spec fn locks(&self, who: AccountId) -> Seq<VoteLock<C, P>> {
        if self.votes_of@.contains_key(who) {
            self.votes_of@[who]@
        } else {
            Seq::empty()
        }
    }

    /// The deposits of `who` that are reserved, each with the time from which
    /// it is free.
    pub closed spec fn reserves(&self, who: AccountId) -> Seq<(Balance, BlockNumber)> {
        if self.reserve_of@.contains_key(who) {
            self.reserve_of@[who]@
        } else {
            Seq::empty()
        }
    }

    /// Every square is in a consistent state.
    pub open spec fn wf(&self) -> bool {
        forall|d: DaoId| (#[trigger] self.square(d)).wf()
    }

    /// `next` differs from `self` in the square of `dao_id` at most.
    pub open spec fn same_but_square(&self, next: &Self, dao_id: DaoId) -> bool {
        &&& forall|d: DaoId| d != dao_id ==> #[trigger] next.square(d) == self.square(d)
        &&& forall|a: AccountId| #[trigger] next.locks(a) == self.locks(a)
        &&& forall|a: AccountId| #[trigger] next.reserves(a) == self.reserves(a)
    }

    /// `next` differs from `self` in the square of `dao_id` and in the locks
    /// and reserves of `who` at most.
    pub open spec fn same_but(&self, next: &Self, dao_id: DaoId, who: AccountId) -> bool {
        &&& forall|d: DaoId| d != dao_id ==> #[trigger] next.square(d) == self.square(d)
        &&& forall|a: AccountId| a != who ==> #[trigger] next.locks(a) == self.locks(a)
        &&& forall|a: AccountId| a != who ==> #[trigger] next.reserves(a) == self.reserves(a)
    }

    /// The squares with no DAO yet.
    pub fn new() -> (r: Self)
        ensures
            r.wf(),
            forall|d: DaoId| #[trigger] r.square(d) == ReferendaView::empty(),
            forall|a: AccountId| #[trigger] r.locks(a) == Seq::<VoteLock<C, P>>::empty(),
            forall|a: AccountId| #[trigger] r.reserves(a) == Seq::<(Balance, BlockNumber)>::empty(),
    {
        Pallet {
            squares: HashMap::new(),
            votes_of: HashMap::new(),
            reserve_of: HashMap::new(),
            conviction: PhantomData,
        }
    }

    /// Takes the square of `dao_id` out, to be put back after a change.
    fn take(&mut self, dao_id: DaoId) -> (c: Referenda)
        requires
            old(self).wf(),
        ensures
            c@ == old(self).square(dao_id),
            c@.wf(),
            old(self).same_but_square(final(self), dao_id),
    {
        assert(self.square(dao_id).wf());
        let ghost before = *self;
        let c = match self.squares.remove(&dao_id.0) {
            Some(c) => c,
            None => Referenda::new(),
        };
        assert forall|d: DaoId| d != dao_id implies #[trigger] self.square(d) == before.square(
            d,
        ) by {
            assert(d.0 != dao_id.0);
        }
        c
    }

    /// Puts the square of `dao_id` back.
    fn put(&mut self, dao_id: DaoId, c: Referenda)
        ensures
            final(self).square(dao_id) == c@,
            old(self).same_but_square(final(self), dao_id),
    {
        let ghost before = *self;
        self.squares.insert(dao_id.0, c);
        assert forall|d: DaoId| d != dao_id implies #[trigger] self.square(d) == before.square(
            d,
        ) by {
            assert(d.0 != dao_id.0);
        }
    }

    /// Adds a deposit to what is reserved of `who`.
    fn push_reserve(&mut self, who: AccountId, amount: Balance, until: BlockNumber)
        ensures
            final(self).reserves(who) == old(self).reserves(who).push((amount, until)),
            forall|a: AccountId| a != who ==> #[trigger] final(self).reserves(a) == old(self).reserves(a),
            forall|a: AccountId| #[trigger] final(self).locks(a) == old(self).locks(a),
            forall|d: DaoId| #[trigger] final(self).square(d) == old(self).square(d),
    {
        let mut list = match self.reserve_of.remove(&who) {
            Some(l) => l,
            None => Vec::new(),
        };
        list.push((amount, until));
        self.reserve_of.insert(who, list);
    }

    /// The backing of the proposal that waits under `proposal` in the square
    /// of `dao_id`, if there is one.
    pub fn backing_for(&self, dao_id: DaoId, proposal: PropIndex) -> (r: Option<Balance>)
        requires
            self.wf(),
        ensures
            r == self.square(dao_id).backing_for(proposal),
    {
        assert(self.square(dao_id).wf());
        match self.squares.get(&dao_id.0) {
            Some(c) => c.backing_for(proposal),
            None => {
                assert(!ReferendaView::empty().has_prop(proposal));
                None
            },
        }
    }

    /// Others support initiating proposals: `backer` backs the proposal that
    /// waits under `proposal`. The same amount as the proposer's is to be
    /// reserved from the backer, and is free one reserve period after `now`.
    pub fn second(&mut self, backer: AccountId, dao_id: DaoId, proposal: PropIndex, now: BlockNumber) -> (r:
        Result<Reserve, DispatchError>)
        requires
            old(self).wf(),
        ensures
            final(self).wf(),
            old(self).same_but(final(self), dao_id, backer),
            forall|a: AccountId| #[trigger] final(self).locks(a) == old(self).locks(a),
            match old(self).square(dao_id).second_check(proposal, now) {
                Err(e) => r == Err::<Reserve, DispatchError>(DispatchError::Square(e)) && final(self).square(dao_id) == old(self).square(dao_id) && final(self).reserves(backer)
                    == old(self).reserves(backer),
                Ok((amount, until)) => r == Ok::<Reserve, DispatchError>(
                    Reserve { who: backer, amount },
                ) && final(self).square(dao_id) == old(self).square(dao_id).seconded(
                    backer,
                    proposal,
                ) && final(self).reserves(backer) == old(self).reserves(backer).push(
                    (amount, until),
                ),
            },
    {
        let mut c = self.take(dao_id);
        let res = c.second(backer, proposal, now);
        self.put(dao_id, c);
        match res {
            Err(e) => Err(DispatchError::Square(e)),
            Ok((amount, until)) => {
                self.push_reserve(backer, amount, until);
                Ok(Reserve { who: backer, amount })
            },
        }
    }
}

impl<C: Copy + BaseCallFilter<Action>, P, V> Pallet<C, P, V> {
    /// Initiate a proposal: queues `proposal` for a referendum of `dao_id`,
    /// with a deposit of `value` that is to be reserved from `who`.
    ///
    /// The DAO must exist and have the proposal on its allow-list; the deposit
    /// must be the DAO's minimum at least; and the queue must have room.
    pub fn propose(
        &mut self,
        daos: &crate::dao::Pallet<C>,
        who: AccountId,
        dao_id: DaoId,
        proposal: Action,
        value: Balance,
    ) -> (r: Result<Deposited, DispatchError>)
        requires
            old(self).wf(),
        ensures
            final(self).wf(),
            old(self).same_but_square(final(self), dao_id),
            match daos.allow_check(dao_id, proposal) {
                Err(e) => r == Err::<Deposited, DispatchError>(DispatchError::Dao(e)) && final(self).square(dao_id) == old(self).square(dao_id),
                Ok(()) => match old(self).square(dao_id).propose_check(value) {
                    Err(e) => r == Err::<Deposited, DispatchError>(DispatchError::Square(e))
                        && final(self).square(dao_id) == old(self).square(dao_id),
                    Ok(()) => final(self).square(dao_id) == old(self).square(dao_id).proposed(
                        who,
                        proposal@.hash(),
                        proposal@,
                        value,
                    ) && match r {
                        Ok(d) => d.index == old(self).square(dao_id).public_prop_count
                            && d.proposal_hash@ == proposal@.hash() && d.reserve == (Reserve {
                            who,
                            amount: value,
                        }),
                        Err(_) => false,
                    },
                },
            },
    {
        match daos.ensure_allowed(dao_id, &proposal) {
            Err(e) => {
                return Err(DispatchError::Dao(e));
            },
            Ok(()) => {},
        }
        let proposal_hash = proposal.hash();
        let mut c = self.take(dao_id);
        let res = c.propose(who, proposal_hash, proposal, value);
        self.put(dao_id, c);
        match res {
            Err(e) => Err(DispatchError::Square(e)),
            Ok(index) => Ok(
                Deposited { index, proposal_hash, reserve: Reserve { who, amount: value } },
            ),
        }
    }
}

impl<C: Copy, P, V> Pallet<C, P, V> {
    /// Open a referendum on the proposal of `dao_id` that has the greatest
    /// backing. Anyone may call, once the launch period allows it.
    pub fn open_table(
        &mut self,
        daos: &crate::dao::Pallet<C>,
        _who: AccountId,
        dao_id: DaoId,
        now: BlockNumber,
    ) -> (r: Result<ReferendumIndex, DispatchError>)
        requires
            old(self).wf(),
        ensures
            final(self).wf(),
            old(self).same_but_square(final(self), dao_id),
            if !daos.daos().contains_key(dao_id.0) {
                r == Err::<ReferendumIndex, DispatchError>(
                    DispatchError::Dao(crate::dao::Error::DaoNotExists),
                ) && final(self).square(dao_id) == old(self).square(dao_id)
            } else {
                match old(self).square(dao_id).launch_check(
                    now,
                    daos.daos()[dao_id.0].start_block,
                ) {
                    Err(e) => r == Err::<ReferendumIndex, DispatchError>(DispatchError::Square(e))
                        && final(self).square(dao_id) == old(self).square(dao_id),
                    Ok(()) => r == Ok::<ReferendumIndex, DispatchError>(
                        old(self).square(dao_id).referendums.len() as ReferendumIndex,
                    ) && final(self).square(dao_id) == old(self).square(dao_id).launched(now),
                }
            },
    {
        let dao_start = match daos.try_get_dao(dao_id) {
            Err(e) => {
                return Err(DispatchError::Dao(e));
            },
            Ok(info) => info.start_block,
        };
        let mut c = self.take(dao_id);
        let res = c.launch(now, dao_start);
        self.put(dao_id, c);
        match res {
            Err(e) => Err(DispatchError::Square(e)),
            Ok(index) => Ok(index),
        }
    }
}

/// What a sweep of an account set free.
#[derive(Debug, PartialEq, Eq)]
pub struct Unlocked<C, P> {
    /// The deposits that are to be unreserved, one amount for each.
    pub unreserved: Vec<Balance>,
    /// The locks that were released.
    pub released: Vec<VoteLock<C, P>>,
}

impl<C: Copy, P: Copy, V> Pallet<C, P, V> {
    /// Whether the referendum `index` of `dao_id` can be voted on at `now`.
    pub fn votable(&self, dao_id: DaoId, index: ReferendumIndex, now: BlockNumber) -> (r: Result<
        (),
        Error,
    >)
        ensures
            r == self.square(dao_id).votable(index, now),
    {
        match self.squares.get(&dao_id.0) {
            Some(c) => c.votable(index, now),
            None => Err(Error::ReferendumNotExists),
        }
    }

    /// Replaces the locks of `who`.
    fn set_locks(&mut self, who: AccountId, locks: Vec<VoteLock<C, P>>)
        ensures
            final(self).locks(who) == locks@,
            forall|a: AccountId| a != who ==> #[trigger] final(self).locks(a) == old(self).locks(a),
            forall|a: AccountId| #[trigger] final(self).reserves(a) == old(self).reserves(a),
            forall|d: DaoId| #[trigger] final(self).square(d) == old(self).square(d),
    {
        self.votes_of.insert(who, locks);
    }

    /// Takes the locks of `who` out, to be put back after a change.
    fn take_locks(&mut self, who: AccountId) -> (r: Vec<VoteLock<C, P>>)
        ensures
            r@ == old(self).locks(who),
            forall|a: AccountId| a != who ==> #[trigger] final(self).locks(a) == old(self).locks(a),
            forall|a: AccountId| #[trigger] final(self).reserves(a) == old(self).reserves(a),
            forall|d: DaoId| #[trigger] final(self).square(d) == old(self).square(d),
    {
        match self.votes_of.remove(&who) {
            Some(l) => l,
            None => Vec::new(),
        }
    }

    /// What recording a vote does, given what the pledge answered: the
    /// relation between the state before and after, and the result.
    ///
    /// The referendum must be open for votes at `now`. A pledge that refused
    /// refuses the vote. Else the weight is added to the side of the opinion
    /// and the voter gets a lock that ends after the duration; a tally or a
    /// time that does not fit is an overflow. A refused vote changes nothing.
    pub open spec fn vote_recorded(
        &self,
        next: &Self,
        who: AccountId,
        dao_id: DaoId,
        index: ReferendumIndex,
        concrete_id: C,
        pledge: P,
        opinion: Opinion,
        now: BlockNumber,
        outcome: Result<(Balance, BlockNumber), DispatchError>,
        r: Result<(), DispatchError>,
    ) -> bool {
        let square = self.square(dao_id);
        let unchanged = next.square(dao_id) == square && next.locks(who) == self.locks(who);
        match square.votable(index, now) {
            Err(e) => r == Err::<(), DispatchError>(DispatchError::Square(e)) && unchanged,
            Ok(()) => match outcome {
                Err(e) => r == Err::<(), DispatchError>(e) && unchanged,
                Ok((weight, duration)) => if now + duration > BlockNumber::MAX || add_overflows(
                    square.tally(index),
                    opinion,
                    weight,
                ) {
                    r == Err::<(), DispatchError>(DispatchError::Square(Error::Overflow))
                        && unchanged
                } else {
                    r == Ok::<(), DispatchError>(()) && next.square(dao_id) == square.with_tally(
                        index,
                        added(square.tally(index), opinion, weight),
                    ) && next.locks(who) == self.locks(who).push(
                        VoteInfo {
                            dao_id,
                            concrete_id,
                            pledge,
                            opinion,
                            vote_weight: weight,
                            unlock_block: (now + duration) as BlockNumber,
                            referendum_index: index,
                        },
                    )
                },
            },
        }
    }

    /// Records the vote of `who` on the referendum `index` of `dao_id`, once
    /// the pledge has been asked for its weight: `outcome` is the answer.
    pub fn record_vote(
        &mut self,
        who: AccountId,
        dao_id: DaoId,
        index: ReferendumIndex,
        concrete_id: C,
        pledge: P,
        opinion: Opinion,
        now: BlockNumber,
        outcome: Result<(Balance, BlockNumber), DispatchError>,
    ) -> (r: Result<(), DispatchError>)
        requires
            old(self).wf(),
        ensures
            final(self).wf(),
            old(self).same_but(final(self), dao_id, who),
            forall|a: AccountId| #[trigger] final(self).reserves(a) == old(self).reserves(a),
            old(self).vote_recorded(
                final(self),
                who,
                dao_id,
                index,
                concrete_id,
                pledge,
                opinion,
                now,
                outcome,
                r,
            ),
    {
        let ghost before = *self;
        let mut c = self.take(dao_id);
        match c.votable(index, now) {
            Err(e) => {
                self.put(dao_id, c);
                return Err(DispatchError::Square(e));
            },
            Ok(()) => {},
        }
        let (weight, duration) = match outcome {
            Err(e) => {
                self.put(dao_id, c);
                return Err(e);
            },
            Ok(t) => t,
        };
        let unlock_block = match now.checked_add(duration) {
            None => {
                self.put(dao_id, c);
                return Err(DispatchError::Square(Error::Overflow));
            },
            Some(t) => t,
        };
        let res = c.add_vote(index, opinion, weight);
        self.put(dao_id, c);
        match res {
            Err(e) => Err(DispatchError::Square(e)),
            Ok(()) => {
                let mut locks = self.take_locks(who);
                locks.push(
                    VoteInfo {
                        dao_id,
                        concrete_id,
                        pledge,
                        opinion,
                        vote_weight: weight,
                        unlock_block,
                        referendum_index: index,
                    },
                );
                self.set_locks(who, locks);
                Ok(())
            },
        }
    }

    /// Cancels the votes of `who` on the referendum `index` of `dao_id`, once
    /// the pledge behind each lock has been asked to release the stake:
    /// `released` says for each lock of `who`, in their order, whether it did.
    ///
    /// The referendum must be open for votes at `now`. A lock of that
    /// referendum whose stake was released goes, and its weight is taken off
    /// its side; every other lock stays.
    pub fn cancel_vote_settled(
        &mut self,
        who: AccountId,
        dao_id: DaoId,
        index: ReferendumIndex,
        now: BlockNumber,
        released: &Vec<bool>,
    ) -> (r: Result<(), DispatchError>)
        requires
            old(self).wf(),
        ensures
            final(self).wf(),
            old(self).same_but(final(self), dao_id, who),
            forall|a: AccountId| #[trigger] final(self).reserves(a) == old(self).reserves(a),
            match old(self).square(dao_id).votable(index, now) {
                Err(e) => r == Err::<(), DispatchError>(DispatchError::Square(e)) && final(self).square(dao_id) == old(self).square(dao_id) && final(self).locks(who) == old(self).locks(who),
                Ok(()) => r == Ok::<(), DispatchError>(()) && final(self).locks(who)
                    == cancel_kept(
                    old(self).locks(who),
                    released@,
                    dao_id,
                    index,
                    old(self).locks(who).len(),
                ) && final(self).square(dao_id) == old(self).square(dao_id).with_tally(
                    index,
                    cancel_tally(
                        old(self).locks(who),
                        released@,
                        dao_id,
                        index,
                        old(self).square(dao_id).tally(index),
                        old(self).locks(who).len(),
                    ),
                ),
            },
    {
        let mut c = self.take(dao_id);
        match c.votable(index, now) {
            Err(e) => {
                self.put(dao_id, c);
                return Err(DispatchError::Square(e));
            },
            Ok(()) => {},
        }
        let tally = match c.tally_of(index) {
            Some(t) => t,
            None => Tally { ayes: 0, nays: 0 },
        };
        let locks = self.take_locks(who);
        let (kept, next) = settle_cancel(&locks, released, dao_id, index, tally);
        c.set_tally(index, next);
        self.put(dao_id, c);
        self.set_locks(who, kept);
        Ok(())
    }

    /// Unreserve: sweeps the deposits of `who` at `now`. Every deposit that is
    /// free at `now` is to be unreserved and is forgotten; the amounts are
    /// handed out, one for each. The sweep never fails.
    pub fn unreserve(&mut self, who: AccountId, now: BlockNumber) -> (r: Vec<Balance>)
        ensures
            forall|d: DaoId| #[trigger] final(self).square(d) == old(self).square(d),
            forall|a: AccountId| #[trigger] final(self).locks(a) == old(self).locks(a),
            forall|a: AccountId|
                a != who ==> #[trigger] final(self).reserves(a) == old(self).reserves(a),
            final(self).reserves(who) == old(self).reserves(who).filter(still_reserved(now)),
            r@ == freed(old(self).reserves(who), now),
    {
        let reserves = match self.reserve_of.remove(&who) {
            Some(l) => l,
            None => Vec::new(),
        };
        let (still, unreserved) = settle_reserves(&reserves, now);
        self.reserve_of.insert(who, still);
        unreserved
    }

    /// Sweeps the account of `who` at `now`, once the pledge behind each lock
    /// whose time has come has been asked to release the stake: `released`
    /// says for each lock of `who`, in their order, whether it did.
    ///
    /// Every deposit that is free at `now` is to be unreserved and is
    /// forgotten. A lock whose time has come and whose stake was released
    /// goes; every other lock stays.
    pub fn unlock_settled(&mut self, who: AccountId, now: BlockNumber, released: &Vec<bool>) -> (r:
        Unlocked<C, P>)
        ensures
            forall|d: DaoId| #[trigger] final(self).square(d) == old(self).square(d),
            forall|a: AccountId| a != who ==> #[trigger] final(self).locks(a) == old(self).locks(a),
            forall|a: AccountId|
                a != who ==> #[trigger] final(self).reserves(a) == old(self).reserves(a),
            final(self).reserves(who) == old(self).reserves(who).filter(still_reserved(now)),
            r.unreserved@ == freed(old(self).reserves(who), now),
            final(self).locks(who) == unlock_kept(
                old(self).locks(who),
                released@,
                now,
                old(self).locks(who).len(),
            ),
            r.released@ == unlock_gone(
                old(self).locks(who),
                released@,
                now,
                old(self).locks(who).len(),
            ),
    {
        let unreserved = self.unreserve(who, now);
        let locks = self.take_locks(who);
        let (kept, gone) = settle_unlock(&locks, released, now);
        self.set_locks(who, kept);
        Unlocked { unreserved, released: gone }
    }

    /// Vote and execute the transaction corresponding to the proposal: enacts
    /// the referendum `index` of `dao_id` at `now`.
    ///
    /// A referendum that cannot be enacted yet stays open. One that is
    /// approved is finished and its proposal is to run under the DAO's own
    /// account; one that is rejected is finished and nothing runs.
    pub fn enact_proposal(
        &mut self,
        daos: &crate::dao::Pallet<C>,
        _who: AccountId,
        dao_id: DaoId,
        index: ReferendumIndex,
        now: BlockNumber,
    ) -> (r: Result<Enacted, DispatchError>)
        requires
            old(self).wf(),
        ensures
            final(self).wf(),
            old(self).same_but_square(final(self), dao_id),
            match old(self).square(dao_id).enact_check(index, now) {
                Err(e) => r == Err::<Enacted, DispatchError>(e) && final(self).square(dao_id)
                    == old(self).square(dao_id),
                Ok(false) => r == Ok::<Enacted, DispatchError>(Enacted::Rejected) && final(self).square(dao_id) == old(self).square(dao_id).finished(index, false, now),
                Ok(true) => if !daos.daos().contains_key(dao_id.0) {
                    r == Err::<Enacted, DispatchError>(
                        DispatchError::Dao(crate::dao::Error::DaoNotExists),
                    ) && final(self).square(dao_id) == old(self).square(dao_id)
                } else {
                    final(self).square(dao_id) == old(self).square(dao_id).finished(
                        index,
                        true,
                        now,
                    ) && match r {
                        Ok(Enacted::Approved(d)) => d.dao_account
                            == daos.daos()[dao_id.0].dao_account_id && d.call@ == old(self).square(dao_id).referendums[index as int]->Ongoing_proposal,
                        _ => false,
                    }
                },
            },
    {
        let mut c = self.take(dao_id);
        let approved = match c.enact_check(index, now) {
            Err(e) => {
                self.put(dao_id, c);
                return Err(e);
            },
            Ok(a) => a,
        };
        let dao_account = if approved {
            match daos.try_get_dao_account_id(dao_id) {
                Err(e) => {
                    self.put(dao_id, c);
                    return Err(DispatchError::Dao(e));
                },
                Ok(a) => a,
            }
        } else {
            0
        };
        let res = c.enact(index, now);
        self.put(dao_id, c);
        match res {
            Err(e) => Err(e),
            Ok(Some(call)) => Ok(Enacted::Approved(SignedDispatch { dao_account, call })),
            Ok(None) => Ok(Enacted::Rejected),
        }
    }
}

impl<
    C: Copy,
    P: Copy + Pledge<Balance, AccountId, DaoId, V, BlockNumber, DispatchError>,
    V,
> Pallet<C, P, V> {
    /// Vote for the referendum `index` of `dao_id`, staking `pledge`.
    ///
    /// The referendum must be open for votes at `now` and the DAO must exist;
    /// the pledge is asked only then. Whatever it answers, the vote is then
    /// recorded as `record_vote` records it for that answer.
    pub fn vote_for_referendum(
        &mut self,
        daos: &crate::dao::Pallet<C>,
        who: AccountId,
        dao_id: DaoId,
        index: ReferendumIndex,
        pledge: P,
        conviction: V,
        opinion: Opinion,
        now: BlockNumber,
    ) -> (r: Result<(), DispatchError>)
        requires
            old(self).wf(),
        ensures
            final(self).wf(),
            old(self).same_but(final(self), dao_id, who),
            forall|a: AccountId| #[trigger] final(self).reserves(a) == old(self).reserves(a),
            match old(self).square(dao_id).votable(index, now) {
                Err(e) => r == Err::<(), DispatchError>(DispatchError::Square(e)) && final(self).square(dao_id) == old(self).square(dao_id) && final(self).locks(who) == old(self).locks(who),
                Ok(()) => if !daos.daos().contains_key(dao_id.0) {
                    r == Err::<(), DispatchError>(
                        DispatchError::Dao(crate::dao::Error::DaoNotExists),
                    ) && final(self).square(dao_id) == old(self).square(dao_id) && final(self).locks(who) == old(self).locks(who)
                } else {
                    exists|outcome: Result<(Balance, BlockNumber), DispatchError>|
                        old(self).vote_recorded(
                            final(self),
                            who,
                            dao_id,
                            index,
                            daos.daos()[dao_id.0].concrete_id,
                            pledge,
                            opinion,
                            now,
                            outcome,
                            r,
                        )
                },
            },
    {
        match self.votable(dao_id, index, now) {
            Err(e) => {
                return Err(DispatchError::Square(e));
            },
            Ok(()) => {},
        }
        let concrete_id = match daos.try_get_concrete_id(dao_id) {
            Err(e) => {
                return Err(DispatchError::Dao(e));
            },
            Ok(c) => c,
        };
        let outcome = pledge.try_vote(&who, &dao_id, &conviction);
        self.record_vote(who, dao_id, index, concrete_id, pledge, opinion, now, outcome)
    }

    /// Cancel a vote on a referendum: cancels the votes of `who` on the
    /// referendum `index` of `dao_id`.
    ///
    /// The referendum must be open for votes at `now`; the pledges are asked
    /// only then, each lock of that referendum once. Whatever they answer,
    /// the votes are then cancelled as `cancel_vote_settled` cancels them for
    /// those answers: a lock whose stake was not released stays.
    pub fn cancel_vote(
        &mut self,
        who: AccountId,
        dao_id: DaoId,
        index: ReferendumIndex,
        now: BlockNumber,
    ) -> (r: Result<(), DispatchError>)
        requires
            old(self).wf(),
        ensures
            final(self).wf(),
            old(self).same_but(final(self), dao_id, who),
            forall|a: AccountId| #[trigger] final(self).reserves(a) == old(self).reserves(a),
            match old(self).square(dao_id).votable(index, now) {
                Err(e) => r == Err::<(), DispatchError>(DispatchError::Square(e)) && final(self).square(dao_id) == old(self).square(dao_id) && final(self).locks(who) == old(self).locks(who),
                Ok(()) => r == Ok::<(), DispatchError>(()) && exists|released: Seq<bool>|
                    released.len() == old(self).locks(who).len() && final(self).locks(who)
                        == cancel_kept(
                        old(self).locks(who),
                        released,
                        dao_id,
                        index,
                        old(self).locks(who).len(),
                    ) && final(self).square(dao_id) == old(self).square(dao_id).with_tally(
                        index,
                        cancel_tally(
                            old(self).locks(who),
                            released,
                            dao_id,
                            index,
                            old(self).square(dao_id).tally(index),
                            old(self).locks(who).len(),
                        ),
                    ),
            },
    {
        match self.votable(dao_id, index, now) {
            Err(e) => {
                return Err(DispatchError::Square(e));
            },
            Ok(()) => {},
        }
        let released = match self.votes_of.get(&who) {
            Some(locks) => release_matching(locks, who, dao_id, index),
            None => Vec::new(),
        };
        let ghost before = *self;
        let r = self.cancel_vote_settled(who, dao_id, index, now, &released);
        proof {
            let w = released@;
            assert(w.len() == before.locks(who).len());
            assert(self.locks(who) == cancel_kept(
                before.locks(who),
                w,
                dao_id,
                index,
                before.locks(who).len(),
            ));
        }
        r
    }

    /// Unlock: sweeps the account of `who` at `now`.
    ///
    /// The pledge behind each lock whose time has come is asked once to
    /// release the stake. Whatever they answer, the account is then swept as
    /// `unlock_settled` sweeps it for those answers: a lock whose stake was
    /// not released stays. The sweep itself never fails.
    pub fn unlock(&mut self, who: AccountId, now: BlockNumber) -> (r: Unlocked<C, P>)
        ensures
            forall|d: DaoId| #[trigger] final(self).square(d) == old(self).square(d),
            forall|a: AccountId| a != who ==> #[trigger] final(self).locks(a) == old(self).locks(a),
            forall|a: AccountId|
                a != who ==> #[trigger] final(self).reserves(a) == old(self).reserves(a),
            final(self).reserves(who) == old(self).reserves(who).filter(still_reserved(now)),
            r.unreserved@ == freed(old(self).reserves(who), now),
            exists|released: Seq<bool>|
                released.len() == old(self).locks(who).len() && final(self).locks(who)
                    == unlock_kept(old(self).locks(who), released, now, old(self).locks(who).len())
                    && r.released@ == unlock_gone(
                    old(self).locks(who),
                    released,
                    now,
                    old(self).locks(who).len(),
                ),
    {
        let released = match self.votes_of.get(&who) {
            Some(locks) => release_due(locks, who, now),
            None => Vec::new(),
        };
        let ghost before = *self;
        let r = self.unlock_settled(who, now, &released);
        proof {
            let w = released@;
            assert(w.len() == before.locks(who).len());
            assert(self.locks(who) == unlock_kept(
                before.locks(who),
                w,
                now,
                before.locks(who).len(),
            ));
        }
        r
    }
}

impl<C, P, V> Pallet<C, P, V> {
    /// Set the least combined weight that a referendum on a call of the kind
    /// `call_id` needs. The DAO's root alone may.
    pub fn set_min_vote_weight_for_every_call(
        &mut self,
        daos: &crate::dao::Pallet<C>,
        who: AccountId,
        dao_id: DaoId,
        call_id: RealCallId, min_vote_weight: Balance,
    ) -> (r: Result<(), DispatchError>)
        requires
            old(self).wf(),
        ensures
            final(self).wf(),
            old(self).same_but_square(final(self), dao_id),
            match daos.root_check(who, dao_id) {
                Err(e) => r == Err::<(), DispatchError>(DispatchError::Dao(e)) && final(self).square(
                    dao_id,
                ) == old(self).square(dao_id),
                Ok(_) => r == Ok::<(), DispatchError>(()) && final(self).square(dao_id) == (
                ReferendaView {
                    min_vote_weight: old(self).square(dao_id).min_vote_weight.insert(
                    call_id,
                    min_vote_weight,
                ),
                    ..old(self).square(dao_id)
                }),
            },
    {
        match daos.ensrue_dao_root(who, dao_id) {
            Err(e) => {
                return Err(DispatchError::Dao(e));
            },
            Ok(_) => {},
        }
        let mut c = self.take(dao_id);
        c.set_min_vote_weight(call_id, min_vote_weight);
        self.put(dao_id, c);
        Ok(())
    }

    /// Set the maximum number of proposals at the same time. The DAO's root alone may.
    pub fn set_max_public_props(
        &mut self,
        daos: &crate::dao::Pallet<C>,
        who: AccountId,
        dao_id: DaoId,
        max: u32,
    ) -> (r: Result<(), DispatchError>)
        requires
            old(self).wf(),
        ensures
            final(self).wf(),
            old(self).same_but_square(final(self), dao_id),
            match daos.root_check(who, dao_id) {
                Err(e) => r == Err::<(), DispatchError>(DispatchError::Dao(e)) && final(self).square(
                    dao_id,
                ) == old(self).square(dao_id),
                Ok(_) => r == Ok::<(), DispatchError>(()) && final(self).square(dao_id) == (
                ReferendaView {
                    max_public_props: max,
                    ..old(self).square(dao_id)
                }),
            },
    {
        match daos.ensrue_dao_root(who, dao_id) {
            Err(e) => {
                return Err(DispatchError::Dao(e));
            },
            Ok(_) => {},
        }
        let mut c = self.take(dao_id);
        c.set_max_public_props(max);
        self.put(dao_id, c);
        Ok(())
    }

    /// Set the referendum interval. The DAO's root alone may.
    pub fn set_launch_period(
        &mut self,
        daos: &crate::dao::Pallet<C>,
        who: AccountId,
        dao_id: DaoId,
        period: BlockNumber,
    ) -> (r: Result<(), DispatchError>)
        requires
            old(self).wf(),
        ensures
            final(self).wf(),
            old(self).same_but_square(final(self), dao_id),
            match daos.root_check(who, dao_id) {
                Err(e) => r == Err::<(), DispatchError>(DispatchError::Dao(e)) && final(self).square(
                    dao_id,
                ) == old(self).square(dao_id),
                Ok(_) => r == Ok::<(), DispatchError>(()) && final(self).square(dao_id) == (
                ReferendaView {
                    launch_period: period,
                    ..old(self).square(dao_id)
                }),
            },
    {
        match daos.ensrue_dao_root(who, dao_id) {
            Err(e) => {
                return Err(DispatchError::Dao(e));
            },
            Ok(_) => {},
        }
        let mut c = self.take(dao_id);
        c.set_launch_period(period);
        self.put(dao_id, c);
        Ok(())
    }

    /// Set the minimum amount a proposal needs to stake. The DAO's root alone may.
    pub fn set_minimum_deposit(
        &mut self,
        daos: &crate::dao::Pallet<C>,
        who: AccountId,
        dao_id: DaoId,
        min: Balance,
    ) -> (r: Result<(), DispatchError>)
        requires
            old(self).wf(),
        ensures
            final(self).wf(),
            old(self).same_but_square(final(self), dao_id),
            match daos.root_check(who, dao_id) {
                Err(e) => r == Err::<(), DispatchError>(DispatchError::Dao(e)) && final(self).square(
                    dao_id,
                ) == old(self).square(dao_id),
                Ok(_) => r == Ok::<(), DispatchError>(()) && final(self).square(dao_id) == (
                ReferendaView {
                    minimum_deposit: min,
                    ..old(self).square(dao_id)
                }),
            },
    {
        match daos.ensrue_dao_root(who, dao_id) {
            Err(e) => {
                return Err(DispatchError::Dao(e));
            },
            Ok(_) => {},
        }
        let mut c = self.take(dao_id);
        c.set_minimum_deposit(min);
        self.put(dao_id, c);
        Ok(())
    }

    /// Set the voting length of the referendum. The DAO's root alone may.
    pub fn set_voting_period(
        &mut self,
        daos: &crate::dao::Pallet<C>,
        who: AccountId,
        dao_id: DaoId,
        period: BlockNumber,
    ) -> (r: Result<(), DispatchError>)
        requires
            old(self).wf(),
        ensures
            final(self).wf(),
            old(self).same_but_square(final(self), dao_id),
            match daos.root_check(who, dao_id) {
                Err(e) => r == Err::<(), DispatchError>(DispatchError::Dao(e)) && final(self).square(
                    dao_id,
                ) == old(self).square(dao_id),
                Ok(_) => r == Ok::<(), DispatchError>(()) && final(self).square(dao_id) == (
                ReferendaView {
                    voting_period: period,
                    ..old(self).square(dao_id)
                }),
            },
    {
        match daos.ensrue_dao_root(who, dao_id) {
            Err(e) => {
                return Err(DispatchError::Dao(e));
            },
            Ok(_) => {},
        }
        let mut c = self.take(dao_id);
        c.set_voting_period(period);
        self.put(dao_id, c);
        Ok(())
    }

    /// Set the length of time that can be unreserved. The DAO's root alone may.
    pub fn set_rerserve_period(
        &mut self,
        daos: &crate::dao::Pallet<C>,
        who: AccountId,
        dao_id: DaoId,
        period: BlockNumber,
    ) -> (r: Result<(), DispatchError>)
        requires
            old(self).wf(),
        ensures
            final(self).wf(),
            old(self).same_but_square(final(self), dao_id),
            match daos.root_check(who, dao_id) {
                Err(e) => r == Err::<(), DispatchError>(DispatchError::Dao(e)) && final(self).square(
                    dao_id,
                ) == old(self).square(dao_id),
                Ok(_) => r == Ok::<(), DispatchError>(()) && final(self).square(dao_id) == (
                ReferendaView {
                    reserve_period: period,
                    ..old(self).square(dao_id)
                }),
            },
    {
        match daos.ensrue_dao_root(who, dao_id) {
            Err(e) => {
                return Err(DispatchError::Dao(e));
            },
            Ok(_) => {},
        }
        let mut c = self.take(dao_id);
        c.set_rerserve_period(period);
        self.put(dao_id, c);
        Ok(())
    }

    /// Set the time to delay the execution of the proposal. The DAO's root alone may.
    pub fn set_enactment_period(
        &mut self,
        daos: &crate::dao::Pallet<C>,
        who: AccountId,
        dao_id: DaoId,
        period: BlockNumber,
    ) -> (r: Result<(), DispatchError>)
        requires
            old(self).wf(),
        ensures
            final(self).wf(),
            old(self).same_but_square(final(self), dao_id),
            match daos.root_check(who, dao_id) {
                Err(e) => r == Err::<(), DispatchError>(DispatchError::Dao(e)) && final(self).square(
                    dao_id,
                ) == old(self).square(dao_id),
                Ok(_) => r == Ok::<(), DispatchError>(()) && final(self).square(dao_id) == (
                ReferendaView {
                    enactment_period: period,
                    ..old(self).square(dao_id)
                }),
            },
    {
        match daos.ensrue_dao_root(who, dao_id) {
            Err(e) => {
                return Err(DispatchError::Dao(e));
            },
            Ok(_) => {},
        }
        let mut c = self.take(dao_id);
        c.set_enactment_period(period);
        self.put(dao_id, c);
        Ok(())
    }
}

impl<C: Copy, P: Copy, V> Pallet<C, P, V> {
    /// Number of public proposals of `dao_id` so far.
    pub fn public_prop_count(&self, dao_id: DaoId) -> (r: PropIndex)
        ensures
            r == self.square(dao_id).public_prop_count,
    {
        match self.squares.get(&dao_id.0) {
            Some(c) => c.public_prop_count(),
            None => 0,
        }
    }

    /// Maximum number of public proposals of `dao_id` at one time.
    pub fn max_public_props(&self, dao_id: DaoId) -> (r: u32)
        ensures
            r == self.square(dao_id).max_public_props,
    {
        match self.squares.get(&dao_id.0) {
            Some(c) => c.max_public_props(),
            None => MaxPublicPropsOnEmpty(),
        }
    }

    /// How soon a referendum of `dao_id` can be called.
    pub fn launch_period(&self, dao_id: DaoId) -> (r: BlockNumber)
        ensures
            r == self.square(dao_id).launch_period,
    {
        match self.squares.get(&dao_id.0) {
            Some(c) => c.launch_period(),
            None => LaunchPeriodOnEmpty(),
        }
    }

    /// Minimum stake per person when making public proposals in `dao_id`.
    pub fn minimum_deposit(&self, dao_id: DaoId) -> (r: Balance)
        ensures
            r == self.square(dao_id).minimum_deposit,
    {
        match self.squares.get(&dao_id.0) {
            Some(c) => c.minimum_deposit(),
            None => 0,
        }
    }

    /// How long each proposal of `dao_id` can be voted on.
    pub fn voting_period(&self, dao_id: DaoId) -> (r: BlockNumber)
        ensures
            r == self.square(dao_id).voting_period,
    {
        match self.squares.get(&dao_id.0) {
            Some(c) => c.voting_period(),
            None => VotingPeriodOnEmpty(),
        }
    }

    /// How long it takes to release a deposit in `dao_id`.
    pub fn reserve_period(&self, dao_id: DaoId) -> (r: BlockNumber)
        ensures
            r == self.square(dao_id).reserve_period,
    {
        match self.squares.get(&dao_id.0) {
            Some(c) => c.reserve_period(),
            None => ReservePeriodOnEmpty(),
        }
    }

    /// How soon after voting closes a proposal of `dao_id` can be enacted.
    pub fn enactment_period(&self, dao_id: DaoId) -> (r: BlockNumber)
        ensures
            r == self.square(dao_id).enactment_period,
    {
        match self.squares.get(&dao_id.0) {
            Some(c) => c.enactment_period(),
            None => EnactmentPeriodOnEmpty(),
        }
    }

    /// The count that the launch of a referendum of `dao_id` is held against.
    pub fn launch_tag(&self, dao_id: DaoId) -> (r: BlockNumber)
        ensures
            r == self.square(dao_id).launch_tag,
    {
        match self.squares.get(&dao_id.0) {
            Some(c) => c.launch_tag(),
            None => 0,
        }
    }

    /// Number of referendums of `dao_id` so far.
    pub fn referendum_count(&self, dao_id: DaoId) -> (r: ReferendumIndex)
        requires
            self.wf(),
        ensures
            r == self.square(dao_id).referendums.len(),
    {
        assert(self.square(dao_id).wf());
        match self.squares.get(&dao_id.0) {
            Some(c) => c.referendum_count(),
            None => 0,
        }
    }

    /// Referendum specific information.
    pub fn referendum_info(&self, dao_id: DaoId, index: ReferendumIndex) -> (r: Option<
        ReferendumState,
    >)
        ensures
            r == if index < self.square(dao_id).referendums.len() {
                Some(self.square(dao_id).referendums[index as int].state())
            } else {
                None
            },
    {
        match self.squares.get(&dao_id.0) {
            Some(c) => c.referendum_info(index),
            None => None,
        }
    }

    /// Minimum voting weight required for a call of the kind `call_id` in
    /// `dao_id`.
    pub fn min_vote_weight_of(&self, dao_id: DaoId, call_id: RealCallId) -> (r: Balance)
        ensures
            r == self.square(dao_id).min_weight(call_id),
    {
        match self.squares.get(&dao_id.0) {
            Some(c) => c.min_vote_weight_of(call_id),
            None => 0,
        }
    }

    /// Those who have locked a deposit on the proposal under `proposal`.
    pub fn deposit_of(&self, dao_id: DaoId, proposal: PropIndex) -> (r: Option<
        (Vec<AccountId>, Balance),
    >)
        requires
            self.wf(),
        ensures
            match r {
                Some((backers, deposit)) => self.square(dao_id).has_prop(proposal) && backers@
                    == self.square(dao_id).public_props[self.square(dao_id).prop_place(
                    proposal,
                )].backers && deposit == self.square(dao_id).public_props[self.square(
                    dao_id,
                ).prop_place(proposal)].deposit,
                None => !self.square(dao_id).has_prop(proposal),
            },
    {
        assert(self.square(dao_id).wf());
        match self.squares.get(&dao_id.0) {
            Some(c) => c.deposit_of(proposal),
            None => {
                assert(!ReferendaView::empty().has_prop(proposal));
                None
            },
        }
    }

    /// Everyone's voting information: the locks of `who`.
    pub fn votes_of(&self, who: AccountId) -> (r: Vec<VoteLock<C, P>>)
        ensures
            r@ == self.locks(who),
    {
        match self.votes_of.get(&who) {
            Some(l) => vstd::slice::slice_to_vec(l.as_slice()),
            None => Vec::new(),
        }
    }

    /// Amount of proposal locked: the reserved deposits of `who`.
    pub fn reserve_of(&self, who: AccountId) -> (r: Vec<(Balance, BlockNumber)>)
        ensures
            r@ == self.reserves(who),
    {
        match self.reserve_of.get(&who) {
            Some(l) => vstd::slice::slice_to_vec(l.as_slice()),
            None => Vec::new(),
        }
    }
}

} // verus!
