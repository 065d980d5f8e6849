//! The emergency track: a proposal that runs under the DAO's own account
//! after a fixed period unless a member of the emergency group rejects it.
use std::collections::HashMap;
use vstd::prelude::*;
use crate::agency::members::contains;
use crate::doas::SignedDispatch;
use crate::error::DispatchError;
use crate::primitives::action::{Action, ActionView};
use crate::primitives::hashing::hash_eq;
use crate::primitives::ids::DaoId;
use crate::primitives::types::{AccountId, Balance, BlockNumber, ContentHash};

verus! {

broadcast use vstd::std_specs::hash::group_hash_axioms;

/// A proposal on the emergency track.
#[derive(Clone, Debug, PartialEq, Eq)]
pub struct ProposalInfo<AccountId, Call, Amount, BlockNumber> {
    /// The member who put it on the track; `None` where it came from outside.
    pub who: Option<AccountId>,
    /// From when on it may run, and until when it may be rejected.
    pub end_block: BlockNumber,
    /// The action that runs.
    pub call: Call,
    /// What its proposer has pledged.
    pub pledge: Amount,
    /// Why it is urgent.
    pub reason: Vec<u8>,
}

/// A proposal on the track, under its content hash.
#[derive(Clone, Debug, PartialEq, Eq)]
pub struct Urgent {
    pub hash: ContentHash,
    pub info: ProposalInfo<AccountId, Action, Balance, BlockNumber>,
}

/// The mathematical content of a `Urgent`.
pub struct UrgentView {
    pub hash: Seq<u8>,
    pub who: Option<AccountId>,
    pub end_block: BlockNumber,
    pub call: ActionView,
    pub pledge: Balance,
    pub reason: Seq<u8>,
}

impl View for Urgent {
    type V = UrgentView;

    open spec fn view(&self) -> UrgentView {
        UrgentView {
            hash: self.hash@,
            who: self.info.who,
            end_block: self.info.end_block,
            call: self.info.call@,
            pledge: self.info.pledge,
            reason: self.info.reason@,
        }
    }
}

/// Why the emergency track refused a call.
#[derive(Clone, Copy, Debug, PartialEq, Eq, Structural)]
pub enum Error {
    /// The end of the track does not fit the clock.
    StorageOverflow,
    /// The proposal is on the track already.
    ProposalAlreadyExists,
    /// No such proposal is on the track.
    ProposalNotExists,
    /// It is too late to reject the proposal, or too early to run it.
    ProposalEnded,
    /// The pledge is below the least that the system asks.
    PledgeTooLow,
    /// The caller is not in the emergency group of the DAO.
    NotEmergencyMembers,
    /// The caller may not do this.
    PermissionDenied,
}

/// The emergency track of one DAO.
#[derive(Clone, Debug, PartialEq, Eq)]
pub struct Track {
    pub(crate) members: Vec<AccountId>,
    pub(crate) pledge: Balance,
    pub(crate) proposals: Vec<Urgent>,
}

/// The mathematical content of a `Track`.
pub struct TrackView {
    /// The emergency group.
    pub members: Seq<AccountId>,
    /// The pledge that the DAO asks of a member who puts a proposal on the
    /// track.
    pub pledge: Balance,
    /// The proposals on the track, oldest first.
    pub proposals: Seq<UrgentView>,
}

impl View for Track {
    type V = TrackView;

    closed spec fn view(&self) -> TrackView {
        TrackView {
            members: self.members@,
            pledge: self.pledge,
            proposals: self.proposals@.map_values(|u: Urgent| u@),
        }
    }
}

impl TrackView {
    /// The track of a DAO that has set nothing.
    pub open spec fn empty() -> TrackView {
        TrackView { members: Seq::empty(), pledge: 0, proposals: Seq::empty() }
    }

    /// No two proposals on the track have the same hash.
    pub open spec fn wf(self) -> bool {
        forall|i: int, j: int|
            0 <= i < self.proposals.len() && 0 <= j < self.proposals.len() && i != j
                ==> self.proposals[i].hash != self.proposals[j].hash
    }

    /// Whether a proposal with this hash is on the track.
    pub open spec fn has(self, hash: Seq<u8>) -> bool {
        exists|i: int| 0 <= i < self.proposals.len() && self.proposals[i].hash == hash
    }

    /// The place of the proposal with this hash.
    pub open spec fn place(self, hash: Seq<u8>) -> int {
        choose|i: int| 0 <= i < self.proposals.len() && self.proposals[i].hash == hash
    }

    /// The proposal with this hash.
    pub open spec fn get(self, hash: Seq<u8>) -> UrgentView {
        self.proposals[self.place(hash)]
    }

    /// The track without the proposal with this hash.
    pub open spec fn without(self, hash: Seq<u8>) -> TrackView {
        if self.has(hash) {
            TrackView { proposals: self.proposals.remove(self.place(hash)), ..self }
        } else {
            self
        }
    }

    /// The pledge of a proposal put on the track by `who`: nothing from
    /// outside, else the greater of the system's least and the DAO's own.
    pub open spec fn pledge_for(self, who: Option<AccountId>, min_pledge: Balance) -> Balance {
        if who is None {
            0
        } else if min_pledge >= self.pledge {
            min_pledge
        } else {
            self.pledge
        }
    }

    /// Why a proposal cannot be put on the track at `now`.
    pub open spec fn track_check(self, hash: Seq<u8>, now: BlockNumber, period: BlockNumber) -> Result<
        (),
        Error,
    > {
        if self.has(hash) {
            Err(Error::ProposalAlreadyExists)
        } else if now + period > BlockNumber::MAX {
            Err(Error::StorageOverflow)
        } else {
            Ok(())
        }
    }

    /// The track after a proposal was put on it.
    pub open spec fn put_on(
        self,
        hash: Seq<u8>,
        call: ActionView,
        who: Option<AccountId>,
        reason: Seq<u8>,
        now: BlockNumber,
        period: BlockNumber,
        min_pledge: Balance,
    ) -> TrackView {
        TrackView {
            proposals: self.proposals.push(
                UrgentView {
                    hash,
                    who,
                    end_block: (now + period) as BlockNumber,
                    call,
                    pledge: self.pledge_for(who, min_pledge),
                    reason,
                },
            ),
            ..self
        }
    }

    /// Why `who` cannot reject the proposal with this hash at `now`.
    pub open spec fn reject_check(self, who: AccountId, hash: Seq<u8>, now: BlockNumber) -> Result<
        (),
        Error,
    > {
        if !self.members.contains(who) {
            Err(Error::NotEmergencyMembers)
        } else if !self.has(hash) {
            Err(Error::ProposalNotExists)
        } else if !(now < self.get(hash).end_block) {
            Err(Error::ProposalEnded)
        } else {
            Ok(())
        }
    }

    /// Why the proposal with this hash cannot run at `now`.
    pub open spec fn enact_check(self, hash: Seq<u8>, now: BlockNumber) -> Result<(), Error> {
        if !self.has(hash) {
            Err(Error::ProposalNotExists)
        } else if !(now >= self.get(hash).end_block) {
            Err(Error::ProposalEnded)
        } else {
            Ok(())
        }
    }
}

/// On a consistent track the proposal at a place is the proposal of its hash.
pub proof fn lemma_urgent_at(t: TrackView, i: int)
    requires
        t.wf(),
        0 <= i < t.proposals.len(),
    ensures
        t.has(t.proposals[i].hash),
        t.place(t.proposals[i].hash) == i,
{
    let h = t.proposals[i].hash;
    let k = t.place(h);
    assert(0 <= k < t.proposals.len() && t.proposals[k].hash == h);
}

/// The place of the first of `proposals` that has this hash.
pub fn find_proposal(proposals: &Vec<Urgent>, hash: &ContentHash) -> (r: Option<usize>)
    ensures
        match r {
            Some(i) => i < proposals.len() && proposals@[i as int].hash@ == hash@ && forall|j: int|
                0 <= j < i ==> proposals@[j].hash@ != hash@,
            None => forall|j: int| 0 <= j < proposals.len() ==> proposals@[j].hash@ != hash@,
        },
{
    let mut i: usize = 0;
    while i < proposals.len()
        invariant
            i <= proposals.len(),
            forall|j: int| 0 <= j < i ==> proposals@[j].hash@ != hash@,
        decreases proposals.len() - i,
    {
        if hash_eq(&proposals[i].hash, hash) {
            return Some(i);
        }
        i += 1;
    }
    None
}

/// The first of `proposals` that has this hash, if there is one.
pub fn get_proposal<'a>(proposals: &'a Vec<Urgent>, hash: &ContentHash) -> (r: Option<
    &'a ProposalInfo<AccountId, Action, Balance, BlockNumber>,
>)
    ensures
        match r {
            Some(info) => exists|i: int|
                0 <= i < proposals.len() && proposals@[i].hash@ == hash@ && *info
                    == proposals@[i].info && forall|j: int|
                    0 <= j < i ==> proposals@[j].hash@ != hash@,
            None => forall|j: int| 0 <= j < proposals.len() ==> proposals@[j].hash@ != hash@,
        },
{
    match find_proposal(proposals, hash) {
        Some(i) => Some(&proposals[i].info),
        None => None,
    }
}

/// What putting a proposal on the track led to.
#[derive(Debug, PartialEq, Eq)]
pub struct Tracking {
    /// The content hash of the proposal.
    pub proposal_hash: ContentHash,
    /// What its proposer has pledged.
    pub pledge: Balance,
}

/// What rejecting a proposal led to: whose pledge is to be slashed, and by
/// how much.
#[derive(Clone, Copy, Debug, PartialEq, Eq)]
pub struct Rejected {
    pub slash: Option<(AccountId, Balance)>,
}

/// What running a proposal led to.
#[derive(Debug, PartialEq, Eq)]
pub struct Enacted {
    /// Whose pledge is to be given back, and how much.
    pub unreserve: Option<(AccountId, Balance)>,
    /// The action that is to run under the DAO's own account.
    pub dispatch: SignedDispatch,
}

impl Track {
    /// The track of a DAO that has set nothing yet.
    pub fn new() -> (r: Self)
        ensures
            r@ == TrackView::empty(),
            r@.wf(),
    {
        let r = Track { members: Vec::new(), pledge: 0, proposals: Vec::new() };
        assert(r@.proposals =~= Seq::empty());
        r
    }

    /// The place of the proposal with this hash.
    fn find(&self, hash: &ContentHash) -> (r: Option<usize>)
        ensures
            self@.proposals.len() == self.proposals.len(),
            match r {
                Some(i) => i < self.proposals.len() && self@.proposals[i as int].hash == hash@
                    && self@.has(hash@),
                None => !self@.has(hash@),
            },
    {
        assert(self@.proposals.len() == self.proposals.len());
        assert forall|j: int| 0 <= j < self.proposals.len() implies self@.proposals[j].hash
            == self.proposals@[j].hash@ by {}
        find_proposal(&self.proposals, hash)
    }

    /// Puts `call` on the track under the hash given for it.
    pub fn try_propose(
        &mut self,
        hash: ContentHash,
        call: Action,
        who: Option<AccountId>,
        reason: Vec<u8>,
        now: BlockNumber,
        period: BlockNumber,
        min_pledge: Balance,
    ) -> (r: Result<Balance, Error>)
        requires
            old(self)@.wf(),
        ensures
            final(self)@.wf(),
            match old(self)@.track_check(hash@, now, period) {
                Err(e) => r == Err::<Balance, Error>(e) && final(self)@ == old(self)@,
                Ok(()) => r == Ok::<Balance, Error>(old(self)@.pledge_for(who, min_pledge))
                    && final(self)@ == old(self)@.put_on(
                    hash@,
                    call@,
                    who,
                    reason@,
                    now,
                    period,
                    min_pledge,
                ),
            },
    {
        if self.find(&hash).is_some() {
            return Err(Error::ProposalAlreadyExists);
        }
        let end_block = match now.checked_add(period) {
            Some(t) => t,
            None => {
                return Err(Error::StorageOverflow);
            },
        };
        let pledge: Balance = match who {
            None => 0,
            Some(_) => if min_pledge >= self.pledge {
                min_pledge
            } else {
                self.pledge
            },
        };
        let ghost before = self@;
        let ghost target = before.put_on(hash@, call@, who, reason@, now, period, min_pledge);
        self.proposals.push(
            Urgent { hash, info: ProposalInfo { who, end_block, call, pledge, reason } },
        );
        assert(self@.proposals =~= target.proposals);
        assert(self@.wf()) by {
            let q = self@.proposals;
            let n = before.proposals.len() as int;
            assert forall|i: int, j: int| 0 <= i < q.len() && 0 <= j < q.len() && i != j implies q[i].hash
                != q[j].hash by {
                if i < n {
                    assert(q[i] == before.proposals[i]);
                }
                if j < n {
                    assert(q[j] == before.proposals[j]);
                }
            }
        }
        Ok(pledge)
    }

    /// Takes the proposal with this hash off the track and hands it out.
    fn take_out(&mut self, i: usize) -> (t: Urgent)
        requires
            old(self)@.wf(),
            i < old(self)@.proposals.len(),
        ensures
            final(self)@.wf(),
            t@ == old(self)@.proposals[i as int],
            final(self)@ == old(self)@.without(old(self)@.proposals[i as int].hash),
    {
        proof {
            lemma_urgent_at(self@, i as int);
        }
        let ghost before = self@;
        assert(self@.proposals.len() == self.proposals.len());
        let t = self.proposals.remove(i);
        assert(self@.proposals =~= before.proposals.remove(i as int));
        assert(self@.wf()) by {
            let q = self@.proposals;
            assert forall|a: int, b: int| 0 <= a < q.len() && 0 <= b < q.len() && a != b implies q[a].hash
                != q[b].hash by {
                let a0 = if a < i { a } else { a + 1 };
                let b0 = if b < i { b } else { b + 1 };
                assert(q[a] == before.proposals[a0] && q[b] == before.proposals[b0]);
            }
        }
        t
    }

    /// Rejects the proposal with this hash: a member of the emergency group
    /// may, until the proposal's end. The proposal leaves the track and the
    /// pledge of its proposer is to be slashed.
    pub fn reject(&mut self, who: AccountId, hash: &ContentHash, now: BlockNumber) -> (r: Result<
        Rejected,
        Error,
    >)
        requires
            old(self)@.wf(),
        ensures
            final(self)@.wf(),
            match old(self)@.reject_check(who, hash@, now) {
                Err(e) => r == Err::<Rejected, Error>(e) && final(self)@ == old(self)@,
                Ok(()) => final(self)@ == old(self)@.without(hash@) && r == Ok::<Rejected, Error>(
                    Rejected {
                        slash: match old(self)@.get(hash@).who {
                            Some(p) => Some((p, old(self)@.get(hash@).pledge)),
                            None => None,
                        },
                    },
                ),
            },
    {
        if !contains(&self.members, who) {
            return Err(Error::NotEmergencyMembers);
        }
        let i = match self.find(hash) {
            Some(i) => i,
            None => {
                return Err(Error::ProposalNotExists);
            },
        };
        proof {
            lemma_urgent_at(self@, i as int);
        }
        assert(self@.proposals[i as int] == self.proposals[i as int]@);
        if !(now < self.proposals[i].info.end_block) {
            return Err(Error::ProposalEnded);
        }
        let t = self.take_out(i);
        let slash = match t.info.who {
            Some(p) => Some((p, t.info.pledge)),
            None => None,
        };
        Ok(Rejected { slash })
    }

    /// Whether the proposal with this hash can run at `now`.
    pub fn enact_check(&self, hash: &ContentHash, now: BlockNumber) -> (r: Result<(), Error>)
        requires
            self@.wf(),
        ensures
            r == self@.enact_check(hash@, now),
    {
        let i = match self.find(hash) {
            Some(i) => i,
            None => {
                return Err(Error::ProposalNotExists);
            },
        };
        proof {
            lemma_urgent_at(self@, i as int);
        }
        assert(self@.proposals[i as int] == self.proposals[i as int]@);
        if !(now >= self.proposals[i].info.end_block) {
            return Err(Error::ProposalEnded);
        }
        Ok(())
    }

    /// Takes the proposal with this hash off the track to run it: anyone
    /// may, from the proposal's end on. The pledge of its proposer is to be
    /// given back.
    pub fn enact(&mut self, hash: &ContentHash, now: BlockNumber) -> (r: Result<
        (Option<(AccountId, Balance)>, Action),
        Error,
    >)
        requires
            old(self)@.wf(),
        ensures
            final(self)@.wf(),
            match old(self)@.enact_check(hash@, now) {
                Err(e) => r == Err::<(Option<(AccountId, Balance)>, Action), Error>(e) && final(self)@ == old(self)@,
                Ok(()) => final(self)@ == old(self)@.without(hash@) && match r {
                    Ok((unreserve, call)) => call@ == old(self)@.get(hash@).call && unreserve
                        == match old(self)@.get(hash@).who {
                        Some(p) => Some((p, old(self)@.get(hash@).pledge)),
                        None => None,
                    },
                    Err(_) => false,
                },
            },
    {
        let i = match self.find(hash) {
            Some(i) => i,
            None => {
                return Err(Error::ProposalNotExists);
            },
        };
        proof {
            lemma_urgent_at(self@, i as int);
        }
        assert(self@.proposals[i as int] == self.proposals[i as int]@);
        if !(now >= self.proposals[i].info.end_block) {
            return Err(Error::ProposalEnded);
        }
        let t = self.take_out(i);
        let unreserve = match t.info.who {
            Some(p) => Some((p, t.info.pledge)),
            None => None,
        };
        Ok((unreserve, t.info.call))
    }

    /// Replaces the emergency group.
    pub fn set_members(&mut self, members: Vec<AccountId>)
        requires
            old(self)@.wf(),
        ensures
            final(self)@.wf(),
            final(self)@ == (TrackView { members: members@, ..old(self)@ }),
    {
        self.members = members;
    }

    /// Sets the pledge that the DAO asks.
    pub fn set_pledge(&mut self, amount: Balance)
        requires
            old(self)@.wf(),
        ensures
            final(self)@.wf(),
            final(self)@ == (TrackView { pledge: amount, ..old(self)@ }),
    {
        self.pledge = amount;
    }

    /// The proposal with this hash, if it is on the track.
    pub fn proposal_of(&self, hash: &ContentHash) -> (r: Option<
        &ProposalInfo<AccountId, Action, Balance, BlockNumber>,
    >)
        requires
            self@.wf(),
        ensures
            match r {
                Some(info) => self@.has(hash@) && info.who == self@.get(hash@).who
                    && info.end_block == self@.get(hash@).end_block && info.call@ == self@.get(
                    hash@,
                ).call && info.pledge == self@.get(hash@).pledge && info.reason@ == self@.get(
                    hash@,
                ).reason,
                None => !self@.has(hash@),
            },
    {
        assert(self@.proposals.len() == self.proposals.len());
        assert forall|j: int| 0 <= j < self.proposals.len() implies self@.proposals[j]
            == self.proposals@[j]@ by {}
        let r = get_proposal(&self.proposals, hash);
        proof {
            match r {
                Some(info) => {
                    let i = choose|i: int|
                        0 <= i < self.proposals.len() && self.proposals@[i].hash@ == hash@ && *info
                            == self.proposals@[i].info;
                    assert(self@.proposals[i].hash == hash@);
                    lemma_urgent_at(self@, i);
                },
                None => {
                    if self@.has(hash@) {
                        let k = self@.place(hash@);
                        assert(self.proposals@[k].hash@ == hash@);
                    }
                },
            }
        }
        r
    }

    /// The hashes of the proposals on the track, oldest first.
    pub fn hashes(&self) -> (r: Vec<ContentHash>)
        ensures
            r@.len() == self@.proposals.len(),
            forall|i: int| 0 <= i < r@.len() ==> (#[trigger] r@[i])@ == self@.proposals[i].hash,
    {
        let mut out: Vec<ContentHash> = Vec::new();
        let mut i: usize = 0;
        while i < self.proposals.len()
            invariant
                i <= self.proposals.len(),
                self@.proposals.len() == self.proposals.len(),
                out@.len() == i,
                forall|k: int| 0 <= k < i ==> (#[trigger] out@[k])@ == self@.proposals[k].hash,
            decreases self.proposals.len() - i,
        {
            out.push(self.proposals[i].hash);
            i += 1;
        }
        out
    }

    /// The emergency group.
    pub fn members(&self) -> (r: &Vec<AccountId>)
        ensures
            r@ == self@.members,
    {
        &self.members
    }

    /// The pledge that the DAO asks.
    pub fn pledge(&self) -> (r: Balance)
        ensures
            r == self@.pledge,
    {
        self.pledge
    }

    /// Whether `who` is in the emergency group.
    pub fn is_member(&self, who: AccountId) -> (r: bool)
        ensures
            r == self@.members.contains(who),
    {
        contains(&self.members, who)
    }
}

/// The emergency tracks of all DAOs.
pub struct Pallet {
    tracks: HashMap<u64, Track>,
    min_pledge: Balance,
    track_period: BlockNumber,
}

impl Pallet {
    /// The track of a DAO. A DAO that has set nothing has an empty one.
    pub closed spec fn track(&self, dao_id: DaoId) -> TrackView {
        if self.tracks@.contains_key(dao_id.0) {
            self.tracks@[dao_id.0]@
        } else {
            TrackView::empty()
        }
    }

    /// The least pledge that the system asks.
    pub closed spec fn min_pledge(&self) -> Balance {
        self.min_pledge
    }

    /// How long a proposal stays on the track before it may run.
    pub closed spec fn track_period(&self) -> BlockNumber {
        self.track_period
    }

    /// Every track is consistent.
    pub open spec fn wf(&self) -> bool {
        forall|d: DaoId| (#[trigger] self.track(d)).wf()
    }

    /// `next` differs from `self` in the track of `dao_id` at most.
    pub open spec fn same_but_track(&self, next: &Self, dao_id: DaoId) -> bool {
        &&& next.min_pledge() == self.min_pledge()
        &&& next.track_period() == self.track_period()
        &&& forall|d: DaoId| d != dao_id ==> #[trigger] next.track(d) == self.track(d)
    }

    /// The tracks with no DAO yet.
    pub fn new(min_pledge: Balance, track_period: BlockNumber) -> (r: Self)
        ensures
            r.wf(),
            r.min_pledge() == min_pledge,
            r.track_period() == track_period,
            forall|d: DaoId| #[trigger] r.track(d) == TrackView::empty(),
    {
        Pallet { tracks: HashMap::new(), min_pledge, track_period }
    }

    /// Takes the track of `dao_id` out, to be put back after a change.
    fn take(&mut self, dao_id: DaoId) -> (t: Track)
        requires
            old(self).wf(),
        ensures
            t@ == old(self).track(dao_id),
            t@.wf(),
            old(self).same_but_track(final(self), dao_id),
    {
        assert(self.track(dao_id).wf());
        let ghost before = *self;
        let t = match self.tracks.remove(&dao_id.0) {
            Some(t) => t,
            None => Track::new(),
        };
        assert forall|d: DaoId| d != dao_id implies #[trigger] self.track(d) == before.track(
            d,
        ) by {
            assert(d.0 != dao_id.0);
        }
        t
    }

    /// Puts the track of `dao_id` back.
    fn put(&mut self, dao_id: DaoId, t: Track)
        ensures
            final(self).track(dao_id) == t@,
            old(self).same_but_track(final(self), dao_id),
    {
        let ghost before = *self;
        self.tracks.insert(dao_id.0, t);
        assert forall|d: DaoId| d != dao_id implies #[trigger] self.track(d) == before.track(
            d,
        ) by {
            assert(d.0 != dao_id.0);
        }
    }

    /// Replaces the emergency group of `dao_id`. The DAO's root alone may.
    pub fn set_members<C>(
        &mut self,
        daos: &crate::dao::Pallet<C>,
        who: AccountId,
        dao_id: DaoId,
        members: Vec<AccountId>,
    ) -> (r: Result<(), DispatchError>)
        requires
            old(self).wf(),
        ensures
            final(self).wf(),
            old(self).same_but_track(final(self), dao_id),
            match daos.root_check(who, dao_id) {
                Err(e) => r == Err::<(), DispatchError>(DispatchError::Dao(e)) && final(self).track(
                    dao_id,
                ) == old(self).track(dao_id),
                Ok(_) => r == Ok::<(), DispatchError>(()) && final(self).track(dao_id) == (
                TrackView { members: members@, ..old(self).track(dao_id) }),
            },
    {
        match daos.ensrue_dao_root(who, dao_id) {
            Err(e) => {
                return Err(DispatchError::Dao(e));
            },
            Ok(_) => {},
        }
        let mut t = self.take(dao_id);
        t.set_members(members);
        self.put(dao_id, t);
        Ok(())
    }

    /// Sets the pledge that `dao_id` asks, which must be the system's least
    /// at least. The DAO's root alone may.
    pub fn set_pledge<C>(
        &mut self,
        daos: &crate::dao::Pallet<C>,
        who: AccountId,
        dao_id: DaoId,
        amount: Balance,
    ) -> (r: Result<(), DispatchError>)
        requires
            old(self).wf(),
        ensures
            final(self).wf(),
            old(self).same_but_track(final(self), dao_id),
            match daos.root_check(who, dao_id) {
                Err(e) => r == Err::<(), DispatchError>(DispatchError::Dao(e)) && final(self).track(
                    dao_id,
                ) == old(self).track(dao_id),
                Ok(_) => if amount < old(self).min_pledge() {
                    r == Err::<(), DispatchError>(DispatchError::Emergency(Error::PledgeTooLow))
                        && final(self).track(dao_id) == old(self).track(dao_id)
                } else {
                    r == Ok::<(), DispatchError>(()) && final(self).track(dao_id) == (TrackView {
                        pledge: amount,
                        ..old(self).track(dao_id)
                    })
                },
            },
    {
        match daos.ensrue_dao_root(who, dao_id) {
            Err(e) => {
                return Err(DispatchError::Dao(e));
            },
            Ok(_) => {},
        }
        if amount < self.min_pledge {
            return Err(DispatchError::Emergency(Error::PledgeTooLow));
        }
        let mut t = self.take(dao_id);
        t.set_pledge(amount);
        self.put(dao_id, t);
        Ok(())
    }

    /// Puts `proposal` on the track of `dao_id`, for `who` or from outside.
    fn try_propose(
        &mut self,
        dao_id: DaoId,
        proposal: Action,
        who: Option<AccountId>,
        reason: Vec<u8>,
        now: BlockNumber,
    ) -> (r: Result<Tracking, DispatchError>)
        requires
            old(self).wf(),
        ensures
            final(self).wf(),
            old(self).same_but_track(final(self), dao_id),
            match old(self).track(dao_id).track_check(
                proposal@.hash(),
                now,
                old(self).track_period(),
            ) {
                Err(e) => r == Err::<Tracking, DispatchError>(DispatchError::Emergency(e)) && final(self).track(dao_id) == old(self).track(dao_id),
                Ok(()) => final(self).track(dao_id) == old(self).track(dao_id).put_on(
                    proposal@.hash(),
                    proposal@,
                    who,
                    reason@,
                    now,
                    old(self).track_period(),
                    old(self).min_pledge(),
                ) && match r {
                    Ok(t) => t.proposal_hash@ == proposal@.hash() && t.pledge == old(self).track(
                        dao_id,
                    ).pledge_for(who, old(self).min_pledge()),
                    Err(_) => false,
                },
            },
    {
        let proposal_hash = proposal.hash();
        let mut t = self.take(dao_id);
        let res = t.try_propose(
            proposal_hash,
            proposal,
            who,
            reason,
            now,
            self.track_period,
            self.min_pledge,
        );
        self.put(dao_id, t);
        match res {
            Err(e) => Err(DispatchError::Emergency(e)),
            Ok(pledge) => Ok(Tracking { proposal_hash, pledge }),
        }
    }

    /// Puts a proposal from outside the DAO on its emergency track. Who may
    /// do so is decided before this call.
    pub fn external_track(
        &mut self,
        dao_id: DaoId,
        proposal: Action,
        reason: Vec<u8>,
        now: BlockNumber,
    ) -> (r: Result<Tracking, DispatchError>)
        requires
            old(self).wf(),
        ensures
            final(self).wf(),
            old(self).same_but_track(final(self), dao_id),
            match old(self).track(dao_id).track_check(
                proposal@.hash(),
                now,
                old(self).track_period(),
            ) {
                Err(e) => r == Err::<Tracking, DispatchError>(DispatchError::Emergency(e)) && final(self).track(dao_id) == old(self).track(dao_id),
                Ok(()) => final(self).track(dao_id) == old(self).track(dao_id).put_on(
                    proposal@.hash(),
                    proposal@,
                    None,
                    reason@,
                    now,
                    old(self).track_period(),
                    old(self).min_pledge(),
                ) && match r {
                    Ok(t) => t.proposal_hash@ == proposal@.hash() && t.pledge == 0,
                    Err(_) => false,
                },
            },
    {
        self.try_propose(dao_id, proposal, None, reason, now)
    }

    /// Puts a proposal of a member of the emergency group on the track.
    pub fn internal_track(
        &mut self,
        who: AccountId,
        dao_id: DaoId,
        proposal: Action,
        reason: Vec<u8>,
        now: BlockNumber,
    ) -> (r: Result<Tracking, DispatchError>)
        requires
            old(self).wf(),
        ensures
            final(self).wf(),
            old(self).same_but_track(final(self), dao_id),
            if !old(self).track(dao_id).members.contains(who) {
                r == Err::<Tracking, DispatchError>(
                    DispatchError::Emergency(Error::NotEmergencyMembers),
                ) && final(self).track(dao_id) == old(self).track(dao_id)
            } else {
                match old(self).track(dao_id).track_check(
                    proposal@.hash(),
                    now,
                    old(self).track_period(),
                ) {
                    Err(e) => r == Err::<Tracking, DispatchError>(DispatchError::Emergency(e))
                        && final(self).track(dao_id) == old(self).track(dao_id),
                    Ok(()) => final(self).track(dao_id) == old(self).track(dao_id).put_on(
                        proposal@.hash(),
                        proposal@,
                        Some(who),
                        reason@,
                        now,
                        old(self).track_period(),
                        old(self).min_pledge(),
                    ) && match r {
                        Ok(t) => t.proposal_hash@ == proposal@.hash() && t.pledge == old(self).track(dao_id).pledge_for(Some(who), old(self).min_pledge()),
                        Err(_) => false,
                    },
                }
            },
    {
        let member = match self.tracks.get(&dao_id.0) {
            Some(t) => t.is_member(who),
            None => {
                assert(!Seq::<AccountId>::empty().contains(who));
                false
            },
        };
        if !member {
            return Err(DispatchError::Emergency(Error::NotEmergencyMembers));
        }
        self.try_propose(dao_id, proposal, Some(who), reason, now)
    }

    /// Rejects a proposal on the track of `dao_id`: a member of the emergency
    /// group may, until the proposal's end.
    pub fn reject(&mut self, who: AccountId, dao_id: DaoId, proposal_hash: ContentHash, now: BlockNumber) -> (r:
        Result<Rejected, DispatchError>)
        requires
            old(self).wf(),
        ensures
            final(self).wf(),
            old(self).same_but_track(final(self), dao_id),
            match old(self).track(dao_id).reject_check(who, proposal_hash@, now) {
                Err(e) => r == Err::<Rejected, DispatchError>(DispatchError::Emergency(e)) && final(self).track(dao_id) == old(self).track(dao_id),
                Ok(()) => final(self).track(dao_id) == old(self).track(dao_id).without(
                    proposal_hash@,
                ) && r == Ok::<Rejected, DispatchError>(
                    Rejected {
                        slash: match old(self).track(dao_id).get(proposal_hash@).who {
                            Some(p) => Some((p, old(self).track(dao_id).get(proposal_hash@).pledge)),
                            None => None,
                        },
                    },
                ),
            },
    {
        let mut t = self.take(dao_id);
        let res = t.reject(who, &proposal_hash, now);
        self.put(dao_id, t);
        match res {
            Err(e) => Err(DispatchError::Emergency(e)),
            Ok(r) => Ok(r),
        }
    }

    /// Runs a proposal on the track of `dao_id` under the DAO's own account:
    /// anyone may, from the proposal's end on.
    pub fn enact_proposal<C>(
        &mut self,
        daos: &crate::dao::Pallet<C>,
        _who: AccountId,
        dao_id: DaoId,
        proposal_hash: ContentHash,
        now: BlockNumber,
    ) -> (r: Result<Enacted, DispatchError>)
        requires
            old(self).wf(),
        ensures
            final(self).wf(),
            old(self).same_but_track(final(self), dao_id),
            match old(self).track(dao_id).enact_check(proposal_hash@, now) {
                Err(e) => r == Err::<Enacted, DispatchError>(DispatchError::Emergency(e)) && final(self).track(dao_id) == old(self).track(dao_id),
                Ok(()) => if !daos.daos().contains_key(dao_id.0) {
                    r == Err::<Enacted, DispatchError>(
                        DispatchError::Dao(crate::dao::Error::DaoNotExists),
                    ) && final(self).track(dao_id) == old(self).track(dao_id)
                } else {
                    final(self).track(dao_id) == old(self).track(dao_id).without(proposal_hash@)
                        && match r {
                        Ok(e) => e.dispatch.dao_account == daos.daos()[dao_id.0].dao_account_id
                            && e.dispatch.call@ == old(self).track(dao_id).get(
                            proposal_hash@,
                        ).call && e.unreserve == match old(self).track(dao_id).get(
                            proposal_hash@,
                        ).who {
                            Some(p) => Some(
                                (p, old(self).track(dao_id).get(proposal_hash@).pledge),
                            ),
                            None => None,
                        },
                        Err(_) => false,
                    }
                },
            },
    {
        let dao_account = daos.try_get_dao_account_id(dao_id);
        let mut t = self.take(dao_id);
        match t.enact_check(&proposal_hash, now) {
            Err(e) => {
                self.put(dao_id, t);
                return Err(DispatchError::Emergency(e));
            },
            Ok(()) => {},
        }
        let dao_account = match dao_account {
            Err(e) => {
                self.put(dao_id, t);
                return Err(DispatchError::Dao(e));
            },
            Ok(a) => a,
        };
        let res = t.enact(&proposal_hash, now);
        self.put(dao_id, t);
        match res {
            Err(e) => Err(DispatchError::Emergency(e)),
            Ok((unreserve, call)) => Ok(
                Enacted { unreserve, dispatch: SignedDispatch { dao_account, call } },
            ),
        }
    }

    /// The emergency group of `dao_id`.
    pub fn members(&self, dao_id: DaoId) -> (r: Vec<AccountId>)
        ensures
            r@ == self.track(dao_id).members,
    {
        match self.tracks.get(&dao_id.0) {
            Some(t) => vstd::slice::slice_to_vec(t.members().as_slice()),
            None => Vec::new(),
        }
    }

    /// The pledge that `dao_id` asks.
    pub fn pledge_of(&self, dao_id: DaoId) -> (r: Balance)
        ensures
            r == self.track(dao_id).pledge,
    {
        match self.tracks.get(&dao_id.0) {
            Some(t) => t.pledge(),
            None => 0,
        }
    }

    /// The hashes of the proposals on the track of `dao_id`, oldest first.
    pub fn hashes_of(&self, dao_id: DaoId) -> (r: Vec<ContentHash>)
        ensures
            r@.len() == self.track(dao_id).proposals.len(),
            forall|i: int|
                0 <= i < r@.len() ==> (#[trigger] r@[i])@ == self.track(dao_id).proposals[i].hash,
    {
        match self.tracks.get(&dao_id.0) {
            Some(t) => t.hashes(),
            None => Vec::new(),
        }
    }

    /// Whether a proposal with this hash is on the track of `dao_id`.
    pub fn contains_key(&self, dao_id: DaoId, proposal_hash: &ContentHash) -> (r: bool)
        requires
            self.wf(),
        ensures
            r == self.track(dao_id).has(proposal_hash@),
    {
        assert(self.track(dao_id).wf());
        match self.tracks.get(&dao_id.0) {
            Some(t) => t.proposal_of(proposal_hash).is_some(),
            None => {
                assert(!TrackView::empty().has(proposal_hash@));
                false
            },
        }
    }
}

} // verus!
