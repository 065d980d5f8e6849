use std::collections::HashMap;
use vstd::prelude::*;
use crate::primitives::action::{Action, ActionView};
use crate::primitives::types::{AccountId, Balance, BlockNumber, ContentHash, RealCallId};
use crate::error::DispatchError;
use crate::square::errors::Error;
use crate::square::types::{
    Opinion,
    PropIndex,
    PublicProposal,
    PublicProposalView,
    ReferendumIndex,
    ReferendumInfo,
    ReferendumState,
    ReferendumStatus,
    ReferendumView,
    Tally,
};

verus! {

broadcast use vstd::std_specs::hash::group_hash_axioms;

/// The square of one DAO: its settings, the proposals that wait, and its
/// referenda, each under the index at which it was opened.
#[derive(Clone, Debug, PartialEq, Eq)]
pub struct Referenda {
    pub(crate) public_prop_count: PropIndex,
    pub(crate) max_public_props: u32,
    pub(crate) launch_period: BlockNumber,
    pub(crate) minimum_deposit: Balance,
    pub(crate) voting_period: BlockNumber,
    pub(crate) reserve_period: BlockNumber,
    pub(crate) enactment_period: BlockNumber,
    pub(crate) launch_tag: BlockNumber,
    pub(crate) public_props: Vec<PublicProposal>,
    pub(crate) referendums: Vec<ReferendumInfo<BlockNumber, Action, Balance>>,
    pub(crate) min_vote_weight: HashMap<RealCallId, Balance>,
}

/// The mathematical content of a `Referenda`.
pub struct ReferendaView {
    /// How many proposals have been queued so far: the next index.
    pub public_prop_count: PropIndex,
    /// How many proposals may wait at once.
    pub max_public_props: u32,
    /// How soon a referendum can be called.
    pub launch_period: BlockNumber,
    /// The least that a proposer must deposit.
    pub minimum_deposit: Balance,
    /// How long a referendum can be voted on.
    pub voting_period: BlockNumber,
    /// How long a backer's deposit stays reserved.
    pub reserve_period: BlockNumber,
    /// How long after the vote a referendum may be enacted.
    pub enactment_period: BlockNumber,
    /// The count that the launch of a referendum is held against.
    pub launch_tag: BlockNumber,
    /// The proposals that wait.
    pub public_props: Seq<PublicProposalView>,
    /// The referenda, by index.
    pub referendums: Seq<ReferendumView>,
    /// The least combined weight that a referendum on a call of a kind needs.
    pub min_vote_weight: Map<RealCallId, Balance>,
}

impl View for Referenda {
    type V = ReferendaView;

    closed spec fn view(&self) -> ReferendaView {
        ReferendaView {
            public_prop_count: self.public_prop_count,
            max_public_props: self.max_public_props,
            launch_period: self.launch_period,
            minimum_deposit: self.minimum_deposit,
            voting_period: self.voting_period,
            reserve_period: self.reserve_period,
            enactment_period: self.enactment_period,
            launch_tag: self.launch_tag,
            public_props: self.public_props@.map_values(|p: PublicProposal| p@),
            referendums: self.referendums@.map_values(
                |r: ReferendumInfo<BlockNumber, Action, Balance>| r@,
            ),
            min_vote_weight: self.min_vote_weight@,
        }
    }
}

/// The sum of two times, capped at the last time that the clock can show.
pub open spec fn time_after(now: BlockNumber, period: BlockNumber) -> BlockNumber {
    if now + period > BlockNumber::MAX {
        BlockNumber::MAX
    } else {
        (now + period) as BlockNumber
    }
}

/// Whether the proposal at `i` has the greatest backing of the queue, and is
/// the first that has it.
pub open spec fn is_first_max(props: Seq<PublicProposalView>, i: int) -> bool {
    &&& 0 <= i < props.len()
    &&& forall|j: int| 0 <= j < props.len() ==> props[j].backing() <= props[i].backing()
    &&& forall|j: int| 0 <= j < i ==> props[j].backing() < props[i].backing()
}

/// The place of the proposal that the next referendum is about.
pub open spec fn winner(props: Seq<PublicProposalView>) -> int {
    choose|i: int| is_first_max(props, i)
}

/// No two places are the first of the greatest backing.
pub proof fn lemma_first_max_unique(props: Seq<PublicProposalView>, i: int, j: int)
    requires
        is_first_max(props, i),
        is_first_max(props, j),
    ensures
        i == j,
{
    if i < j {
        assert(props[i].backing() < props[j].backing());
    } else if j < i {
        assert(props[j].backing() < props[i].backing());
    }
}

/// The referendum that a launch opens is about a proposal whose backing is
/// the greatest of the queue, and no proposal before it in the queue has as
/// much.
pub proof fn lemma_launch_takes_greatest_backing(
    r: ReferendaView,
    now: BlockNumber,
    dao_start: BlockNumber,
    j: int,
)
    requires
        r.launch_check(now, dao_start) is Ok,
        0 <= j < r.public_props.len(),
    ensures
        0 <= winner(r.public_props) < r.public_props.len(),
        r.public_props[j].backing() <= r.public_props[winner(r.public_props)].backing(),
        j < winner(r.public_props) ==> r.public_props[j].backing() < r.public_props[winner(
            r.public_props,
        )].backing(),
        r.launched(now).referendums.last() == (ReferendumView::Ongoing {
            end: time_after(now, r.voting_period),
            proposal: r.public_props[winner(r.public_props)].call,
            delay: r.enactment_period,
            tally: Tally { ayes: 0, nays: 0 },
        }),
{
    lemma_first_max_exists(r.public_props, r.public_props.len() as int);
}

/// A finished referendum stays finished: it takes no vote, it is not enacted
/// again, and opening another referendum or queuing a proposal leaves it as
/// it is.
pub proof fn lemma_finished_is_final(
    r: ReferendaView,
    index: ReferendumIndex,
    now: BlockNumber,
    tally: Tally<Balance>,
)
    requires
        index < r.referendums.len(),
        r.referendums[index as int] is Finished,
    ensures
        r.votable(index, now) == Err::<(), Error>(Error::ReferendumFinished),
        r.enact_check(index, now) == Err::<bool, DispatchError>(
            DispatchError::Square(Error::ReferendumFinished),
        ),
        r.with_tally(index, tally) == r,
        r.launched(now).referendums[index as int] == r.referendums[index as int],
{
}

/// A queue that is not empty has a first place of the greatest backing among
/// its first `n` places.
pub proof fn lemma_first_max_exists(props: Seq<PublicProposalView>, n: int)
    requires
        0 < n <= props.len(),
    ensures
        exists|i: int| is_first_max(props.take(n), i),
        n == props.len() ==> is_first_max(props, winner(props)),
    decreases n,
{
    let q = props.take(n);
    if n == 1 {
        assert(is_first_max(q, 0));
    } else {
        lemma_first_max_exists(props, n - 1);
        let p = props.take(n - 1);
        let b = choose|i: int| is_first_max(p, i);
        assert forall|j: int| 0 <= j < n - 1 implies q[j] == p[j] by {}
        if q[n - 1].backing() > q[b].backing() {
            assert forall|j: int| 0 <= j < n implies (#[trigger] q[j]).backing() <= q[n - 1].backing() by {
                if j < n - 1 {
                    assert(p[j].backing() <= p[b].backing());
                }
            }
            assert forall|j: int| 0 <= j < n - 1 implies (#[trigger] q[j]).backing() < q[n - 1].backing() by {
                assert(p[j].backing() <= p[b].backing());
            }
            assert(is_first_max(q, n - 1));
        } else {
            assert forall|j: int| 0 <= j < n implies (#[trigger] q[j]).backing() <= q[b].backing() by {
                if j < n - 1 {
                    assert(p[j].backing() <= p[b].backing());
                }
            }
            assert forall|j: int| 0 <= j < b implies (#[trigger] q[j]).backing() < q[b].backing() by {
                assert(p[j].backing() < p[b].backing());
            }
            assert(is_first_max(q, b));
        }
    }
    if n == props.len() {
        assert(props.take(n) =~= props);
    }
}

impl ReferendaView {
    /// The settings of a DAO that has set none, with nothing queued.
    pub open spec fn empty() -> ReferendaView {
        ReferendaView {
            public_prop_count: 0,
            max_public_props: 100,
            launch_period: 900,
            minimum_deposit: 0,
            voting_period: 900,
            reserve_period: 900,
            enactment_period: 900,
            launch_tag: 0,
            public_props: Seq::empty(),
            referendums: Seq::empty(),
            min_vote_weight: Map::empty(),
        }
    }

    /// The state is consistent: the indices of the queue are below the next
    /// index and differ from each other, and the referenda can be counted.
    pub open spec fn wf(self) -> bool {
        &&& self.referendums.len() <= ReferendumIndex::MAX
        &&& forall|i: int|
            0 <= i < self.public_props.len() ==> (#[trigger] self.public_props[i]).index
                < self.public_prop_count
        &&& forall|i: int, j: int|
            0 <= i < self.public_props.len() && 0 <= j < self.public_props.len() && i != j
                ==> self.public_props[i].index != self.public_props[j].index
    }

    /// Whether a proposal waits under `index`.
    pub open spec fn has_prop(self, index: PropIndex) -> bool {
        exists|i: int| 0 <= i < self.public_props.len() && self.public_props[i].index == index
    }

    /// The place in the queue of the proposal under `index`.
    pub open spec fn prop_place(self, index: PropIndex) -> int {
        choose|i: int| 0 <= i < self.public_props.len() && self.public_props[i].index == index
    }

    /// The backing of the proposal under `index`, if one waits there.
    pub open spec fn backing_for(self, index: PropIndex) -> Option<Balance> {
        if self.has_prop(index) {
            Some(self.public_props[self.prop_place(index)].backing())
        } else {
            None
        }
    }

    /// The least combined weight that a referendum on a call of the kind
    /// `call_id` needs: nothing where the DAO has set none.
    pub open spec fn min_weight(self, call_id: RealCallId) -> Balance {
        if self.min_vote_weight.contains_key(call_id) {
            self.min_vote_weight[call_id]
        } else {
            0
        }
    }

    /// Why a proposal with a deposit of `value` is refused.
    pub open spec fn propose_check(self, value: Balance) -> Result<(), Error> {
        if value < self.minimum_deposit {
            Err(Error::DepositTooLow)
        } else if self.public_props.len() >= self.max_public_props {
            Err(Error::TooManyProposals)
        } else if self.public_prop_count == PropIndex::MAX {
            Err(Error::Overflow)
        } else {
            Ok(())
        }
    }

    /// The state after a proposal was queued.
    pub open spec fn proposed(
        self,
        who: AccountId,
        hash: Seq<u8>,
        call: ActionView,
        value: Balance,
    ) -> ReferendaView {
        ReferendaView {
            public_prop_count: (self.public_prop_count + 1) as PropIndex,
            public_props: self.public_props.push(
                PublicProposalView {
                    index: self.public_prop_count,
                    hash,
                    call,
                    proposer: who,
                    backers: seq![who],
                    deposit: value,
                },
            ),
            ..self
        }
    }

    /// What backing the proposal under `index` at `now` costs and until when
    /// the deposit stays reserved, or why the backing is refused.
    pub open spec fn second_check(self, index: PropIndex, now: BlockNumber) -> Result<
        (Balance, BlockNumber),
        Error,
    > {
        if !self.has_prop(index) {
            Err(Error::ProposalMissing)
        } else if now + self.reserve_period > BlockNumber::MAX {
            Err(Error::Overflow)
        } else {
            Ok(
                (
                    self.public_props[self.prop_place(index)].deposit,
                    (now + self.reserve_period) as BlockNumber,
                ),
            )
        }
    }

    /// The state after `who` has backed the proposal under `index`.
    pub open spec fn seconded(self, who: AccountId, index: PropIndex) -> ReferendaView {
        let i = self.prop_place(index);
        let p = self.public_props[i];
        ReferendaView {
            public_props: self.public_props.update(
                i,
                PublicProposalView { backers: p.backers.push(who), ..p },
            ),
            ..self
        }
    }

    /// Whether the referendum under `index` can be voted on at `now`.
    pub open spec fn votable(self, index: ReferendumIndex, now: BlockNumber) -> Result<(), Error> {
        if index >= self.referendums.len() {
            Err(Error::ReferendumNotExists)
        } else {
            match self.referendums[index as int] {
                ReferendumView::Finished { .. } => Err(Error::ReferendumFinished),
                ReferendumView::Ongoing { end, .. } => if end > now {
                    Ok(())
                } else {
                    Err(Error::VoteEnd)
                },
            }
        }
    }

    /// The tally of the ongoing referendum under `index`.
    pub open spec fn tally(self, index: ReferendumIndex) -> Tally<Balance> {
        self.referendums[index as int]->Ongoing_tally
    }

    /// The state with the tally of the ongoing referendum under `index`
    /// replaced.
    pub open spec fn with_tally(self, index: ReferendumIndex, tally: Tally<Balance>) -> ReferendaView {
        match self.referendums[index as int] {
            ReferendumView::Ongoing { end, proposal, delay, .. } => ReferendaView {
                referendums: self.referendums.update(
                    index as int,
                    ReferendumView::Ongoing { end, proposal, delay, tally },
                ),
                ..self
            },
            _ => self,
        }
    }

    /// The enacting of the referendum under `index` at `now`: `Ok(true)`
    /// where it is approved, `Ok(false)` where it is rejected, or why it
    /// cannot be enacted yet.
    ///
    /// Voting must have ended and the delay must have passed. The votes must
    /// weigh, ayes and nays together, what the kind of the call needs; a
    /// referendum that weighs less stays open. It is approved when the ayes
    /// outweigh the nays.
    pub open spec fn enact_check(self, index: ReferendumIndex, now: BlockNumber) -> Result<
        bool,
        DispatchError,
    > {
        if index >= self.referendums.len() {
            Err(DispatchError::Square(Error::ReferendumNotExists))
        } else {
            match self.referendums[index as int] {
                ReferendumView::Finished { .. } => Err(
                    DispatchError::Square(Error::ReferendumFinished),
                ),
                ReferendumView::Ongoing { end, proposal, delay, tally } => if end > now {
                    Err(DispatchError::Square(Error::VoteNotEnd))
                } else if end + delay > now {
                    Err(DispatchError::Square(Error::InDelayTime))
                } else {
                    match proposal.call_id {
                        None => Err(DispatchError::Dao(crate::dao::Error::InVailCall)),
                        Some(call_id) => if tally.ayes + tally.nays < self.min_weight(call_id) {
                            Err(DispatchError::Square(Error::VoteWeightTooLow))
                        } else {
                            Ok(tally.ayes > tally.nays)
                        },
                    }
                },
            }
        }
    }

    /// The state after the referendum under `index` was finished at `now`.
    pub open spec fn finished(
        self,
        index: ReferendumIndex,
        approved: bool,
        now: BlockNumber,
    ) -> ReferendaView {
        ReferendaView {
            referendums: self.referendums.update(
                index as int,
                ReferendumView::Finished { approved, end: now },
            ),
            ..self
        }
    }

    /// Why no referendum can be opened at `now`, for a DAO that started at
    /// `dao_start`.
    pub open spec fn launch_check(self, now: BlockNumber, dao_start: BlockNumber) -> Result<
        (),
        Error,
    > {
        let elapsed = if now >= dao_start {
            now - dao_start
        } else {
            0
        };
        if self.launch_tag * self.launch_period > BlockNumber::MAX {
            Err(Error::Overflow)
        } else if !(self.launch_tag * self.launch_period < elapsed) {
            Err(Error::NotTableTime)
        } else if self.public_props.len() == 0 {
            Err(Error::NoneWaiting)
        } else if self.referendums.len() >= ReferendumIndex::MAX {
            Err(Error::Overflow)
        } else {
            Ok(())
        }
    }

    /// The state after a referendum was opened at `now` on the proposal with
    /// the greatest backing: the proposal leaves the queue, the last of the
    /// queue takes its place, and voting runs for the voting period.
    pub open spec fn launched(self, now: BlockNumber) -> ReferendaView {
        let w = winner(self.public_props);
        ReferendaView {
            public_props: self.public_props.update(w, self.public_props.last()).drop_last(),
            referendums: self.referendums.push(
                ReferendumView::Ongoing {
                    end: time_after(now, self.voting_period),
                    proposal: self.public_props[w].call,
                    delay: self.enactment_period,
                    tally: Tally { ayes: 0, nays: 0 },
                },
            ),
            ..self
        }
    }
}

/// In a consistent state the proposal at a place is the proposal of its
/// index.
pub proof fn lemma_prop_at(r: ReferendaView, i: int)
    requires
        r.wf(),
        0 <= i < r.public_props.len(),
    ensures
        r.has_prop(r.public_props[i].index),
        r.prop_place(r.public_props[i].index) == i,
{
    let x = r.public_props[i].index;
    let k = r.prop_place(x);
    assert(0 <= k < r.public_props.len() && r.public_props[k].index == x);
}

/// The backing of a proposal: the deposit times the number of backers, capped
/// at the largest amount.
pub fn backing_of(p: &PublicProposal) -> (r: Balance)
    ensures
        r == p@.backing(),
{
    let n: Balance = p.backers.len() as Balance;
    match p.deposit.checked_mul(n) {
        Some(b) => b,
        None => Balance::MAX,
    }
}

impl Referenda {
    /// The square of a DAO that has set nothing yet.
    pub fn new() -> (r: Self)
        ensures
            r@ == ReferendaView::empty(),
            r@.wf(),
    {
        let r = Referenda {
            public_prop_count: 0,
            max_public_props: 100,
            launch_period: 900,
            minimum_deposit: 0,
            voting_period: 900,
            reserve_period: 900,
            enactment_period: 900,
            launch_tag: 0,
            public_props: Vec::new(),
            referendums: Vec::new(),
            min_vote_weight: HashMap::new(),
        };
        assert(r@.public_props =~= Seq::empty());
        assert(r@.referendums =~= Seq::empty());
        r
    }

    /// The place in the queue of the proposal under `index`.
    fn find_prop(&self, index: PropIndex) -> (r: Option<usize>)
        ensures
            self@.public_props.len() == self.public_props.len(),
            match r {
                Some(i) => i < self.public_props.len() && self@.public_props[i as int].index
                    == index && self@.has_prop(index),
                None => !self@.has_prop(index),
            },
    {
        let mut i: usize = 0;
        while i < self.public_props.len()
            invariant
                i <= self.public_props.len(),
                self@.public_props.len() == self.public_props.len(),
                forall|j: int| 0 <= j < i ==> self@.public_props[j].index != index,
            decreases self.public_props.len() - i,
        {
            if self.public_props[i].index == index {
                return Some(i);
            }
            i += 1;
        }
        None
    }

    /// The backing of the proposal under `index`, if one waits there.
    pub fn backing_for(&self, index: PropIndex) -> (r: Option<Balance>)
        requires
            self@.wf(),
        ensures
            r == self@.backing_for(index),
    {
        match self.find_prop(index) {
            Some(i) => {
                proof {
                    lemma_prop_at(self@, i as int);
                }
                Some(backing_of(&self.public_props[i]))
            },
            None => None,
        }
    }

    /// Queues a proposal of `who`, made with a deposit of `value`, under the
    /// hash given for it, and gives the index it was queued under.
    pub fn propose(&mut self, who: AccountId, hash: ContentHash, call: Action, value: Balance) -> (r:
        Result<PropIndex, Error>)
        requires
            old(self)@.wf(),
        ensures
            final(self)@.wf(),
            match old(self)@.propose_check(value) {
                Err(e) => r == Err::<PropIndex, Error>(e) && final(self)@ == old(self)@,
                Ok(()) => r == Ok::<PropIndex, Error>(old(self)@.public_prop_count) && final(self)@ == old(self)@.proposed(who, hash@, call@, value),
            },
    {
        if value < self.minimum_deposit {
            return Err(Error::DepositTooLow);
        }
        if self.public_props.len() >= self.max_public_props as usize {
            return Err(Error::TooManyProposals);
        }
        if self.public_prop_count == PropIndex::MAX {
            return Err(Error::Overflow);
        }
        let index: PropIndex = self.public_prop_count;
        let mut backers: Vec<AccountId> = Vec::new();
        backers.push(who);
        let ghost before = self@;
        let ghost cv = call@;
        assert(backers@ =~= seq![who]);
        self.public_props.push(
            PublicProposal { index, hash, call, proposer: who, backers, deposit: value },
        );
        self.public_prop_count = index + 1;
        assert(self@.public_props =~= before.proposed(who, hash@, cv, value).public_props);
        assert(self@.referendums =~= before.referendums);
        assert(self@.wf()) by {
            let q = self@.public_props;
            assert forall|i: int| 0 <= i < q.len() implies (#[trigger] q[i]).index
                < self@.public_prop_count by {
                if i < before.public_props.len() {
                    assert(q[i] == before.public_props[i]);
                }
            }
            assert forall|i: int, j: int| 0 <= i < q.len() && 0 <= j < q.len() && i != j implies q[i].index
                != q[j].index by {
                if i < before.public_props.len() {
                    assert(q[i] == before.public_props[i]);
                }
                if j < before.public_props.len() {
                    assert(q[j] == before.public_props[j]);
                }
            }
        }
        Ok(index)
    }

    /// Adds `who` to the backers of the proposal under `index`, and gives
    /// what the backer has to deposit and until when it stays reserved.
    pub fn second(&mut self, who: AccountId, index: PropIndex, now: BlockNumber) -> (r: Result<
        (Balance, BlockNumber),
        Error,
    >)
        requires
            old(self)@.wf(),
        ensures
            final(self)@.wf(),
            r == old(self)@.second_check(index, now),
            r is Err ==> final(self)@ == old(self)@,
            r is Ok ==> final(self)@ == old(self)@.seconded(who, index),
    {
        let i = match self.find_prop(index) {
            Some(i) => i,
            None => {
                return Err(Error::ProposalMissing);
            },
        };
        proof {
            lemma_prop_at(self@, i as int);
        }
        let until = match now.checked_add(self.reserve_period) {
            Some(t) => t,
            None => {
                return Err(Error::Overflow);
            },
        };
        let ghost before = self@;
        let amount: Balance = self.public_props[i].deposit;
        self.public_props[i].backers.push(who);
        assert(self@.public_props =~= before.seconded(who, index).public_props);
        assert(self@.referendums =~= before.referendums);
        assert(self@.wf()) by {
            let q = self@.public_props;
            assert forall|k: int| 0 <= k < q.len() implies (#[trigger] q[k]).index
                == before.public_props[k].index by {}
        }
        Ok((amount, until))
    }

    /// The place of the proposal with the greatest backing, the first of
    /// them where several have it.
    fn find_winner(&self) -> (w: usize)
        requires
            self.public_props.len() > 0,
        ensures
            self@.public_props.len() == self.public_props.len(),
            is_first_max(self@.public_props, w as int),
            w as int == winner(self@.public_props),
    {
        let mut best: usize = 0;
        let mut best_backing: Balance = backing_of(&self.public_props[0]);
        let mut i: usize = 1;
        while i < self.public_props.len()
            invariant
                1 <= i <= self.public_props.len(),
                self@.public_props.len() == self.public_props.len(),
                best < i,
                best_backing == self@.public_props[best as int].backing(),
                forall|j: int| 0 <= j < i ==> self@.public_props[j].backing() <= best_backing,
                forall|j: int| 0 <= j < best ==> self@.public_props[j].backing() < best_backing,
            decreases self.public_props.len() - i,
        {
            let b = backing_of(&self.public_props[i]);
            if b > best_backing {
                best = i;
                best_backing = b;
            }
            i += 1;
        }
        proof {
            lemma_first_max_unique(
                self@.public_props,
                best as int,
                winner(self@.public_props),
            );
        }
        best
    }

    /// Opens a referendum on the proposal with the greatest backing, and gives
    /// its index.
    ///
    /// A referendum can be opened when the launch tag times the launch period
    /// is less than the time since `dao_start`.
    pub fn launch(&mut self, now: BlockNumber, dao_start: BlockNumber) -> (r: Result<
        ReferendumIndex,
        Error,
    >)
        requires
            old(self)@.wf(),
        ensures
            final(self)@.wf(),
            match old(self)@.launch_check(now, dao_start) {
                Err(e) => r == Err::<ReferendumIndex, Error>(e) && final(self)@ == old(self)@,
                Ok(()) => r == Ok::<ReferendumIndex, Error>(
                    old(self)@.referendums.len() as ReferendumIndex,
                ) && final(self)@ == old(self)@.launched(now),
            },
    {
        let threshold = match self.launch_tag.checked_mul(self.launch_period) {
            Some(t) => t,
            None => {
                return Err(Error::Overflow);
            },
        };
        let elapsed: BlockNumber = now.saturating_sub(dao_start);
        if !(threshold < elapsed) {
            return Err(Error::NotTableTime);
        }
        if self.public_props.len() == 0 {
            return Err(Error::NoneWaiting);
        }
        if self.referendums.len() >= ReferendumIndex::MAX as usize {
            return Err(Error::Overflow);
        }
        let w = self.find_winner();
        let ghost before = self@;
        let index: ReferendumIndex = self.referendums.len() as ReferendumIndex;
        let prop = self.public_props.swap_remove(w);
        assert(prop@ == before.public_props[w as int]);
        let end: BlockNumber = now.saturating_add(self.voting_period);
        self.referendums.push(
            ReferendumInfo::Ongoing(
                ReferendumStatus {
                    end,
                    proposal: prop.call,
                    delay: self.enactment_period,
                    tally: Tally { ayes: 0, nays: 0 },
                },
            ),
        );
        assert(self@.public_props =~= before.launched(now).public_props);
        assert(self@.referendums =~= before.launched(now).referendums);
        assert(self@.wf()) by {
            let q = self@.public_props;
            let n = before.public_props.len() as int;
            assert forall|k: int| 0 <= k < q.len() implies q[k] == before.public_props[if k
                == w {
                n - 1
            } else {
                k
            }] by {}
            assert forall|k: int| 0 <= k < q.len() implies (#[trigger] q[k]).index
                < self@.public_prop_count by {
                let k0 = if k == w { n - 1 } else { k };
                assert(q[k] == before.public_props[k0]);
            }
            assert forall|i: int, j: int| 0 <= i < q.len() && 0 <= j < q.len() && i != j implies q[i].index
                != q[j].index by {
                let i0 = if i == w { n - 1 } else { i };
                let j0 = if j == w { n - 1 } else { j };
                assert(q[i] == before.public_props[i0]);
                assert(q[j] == before.public_props[j0]);
            }
        }
        Ok(index)
    }

    /// Whether the referendum under `index` can be voted on at `now`.
    pub fn votable(&self, index: ReferendumIndex, now: BlockNumber) -> (r: Result<(), Error>)
        ensures
            r == self@.votable(index, now),
    {
        assert(self@.referendums.len() == self.referendums.len());
        if index as usize >= self.referendums.len() {
            return Err(Error::ReferendumNotExists);
        }
        assert(self@.referendums[index as int] == self.referendums[index as int]@);
        match &self.referendums[index as usize] {
            ReferendumInfo::Finished { .. } => Err(Error::ReferendumFinished),
            ReferendumInfo::Ongoing(s) => {
                if s.end > now {
                    Ok(())
                } else {
                    Err(Error::VoteEnd)
                }
            },
        }
    }

    /// Replaces the tally of the ongoing referendum under `index`.
    pub fn set_tally(&mut self, index: ReferendumIndex, tally: Tally<Balance>)
        requires
            old(self)@.wf(),
            index < old(self)@.referendums.len(),
            old(self)@.referendums[index as int] is Ongoing,
        ensures
            final(self)@ == old(self)@.with_tally(index, tally),
            final(self)@.wf(),
    {
        let ghost before = self@;
        assert(self@.referendums.len() == self.referendums.len());
        assert(self@.referendums[index as int] == self.referendums[index as int]@);
        self.referendums.push(ReferendumInfo::Finished { approved: false, end: 0 });
        let info = self.referendums.swap_remove(index as usize);
        match info {
            ReferendumInfo::Ongoing(s) => {
                self.referendums.push(
                    ReferendumInfo::Ongoing(
                        ReferendumStatus { end: s.end, proposal: s.proposal, delay: s.delay, tally },
                    ),
                );
                self.referendums.swap_remove(index as usize);
            },
            ReferendumInfo::Finished { .. } => {},
        }
        assert(self@.referendums =~= before.with_tally(index, tally).referendums);
        assert(self@.public_props =~= before.public_props);
    }

    /// Adds `weight` to the side of `opinion` in the referendum under
    /// `index`, which must be open for votes. A tally that would not fit is
    /// refused.
    pub fn add_vote(&mut self, index: ReferendumIndex, opinion: Opinion, weight: Balance) -> (r:
        Result<(), Error>)
        requires
            old(self)@.wf(),
            index < old(self)@.referendums.len(),
            old(self)@.referendums[index as int] is Ongoing,
        ensures
            final(self)@.wf(),
            match opinion {
                Opinion::AYES => if old(self)@.tally(index).ayes + weight > Balance::MAX {
                    r == Err::<(), Error>(Error::Overflow) && final(self)@ == old(self)@
                } else {
                    r == Ok::<(), Error>(()) && final(self)@ == old(self)@.with_tally(
                        index,
                        Tally {
                            ayes: (old(self)@.tally(index).ayes + weight) as Balance,
                            nays: old(self)@.tally(index).nays,
                        },
                    )
                },
                Opinion::NAYS => if old(self)@.tally(index).nays + weight > Balance::MAX {
                    r == Err::<(), Error>(Error::Overflow) && final(self)@ == old(self)@
                } else {
                    r == Ok::<(), Error>(()) && final(self)@ == old(self)@.with_tally(
                        index,
                        Tally {
                            ayes: old(self)@.tally(index).ayes,
                            nays: (old(self)@.tally(index).nays + weight) as Balance,
                        },
                    )
                },
            },
    {
        assert(self@.referendums.len() == self.referendums.len());
        assert(self@.referendums[index as int] == self.referendums[index as int]@);
        let tally = match &self.referendums[index as usize] {
            ReferendumInfo::Ongoing(s) => s.tally,
            ReferendumInfo::Finished { .. } => Tally { ayes: 0, nays: 0 },
        };
        let next = match opinion {
            Opinion::AYES => match tally.ayes.checked_add(weight) {
                Some(a) => Tally { ayes: a, nays: tally.nays },
                None => {
                    return Err(Error::Overflow);
                },
            },
            Opinion::NAYS => match tally.nays.checked_add(weight) {
                Some(n) => Tally { ayes: tally.ayes, nays: n },
                None => {
                    return Err(Error::Overflow);
                },
            },
        };
        self.set_tally(index, next);
        Ok(())
    }

    /// Takes `weight` off the side of `opinion` in the referendum under
    /// `index`, which must be open for votes; a side never falls below
    /// nothing.
    pub fn retract_vote(&mut self, index: ReferendumIndex, opinion: Opinion, weight: Balance)
        requires
            old(self)@.wf(),
            index < old(self)@.referendums.len(),
            old(self)@.referendums[index as int] is Ongoing,
        ensures
            final(self)@.wf(),
            final(self)@ == old(self)@.with_tally(
                index,
                retracted(old(self)@.tally(index), opinion, weight),
            ),
    {
        assert(self@.referendums.len() == self.referendums.len());
        assert(self@.referendums[index as int] == self.referendums[index as int]@);
        let tally = match &self.referendums[index as usize] {
            ReferendumInfo::Ongoing(s) => s.tally,
            ReferendumInfo::Finished { .. } => Tally { ayes: 0, nays: 0 },
        };
        let next = match opinion {
            Opinion::AYES => Tally { ayes: tally.ayes.saturating_sub(weight), nays: tally.nays },
            Opinion::NAYS => Tally { ayes: tally.ayes, nays: tally.nays.saturating_sub(weight) },
        };
        self.set_tally(index, next);
    }

    /// The least combined weight that a referendum on a call of the kind
    /// `call_id` needs.
    pub fn min_vote_weight_of(&self, call_id: RealCallId) -> (r: Balance)
        ensures
            r == self@.min_weight(call_id),
    {
        match self.min_vote_weight.get(&call_id) {
            Some(w) => *w,
            None => 0,
        }
    }

    /// Whether the referendum under `index` can be enacted at `now`, and if
    /// so, whether it is approved.
    pub fn enact_check(&self, index: ReferendumIndex, now: BlockNumber) -> (r: Result<
        bool,
        DispatchError,
    >)
        ensures
            r == self@.enact_check(index, now),
    {
        assert(self@.referendums.len() == self.referendums.len());
        if index as usize >= self.referendums.len() {
            return Err(DispatchError::Square(Error::ReferendumNotExists));
        }
        assert(self@.referendums[index as int] == self.referendums[index as int]@);
        match &self.referendums[index as usize] {
            ReferendumInfo::Finished { .. } => Err(DispatchError::Square(Error::ReferendumFinished)),
            ReferendumInfo::Ongoing(s) => {
                if s.end > now {
                    return Err(DispatchError::Square(Error::VoteNotEnd));
                }
                match s.end.checked_add(s.delay) {
                    Some(t) => {
                        if t > now {
                            return Err(DispatchError::Square(Error::InDelayTime));
                        }
                    },
                    None => {
                        return Err(DispatchError::Square(Error::InDelayTime));
                    },
                }
                let call_id = match s.proposal.resolve_call_id() {
                    Some(id) => id,
                    None => {
                        return Err(DispatchError::Dao(crate::dao::Error::InVailCall));
                    },
                };
                let min = self.min_vote_weight_of(call_id);
                let total = s.tally.ayes.saturating_add(s.tally.nays);
                if total < min {
                    return Err(DispatchError::Square(Error::VoteWeightTooLow));
                }
                Ok(s.tally.ayes > s.tally.nays)
            },
        }
    }

    /// Enacts the referendum under `index` at `now`: marks it finished, and
    /// hands out its proposal where it is approved.
    pub fn enact(&mut self, index: ReferendumIndex, now: BlockNumber) -> (r: Result<
        Option<Action>,
        DispatchError,
    >)
        requires
            old(self)@.wf(),
        ensures
            final(self)@.wf(),
            match old(self)@.enact_check(index, now) {
                Err(e) => r == Err::<Option<Action>, DispatchError>(e) && final(self)@ == old(self)@,
                Ok(approved) => final(self)@ == old(self)@.finished(index, approved, now)
                    && match r {
                    Ok(Some(call)) => approved && call@ == old(self)@.referendums[index as int]->Ongoing_proposal,
                    Ok(None) => !approved,
                    Err(_) => false,
                },
            },
    {
        let approved = match self.enact_check(index, now) {
            Ok(a) => a,
            Err(e) => {
                return Err(e);
            },
        };
        assert(self@.referendums.len() == self.referendums.len());
        assert(self@.referendums[index as int] == self.referendums[index as int]@);
        let ghost before = self@;
        self.referendums.push(ReferendumInfo::Finished { approved, end: now });
        let info = self.referendums.swap_remove(index as usize);
        assert(self@.referendums =~= before.finished(index, approved, now).referendums);
        assert(self@.public_props =~= before.public_props);
        if approved {
            match info {
                ReferendumInfo::Ongoing(s) => Ok(Some(s.proposal)),
                ReferendumInfo::Finished { .. } => Ok(None),
            }
        } else {
            Ok(None)
        }
    }
}

/// A tally with `weight` taken off the side of `opinion`, which never falls
/// below nothing.
pub open spec fn retracted(tally: Tally<Balance>, opinion: Opinion, weight: Balance) -> Tally<
    Balance,
> {
    match opinion {
        Opinion::AYES => Tally {
            ayes: if tally.ayes >= weight {
                (tally.ayes - weight) as Balance
            } else {
                0
            },
            nays: tally.nays,
        },
        Opinion::NAYS => Tally {
            ayes: tally.ayes,
            nays: if tally.nays >= weight {
                (tally.nays - weight) as Balance
            } else {
                0
            },
        },
    }
}

impl Referenda {
    /// The tally of the referendum under `index`, if it is ongoing.
    pub fn tally_of(&self, index: ReferendumIndex) -> (r: Option<Tally<Balance>>)
        ensures
            r == if index < self@.referendums.len() && self@.referendums[index as int] is Ongoing {
                Some(self@.tally(index))
            } else {
                None
            },
    {
        assert(self@.referendums.len() == self.referendums.len());
        if index as usize >= self.referendums.len() {
            return None;
        }
        assert(self@.referendums[index as int] == self.referendums[index as int]@);
        match &self.referendums[index as usize] {
            ReferendumInfo::Ongoing(s) => Some(s.tally),
            ReferendumInfo::Finished { .. } => None,
        }
    }

    /// Sets the least combined weight that a referendum on a call of the kind
    /// `call_id` needs.
    pub fn set_min_vote_weight(&mut self, call_id: RealCallId, min_vote_weight: Balance)
        requires
            old(self)@.wf(),
        ensures
            final(self)@.wf(),
            final(self)@ == (ReferendaView {
                min_vote_weight: old(self)@.min_vote_weight.insert(call_id, min_vote_weight),
                ..old(self)@
            }),
    {
        self.min_vote_weight.insert(call_id, min_vote_weight);
    }

    /// Sets how many proposals may wait at once.
    pub fn set_max_public_props(&mut self, max: u32)
        requires
            old(self)@.wf(),
        ensures
            final(self)@.wf(),
            final(self)@ == (ReferendaView { max_public_props: max, ..old(self)@ }),
    {
        self.max_public_props = max;
    }

    /// Sets how soon a referendum can be called.
    pub fn set_launch_period(&mut self, period: BlockNumber)
        requires
            old(self)@.wf(),
        ensures
            final(self)@.wf(),
            final(self)@ == (ReferendaView { launch_period: period, ..old(self)@ }),
    {
        self.launch_period = period;
    }

    /// Sets the least that a proposer must deposit.
    pub fn set_minimum_deposit(&mut self, min: Balance)
        requires
            old(self)@.wf(),
        ensures
            final(self)@.wf(),
            final(self)@ == (ReferendaView { minimum_deposit: min, ..old(self)@ }),
    {
        self.minimum_deposit = min;
    }

    /// Sets how long a referendum can be voted on.
    pub fn set_voting_period(&mut self, period: BlockNumber)
        requires
            old(self)@.wf(),
        ensures
            final(self)@.wf(),
            final(self)@ == (ReferendaView { voting_period: period, ..old(self)@ }),
    {
        self.voting_period = period;
    }

    /// Sets how long a backer's deposit stays reserved.
    pub fn set_rerserve_period(&mut self, period: BlockNumber)
        requires
            old(self)@.wf(),
        ensures
            final(self)@.wf(),
            final(self)@ == (ReferendaView { reserve_period: period, ..old(self)@ }),
    {
        self.reserve_period = period;
    }

    /// Sets how long after the vote a referendum may be enacted.
    pub fn set_enactment_period(&mut self, period: BlockNumber)
        requires
            old(self)@.wf(),
        ensures
            final(self)@.wf(),
            final(self)@ == (ReferendaView { enactment_period: period, ..old(self)@ }),
    {
        self.enactment_period = period;
    }
}

impl Referenda {
    /// How many proposals have been queued so far.
    pub fn public_prop_count(&self) -> (r: PropIndex)
        ensures
            r == self@.public_prop_count,
    {
        self.public_prop_count
    }

    /// How many proposals may wait at once.
    pub fn max_public_props(&self) -> (r: u32)
        ensures
            r == self@.max_public_props,
    {
        self.max_public_props
    }

    /// How soon a referendum can be called.
    pub fn launch_period(&self) -> (r: BlockNumber)
        ensures
            r == self@.launch_period,
    {
        self.launch_period
    }

    /// The least that a proposer must deposit.
    pub fn minimum_deposit(&self) -> (r: Balance)
        ensures
            r == self@.minimum_deposit,
    {
        self.minimum_deposit
    }

    /// How long a referendum can be voted on.
    pub fn voting_period(&self) -> (r: BlockNumber)
        ensures
            r == self@.voting_period,
    {
        self.voting_period
    }

    /// How long a backer's deposit stays reserved.
    pub fn reserve_period(&self) -> (r: BlockNumber)
        ensures
            r == self@.reserve_period,
    {
        self.reserve_period
    }

    /// How long after the vote a referendum may be enacted.
    pub fn enactment_period(&self) -> (r: BlockNumber)
        ensures
            r == self@.enactment_period,
    {
        self.enactment_period
    }

    /// The count that the launch of a referendum is held against.
    pub fn launch_tag(&self) -> (r: BlockNumber)
        ensures
            r == self@.launch_tag,
    {
        self.launch_tag
    }

    /// How many referenda have been opened so far.
    pub fn referendum_count(&self) -> (r: ReferendumIndex)
        requires
            self@.wf(),
        ensures
            r == self@.referendums.len(),
    {
        assert(self@.referendums.len() == self.referendums.len());
        self.referendums.len() as ReferendumIndex
    }

    /// How many proposals wait.
    pub fn public_props_len(&self) -> (r: usize)
        ensures
            r == self@.public_props.len(),
    {
        assert(self@.public_props.len() == self.public_props.len());
        self.public_props.len()
    }

    /// The state of the referendum under `index`, if there is one.
    pub fn referendum_info(&self, index: ReferendumIndex) -> (r: Option<ReferendumState>)
        ensures
            r == if index < self@.referendums.len() {
                Some(self@.referendums[index as int].state())
            } else {
                None
            },
    {
        assert(self@.referendums.len() == self.referendums.len());
        if index as usize >= self.referendums.len() {
            return None;
        }
        assert(self@.referendums[index as int] == self.referendums[index as int]@);
        match &self.referendums[index as usize] {
            ReferendumInfo::Ongoing(s) => Some(
                ReferendumState::Ongoing { end: s.end, delay: s.delay, tally: s.tally },
            ),
            ReferendumInfo::Finished { approved, end } => Some(
                ReferendumState::Finished { approved: *approved, end: *end },
            ),
        }
    }

    /// Who backs the proposal that waits under `index`, and what each of them
    /// has deposited.
    pub fn deposit_of(&self, index: PropIndex) -> (r: Option<(Vec<AccountId>, Balance)>)
        requires
            self@.wf(),
        ensures
            match r {
                Some((backers, deposit)) => self@.has_prop(index) && backers@
                    == self@.public_props[self@.prop_place(index)].backers && deposit
                    == self@.public_props[self@.prop_place(index)].deposit,
                None => !self@.has_prop(index),
            },
    {
        match self.find_prop(index) {
            Some(i) => {
                proof {
                    lemma_prop_at(self@, i as int);
                }
                Some(
                    (
                        vstd::slice::slice_to_vec(self.public_props[i].backers.as_slice()),
                        self.public_props[i].deposit,
                    ),
                )
            },
            None => None,
        }
    }
}

/// How many proposals may wait at once in a DAO that has set nothing.
#[allow(non_snake_case)]
pub fn MaxPublicPropsOnEmpty() -> (r: PropIndex)
    ensures
        r == ReferendaView::empty().max_public_props,
{
    100u32
}

/// How soon a referendum can be called in a DAO that has set nothing.
#[allow(non_snake_case)]
pub fn LaunchPeriodOnEmpty() -> (r: BlockNumber)
    ensures
        r == ReferendaView::empty().launch_period,
{
    900
}

/// How long a referendum can be voted on in a DAO that has set nothing.
#[allow(non_snake_case)]
pub fn VotingPeriodOnEmpty() -> (r: BlockNumber)
    ensures
        r == ReferendaView::empty().voting_period,
{
    900
}

/// How long a backer's deposit stays reserved in a DAO that has set nothing.
#[allow(non_snake_case)]
pub fn ReservePeriodOnEmpty() -> (r: BlockNumber)
    ensures
        r == ReferendaView::empty().reserve_period,
{
    900
}

/// How long after the vote a referendum may be enacted in a DAO that has set
/// nothing.
#[allow(non_snake_case)]
pub fn EnactmentPeriodOnEmpty() -> (r: BlockNumber)
    ensures
        r == ReferendaView::empty().enactment_period,
{
    900
}

} // verus!
