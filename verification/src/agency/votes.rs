use vstd::prelude::*;
use crate::agency::default_vote::DefaultVote;
use crate::agency::members::{ascending, lemma_filter_members, retain_members};
use crate::primitives::types::{AccountId, BlockNumber, MemberCount, ProposalIndex};

verus! {

/// `s` without the value `x`, the order of the others kept.
pub open spec fn remove_value(s: Seq<AccountId>, x: AccountId) -> Seq<AccountId> {
    if s.contains(x) {
        s.remove(s.index_of(x))
    } else {
        s
    }
}

/// What `remove_value` does to a list without repetitions: `x` is gone, every
/// other value stays, and nothing is repeated.
pub proof fn lemma_remove_value(s: Seq<AccountId>, x: AccountId)
    requires
        s.no_duplicates(),
    ensures
        remove_value(s, x).no_duplicates(),
        !remove_value(s, x).contains(x),
        forall|y: AccountId| y != x ==> (remove_value(s, x).contains(y) <==> s.contains(y)),
        forall|y: AccountId| remove_value(s, x).contains(y) ==> s.contains(y),
        s.contains(x) ==> remove_value(s, x).len() + 1 == s.len(),
        !s.contains(x) ==> remove_value(s, x) == s,
{
    let r = remove_value(s, x);
    if s.contains(x) {
        let i = s.index_of(x);
        assert forall|a: int, b: int| 0 <= a < r.len() && 0 <= b < r.len() && a != b implies r[a]
            != r[b] by {
            let a0 = if a < i { a } else { a + 1 };
            let b0 = if b < i { b } else { b + 1 };
            assert(r[a] == s[a0] && r[b] == s[b0]);
        }
        assert forall|y: AccountId| r.contains(y) implies s.contains(y) && y != x by {
            let a = choose|a: int| 0 <= a < r.len() && r[a] == y;
            let a0 = if a < i { a } else { a + 1 };
            assert(r[a] == s[a0]);
        }
        assert forall|y: AccountId| y != x && s.contains(y) implies r.contains(y) by {
            let a0 = choose|a0: int| 0 <= a0 < s.len() && s[a0] == y;
            let a = if a0 < i { a0 } else { a0 - 1 };
            assert(r[a] == s[a0]);
        }
    }
}

/// Appending a value that a list without repetitions does not hold keeps it
/// without repetitions.
pub proof fn lemma_push_fresh(s: Seq<AccountId>, x: AccountId)
    requires
        s.no_duplicates(),
        !s.contains(x),
    ensures
        s.push(x).no_duplicates(),
        forall|y: AccountId| s.push(x).contains(y) <==> (y == x || s.contains(y)),
{
    let r = s.push(x);
    assert forall|y: AccountId| r.contains(y) implies (y == x || s.contains(y)) by {
        let a = choose|a: int| 0 <= a < r.len() && r[a] == y;
        if a < s.len() {
            assert(s[a] == y);
        }
    }
    assert forall|y: AccountId| (y == x || s.contains(y)) implies r.contains(y) by {
        if y == x {
            assert(r[s.len() as int] == x);
        } else {
            let a = choose|a: int| 0 <= a < s.len() && s[a] == y;
            assert(r[a] == y);
        }
    }
}

/// The first place at which `v` holds `x`.
pub fn position(v: &Vec<AccountId>, x: AccountId) -> (r: Option<usize>)
    ensures
        match r {
            Some(i) => i < v.len() && v@[i as int] == x && forall|j: int|
                0 <= j < i ==> v@[j] != x,
            None => !v@.contains(x),
        },
{
    let mut i: usize = 0;
    while i < v.len()
        invariant
            i <= v.len(),
            forall|j: int| 0 <= j < i ==> v@[j] != x,
        decreases v.len() - i,
    {
        if v[i] == x {
            return Some(i);
        }
        i += 1;
    }
    None
}

/// Takes `x` out of `v`, keeping the order of the others.
pub fn take_out(v: &mut Vec<AccountId>, x: AccountId)
    requires
        old(v)@.no_duplicates(),
    ensures
        final(v)@ == remove_value(old(v)@, x),
{
    match position(v, x) {
        Some(i) => {
            proof {
                let s = v@;
                let k = s.index_of(x);
                assert(s.contains(x));
                assert(s[k] == x && 0 <= k < s.len());
                assert(k == i);
            }
            v.remove(i);
        },
        None => {},
    }
}

/// Info for keeping track of a motion being voted on.
#[derive(Clone, Debug, PartialEq, Eq)]
pub struct Votes<AccountId, BlockNumber> {
    /// The proposal's unique index.
    pub index: ProposalIndex,
    /// The number of approval votes that are needed to pass the motion.
    pub threshold: MemberCount,
    /// The current set of voters that approved it.
    pub ayes: Vec<AccountId>,
    /// The current set of voters that rejected it.
    pub nays: Vec<AccountId>,
    /// The hard end time of this vote.
    pub end: BlockNumber,
}

/// The mathematical content of a `Votes` record.
pub struct VotesView {
    pub index: ProposalIndex,
    pub threshold: MemberCount,
    pub ayes: Seq<AccountId>,
    pub nays: Seq<AccountId>,
    pub end: BlockNumber,
}

impl VotesView {
    /// Nobody is counted twice: neither list repeats a voter, and no voter is
    /// in both.
    pub open spec fn wf(self) -> bool {
        &&& self.ayes.no_duplicates()
        &&& self.nays.no_duplicates()
        &&& forall|a: AccountId| !(self.ayes.contains(a) && self.nays.contains(a))
    }

    /// Every voter is one of `members`.
    pub open spec fn within(self, members: Seq<AccountId>) -> bool {
        &&& forall|a: AccountId| self.ayes.contains(a) ==> members.contains(a)
        &&& forall|a: AccountId| self.nays.contains(a) ==> members.contains(a)
    }

    /// How `who` stands: `Some(true)` for aye, `Some(false)` for nay.
    pub open spec fn stance(self, who: AccountId) -> Option<bool> {
        if self.ayes.contains(who) {
            Some(true)
        } else if self.nays.contains(who) {
            Some(false)
        } else {
            None
        }
    }

    /// The record after `who` has voted `approve`: appended to the matching
    /// list, taken out of the other.
    pub open spec fn voted(self, who: AccountId, approve: bool) -> VotesView {
        if approve {
            VotesView { ayes: self.ayes.push(who), nays: remove_value(self.nays, who), ..self }
        } else {
            VotesView { ayes: remove_value(self.ayes, who), nays: self.nays.push(who), ..self }
        }
    }

    /// How the prime voted: `None` where the DAO has no prime or the prime
    /// did not vote.
    pub open spec fn prime_vote(self, prime: Option<AccountId>) -> Option<bool> {
        match prime {
            Some(p) => self.stance(p),
            None => None,
        }
    }

    /// How the motion ends when it is closed at `now` by a collective of
    /// `seats` members.
    ///
    /// A motion whose outcome is certain ends at once: approved with enough
    /// ayes, disapproved when the members who have not said nay are too few.
    /// Any other motion ends only from `end` on; every member who has not
    /// voted is then counted as the default vote says.
    pub open spec fn verdict<D: DefaultVote>(
        self,
        seats: MemberCount,
        prime: Option<AccountId>,
        now: BlockNumber,
    ) -> Result<Verdict, TooEarly> {
        let yes = self.ayes.len();
        let no = self.nays.len();
        if yes >= self.threshold {
            Ok(Verdict { approved: true, yes: yes as MemberCount, no: no as MemberCount })
        } else if seats - no < self.threshold {
            Ok(Verdict { approved: false, yes: yes as MemberCount, no: no as MemberCount })
        } else if now < self.end {
            Err(TooEarly)
        } else {
            let abstentions = seats - (yes + no);
            if D::spec_default_vote(
                self.prime_vote(prime),
                yes as MemberCount,
                no as MemberCount,
                seats,
            ) {
                Ok(
                    Verdict {
                        approved: yes + abstentions >= self.threshold,
                        yes: (yes + abstentions) as MemberCount,
                        no: no as MemberCount,
                    },
                )
            } else {
                Ok(
                    Verdict {
                        approved: false,
                        yes: yes as MemberCount,
                        no: (no + abstentions) as MemberCount,
                    },
                )
            }
        }
    }

    /// The record with every voter dropped who is not in `members`.
    pub open spec fn purged(self, members: Seq<AccountId>) -> VotesView {
        VotesView {
            ayes: self.ayes.filter(|a: AccountId| members.contains(a)),
            nays: self.nays.filter(|a: AccountId| members.contains(a)),
            ..self
        }
    }
}

impl View for Votes<AccountId, BlockNumber> {
    type V = VotesView;

    open spec fn view(&self) -> VotesView {
        VotesView {
            index: self.index,
            threshold: self.threshold,
            ayes: self.ayes@,
            nays: self.nays@,
            end: self.end,
        }
    }
}

/// How a motion ended: whether it was approved, and the final count.
#[derive(Clone, Copy, Debug, PartialEq, Eq, Structural)]
pub struct Verdict {
    pub approved: bool,
    pub yes: MemberCount,
    pub no: MemberCount,
}

/// The motion is still open and its outcome is not yet certain.
#[derive(Clone, Copy, Debug, PartialEq, Eq, Structural)]
pub struct TooEarly;

/// Voters who are members, none counted twice, are no more than the members.
pub proof fn lemma_votes_fit_seats(v: VotesView, members: Seq<AccountId>)
    requires
        v.wf(),
        v.within(members),
    ensures
        v.ayes.len() + v.nays.len() <= members.len(),
{
    let c = v.ayes + v.nays;
    assert forall|i: int, j: int| 0 <= i < v.ayes.len() && 0 <= j < v.nays.len() implies v.ayes[i]
        != v.nays[j] by {
        assert(v.ayes.contains(v.ayes[i]));
        assert(v.nays.contains(v.nays[j]));
    }
    vstd::seq_lib::lemma_no_dup_in_concat(v.ayes, v.nays);
    c.unique_seq_to_set();
    members.lemma_cardinality_of_set();
    vstd::seq_lib::seq_to_set_is_finite(members);
    assert(c.to_set().subset_of(members.to_set())) by {
        assert forall|a: AccountId| c.to_set().contains(a) implies members.to_set().contains(a) by {
            let i = choose|i: int| 0 <= i < c.len() && c[i] == a;
            if i < v.ayes.len() {
                assert(v.ayes.contains(a));
            } else {
                assert(v.nays[i - v.ayes.len()] == a);
                assert(v.nays.contains(a));
            }
        }
    }
    vstd::set_lib::lemma_len_subset(c.to_set(), members.to_set());
}

/// Purging a well-formed record leaves it well formed. Every voter left is
/// one of `members`, and every voter who is one of `members` is left, on the
/// side they were on.
pub proof fn lemma_purged_wf(v: VotesView, members: Seq<AccountId>)
    requires
        v.wf(),
    ensures
        v.purged(members).wf(),
        v.purged(members).within(members),
        forall|a: AccountId|
            members.contains(a) ==> v.purged(members).stance(a) == v.stance(a),
        forall|a: AccountId| !members.contains(a) ==> v.purged(members).stance(a).is_none(),
{
    let p = |a: AccountId| members.contains(a);
    lemma_filter_members(v.ayes, p);
    lemma_filter_members(v.nays, p);
    let w = v.purged(members);
    assert forall|a: AccountId| !(w.ayes.contains(a) && w.nays.contains(a)) by {
        assert(!(v.ayes.contains(a) && v.nays.contains(a)));
    }
}

/// A vote that repeats the voter's present stance.
#[derive(Clone, Copy, Debug, PartialEq, Eq, Structural)]
pub struct DuplicateVote;

/// A vote by `who` on a well-formed record leaves it well formed, with `who`
/// on the side voted for and on no other.
pub proof fn lemma_voted_wf(v: VotesView, who: AccountId, approve: bool)
    requires
        v.wf(),
        v.stance(who) != Some(approve),
    ensures
        v.voted(who, approve).wf(),
        v.voted(who, approve).stance(who) == Some(approve),
        forall|a: AccountId| a != who ==> v.voted(who, approve).stance(a) == v.stance(a),
        forall|m: Seq<AccountId>| v.within(m) && m.contains(who) ==> #[trigger] v.voted(
            who,
            approve,
        ).within(m),
{
    lemma_remove_value(v.ayes, who);
    lemma_remove_value(v.nays, who);
    if approve {
        lemma_push_fresh(v.ayes, who);
    } else {
        lemma_push_fresh(v.nays, who);
    }
    let w = v.voted(who, approve);
    assert forall|a: AccountId| !(w.ayes.contains(a) && w.nays.contains(a)) by {
        if a != who {
            assert(!(v.ayes.contains(a) && v.nays.contains(a)));
        }
    }
}

impl Votes<AccountId, BlockNumber> {
    /// How `who` stands on the motion.
    pub fn stance(&self, who: AccountId) -> (r: Option<bool>)
        ensures
            r == self@.stance(who),
    {
        if position(&self.ayes, who).is_some() {
            Some(true)
        } else if position(&self.nays, who).is_some() {
            Some(false)
        } else {
            None
        }
    }

    /// Decides how the motion ends when it is closed at `now`, the collective
    /// being `members` with the given prime.
    pub fn close<D: DefaultVote>(
        &self,
        members: &Vec<AccountId>,
        prime: Option<AccountId>,
        now: BlockNumber,
    ) -> (r: Result<Verdict, TooEarly>)
        requires
            self@.wf(),
            self@.within(members@),
            members.len() <= MemberCount::MAX,
        ensures
            r == self@.verdict::<D>(members.len() as MemberCount, prime, now),
    {
        proof {
            lemma_votes_fit_seats(self@, members@);
        }
        let seats: MemberCount = members.len() as MemberCount;
        let yes: MemberCount = self.ayes.len() as MemberCount;
        let no: MemberCount = self.nays.len() as MemberCount;
        if yes >= self.threshold {
            return Ok(Verdict { approved: true, yes, no });
        }
        if seats - no < self.threshold {
            return Ok(Verdict { approved: false, yes, no });
        }
        if now < self.end {
            return Err(TooEarly);
        }
        let prime_vote = match prime {
            Some(p) => self.stance(p),
            None => None,
        };
        let abstentions: MemberCount = seats - (yes + no);
        if D::default_vote(prime_vote, yes, no, seats) {
            let yes_all: MemberCount = yes + abstentions;
            Ok(Verdict { approved: yes_all >= self.threshold, yes: yes_all, no })
        } else {
            Ok(Verdict { approved: false, yes, no: no + abstentions })
        }
    }

    /// Drops every voter who is not in `members`, an ascending list.
    pub fn purge(&mut self, members: &Vec<AccountId>)
        requires
            old(self)@.wf(),
            ascending(members@),
        ensures
            final(self)@ == old(self)@.purged(members@),
            final(self)@.wf(),
            final(self)@.within(members@),
    {
        proof {
            lemma_purged_wf(self@, members@);
        }
        self.ayes = retain_members(&self.ayes, members);
        self.nays = retain_members(&self.nays, members);
    }

    /// Records the vote of `who`. A vote that repeats the voter's stance is
    /// refused and changes nothing; any other vote moves the voter to the
    /// side voted for.
    pub fn record(&mut self, who: AccountId, approve: bool) -> (r: Result<(), DuplicateVote>)
        requires
            old(self)@.wf(),
        ensures
            r.is_err() <==> old(self)@.stance(who) == Some(approve),
            r.is_err() ==> *final(self) == *old(self),
            r.is_ok() ==> final(self)@ == old(self)@.voted(who, approve),
            final(self)@.wf(),
    {
        match self.stance(who) {
            Some(s) => {
                if s == approve {
                    return Err(DuplicateVote);
                }
            },
            None => {},
        }
        proof {
            lemma_voted_wf(self@, who, approve);
        }
        if approve {
            self.ayes.push(who);
            take_out(&mut self.nays, who);
        } else {
            self.nays.push(who);
            take_out(&mut self.ayes, who);
        }
        Ok(())
    }
}

} // verus!
