use vstd::prelude::*;
use crate::agency::members::{
    ascending,
    in_order,
    lemma_in_order,
    lemma_sorted_ascending,
    sort_accounts,
    sorted,
};
use crate::primitives::seqs::lemma_filter_step;
use crate::primitives::types::AccountId;

pub use crate::primitives::traits::{BadOrigin, EnsureOriginWithArg};

verus! {

/// The accounts of `a` that `b` does not hold, in their order.
pub open spec fn not_in(a: Seq<AccountId>, b: Seq<AccountId>) -> Seq<AccountId> {
    a.filter(|x: AccountId| !b.contains(x))
}

/// Compute diff between new and old members; they **must already be
/// sorted**.
///
/// Returns incoming and outgoing members: those of the new that the old lack,
/// and those of the old that the new lack.
pub fn compute_members_diff_sorted(new_members: &[AccountId], old_members: &[AccountId]) -> (r: (
    Vec<AccountId>,
    Vec<AccountId>,
))
    requires
        sorted(new_members@),
        sorted(old_members@),
    ensures
        r.0@ == not_in(new_members@, old_members@),
        r.1@ == not_in(old_members@, new_members@),
{
    let ghost new = new_members@;
    let ghost old = old_members@;
    let ghost p_in = |x: AccountId| !old.contains(x);
    let ghost p_out = |x: AccountId| !new.contains(x);
    let mut incoming: Vec<AccountId> = Vec::new();
    let mut outgoing: Vec<AccountId> = Vec::new();
    let mut i: usize = 0;
    let mut j: usize = 0;
    proof {
        reveal(Seq::filter);
        assert(new.take(0).filter(p_in) =~= Seq::<AccountId>::empty());
        assert(old.take(0).filter(p_out) =~= Seq::<AccountId>::empty());
    }
    while i < old_members.len() || j < new_members.len()
        invariant
            i <= old_members.len(),
            j <= new_members.len(),
            new == new_members@,
            old == old_members@,
            sorted(new),
            sorted(old),
            p_in == (|x: AccountId| !old.contains(x)),
            p_out == (|x: AccountId| !new.contains(x)),
            incoming@ == new.take(j as int).filter(p_in),
            outgoing@ == old.take(i as int).filter(p_out),
            forall|a: int, b: int| 0 <= a < i && j <= b < new.len() ==> old[a] < new[b],
            forall|a: int, b: int| i <= a < old.len() && 0 <= b < j ==> new[b] < old[a],
        decreases (old_members.len() - i) + (new_members.len() - j),
    {
        if i < old_members.len() && j < new_members.len() && old_members[i] == new_members[j] {
            proof {
                lemma_filter_step(new, p_in, j as int);
                lemma_filter_step(old, p_out, i as int);
                assert(old.contains(new[j as int]));
                assert(new.contains(old[i as int]));
            }
            i += 1;
            j += 1;
        } else if i < old_members.len() && (j >= new_members.len() || old_members[i]
            < new_members[j]) {
            proof {
                lemma_filter_step(old, p_out, i as int);
                let x = old[i as int];
                if new.contains(x) {
                    let b = choose|b: int| 0 <= b < new.len() && new[b] == x;
                    if b < j {
                        assert(new[b] < old[i as int]);
                    } else {
                        assert(new[j as int] <= new[b]);
                    }
                }
            }
            outgoing.push(old_members[i]);
            i += 1;
        } else {
            proof {
                lemma_filter_step(new, p_in, j as int);
                let x = new[j as int];
                if old.contains(x) {
                    let a = choose|a: int| 0 <= a < old.len() && old[a] == x;
                    if a < i {
                        assert(old[a] < new[j as int]);
                    } else {
                        assert(old[i as int] <= old[a]);
                    }
                }
            }
            incoming.push(new_members[j]);
            j += 1;
        }
    }
    proof {
        assert(new.take(new.len() as int) =~= new);
        assert(old.take(old.len() as int) =~= old);
    }
    (incoming, outgoing)
}

/// Trait for type that can handle incremental changes to a set of account
/// IDs.
pub trait ChangeMembers<DaoId> {
    /// What the keeper makes of a change of members: whether `next` is the
    /// keeper after `incoming` joined the members of `dao_id` and replaced
    /// `outgoing`, the new set being `sorted_new`.
    spec fn members_changed(
        &self,
        next: &Self,
        dao_id: DaoId,
        incoming: Seq<AccountId>,
        outgoing: Seq<AccountId>,
        sorted_new: Seq<AccountId>,
    ) -> bool;

    /// The new set is given by `sorted_new` and **must be sorted**;
    /// `incoming` just joined the set and replaced the `outgoing` ones.
    ///
    /// NOTE: This is the only function that needs to be implemented in
    /// `ChangeMembers`.
    ///
    /// This resets any previous value of prime.
    fn change_members_sorted(
        &mut self,
        dao_id: DaoId,
        incoming: &[AccountId],
        outgoing: &[AccountId],
        sorted_new: &[AccountId],
    )
        requires
            ascending(sorted_new@),
        ensures
            old(self).members_changed(final(self), dao_id, incoming@, outgoing@, sorted_new@),
    ;

    /// A number of members `incoming` just joined the set and replaced some
    /// `outgoing` ones. The new set is given by `new`, and need not be
    /// sorted: the keeper is handed it in ascending order.
    ///
    /// This resets any previous value of prime.
    fn change_members(
        &mut self,
        dao_id: DaoId,
        incoming: &[AccountId],
        outgoing: &[AccountId],
        new: Vec<AccountId>,
    )
        ensures
            old(self).members_changed(final(self), dao_id, incoming@, outgoing@, in_order(new@)),
    {
        let ghost given = new@;
        let mut new = new;
        sort_accounts(&mut new);
        proof {
            lemma_in_order(given, new@);
        }
        self.change_members_sorted(dao_id, incoming, outgoing, new.as_slice());
    }

    /// Set the new members; they **must already be sorted**. This will
    /// compute the diff and use it to call `change_members_sorted`: the
    /// keeper is handed those of the new that the old lack as incoming, and
    /// those of the old that the new lack as outgoing.
    ///
    /// This resets any previous value of prime.
    fn set_members_sorted(
        &mut self,
        dao_id: DaoId,
        new_members: &[AccountId],
        old_members: &[AccountId],
    )
        requires
            sorted(new_members@),
            sorted(old_members@),
        ensures
            old(self).members_changed(
                final(self),
                dao_id,
                not_in(new_members@, old_members@),
                not_in(old_members@, new_members@),
                new_members@,
            ),
    {
        let (incoming, outgoing) = compute_members_diff_sorted(new_members, old_members);
        proof {
            lemma_sorted_ascending(new_members@);
        }
        self.change_members_sorted(dao_id, incoming.as_slice(), outgoing.as_slice(), new_members);
    }

    /// Set the prime member.
    fn set_prime(&mut self, _dao_id: DaoId, _prime: Option<AccountId>) {
    }

    /// Get the current prime. A keeper that keeps no prime has none.
    fn get_prime(&self, _dao_id: DaoId) -> (r: Option<AccountId>)
        default_ensures
            r == None::<AccountId>,
    {
        None
    }
}

} // verus!
