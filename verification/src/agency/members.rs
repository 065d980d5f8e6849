use vstd::prelude::*;
use crate::primitives::seqs::lemma_filter_step;
use crate::primitives::types::AccountId;

verus! {

/// Whether `s` is in strictly ascending order, so that nothing occurs twice.
pub open spec fn sorted(s: Seq<AccountId>) -> bool {
    forall|i: int, j: int| 0 <= i < j < s.len() ==> s[i] < s[j]
}

/// Whether `s` is in ascending order, repetitions allowed.
pub open spec fn ascending(s: Seq<AccountId>) -> bool {
    forall|i: int, j: int| 0 <= i <= j < s.len() ==> s[i] <= s[j]
}

/// Calls `sort` of a slice of std, which sorts in ascending order and keeps
/// every element, as its documentation says. The contract claims that: the
/// result is in ascending order and holds each account as often as before.
#[verifier::external_body]
pub(crate) fn sort_accounts(v: &mut Vec<AccountId>)
    ensures
        ascending(final(v)@),
        final(v)@.to_multiset() == old(v)@.to_multiset(),
{
    v.sort();
}

/// The order of accounts: no account is after itself, and of two accounts one
/// is not after the other.
pub open spec fn not_after() -> spec_fn(AccountId, AccountId) -> bool {
    |a: AccountId, b: AccountId| a <= b
}

/// There is one way only to put accounts in ascending order: two ascending
/// lists that hold each account equally often are the same list.
pub proof fn lemma_ascending_unique(x: Seq<AccountId>, y: Seq<AccountId>)
    requires
        ascending(x),
        ascending(y),
        x.to_multiset() == y.to_multiset(),
    ensures
        x == y,
{
    let leq = not_after();
    assert(vstd::relations::total_ordering(leq));
    assert(vstd::relations::sorted_by(x, leq));
    assert(vstd::relations::sorted_by(y, leq));
    vstd::seq_lib::lemma_sorted_unique(x, y, leq);
}

/// The accounts of `s` put in ascending order, each as often as `s` holds it.
pub open spec fn in_order(s: Seq<AccountId>) -> Seq<AccountId> {
    choose|r: Seq<AccountId>| ascending(r) && r.to_multiset() == s.to_multiset()
}

/// An ascending list that holds each account as often as `s` does is `s` put
/// in order.
pub proof fn lemma_in_order(s: Seq<AccountId>, r: Seq<AccountId>)
    requires
        ascending(r),
        r.to_multiset() == s.to_multiset(),
    ensures
        in_order(s) == r,
{
    lemma_ascending_unique(in_order(s), r);
}

/// A list in strictly ascending order is in ascending order.
pub proof fn lemma_sorted_ascending(s: Seq<AccountId>)
    requires
        sorted(s),
    ensures
        ascending(s),
{
}

/// Whether the ascending list `members` holds `who`, found by halving.
pub fn binary_search(members: &Vec<AccountId>, who: AccountId) -> (r: bool)
    requires
        ascending(members@),
    ensures
        r == members@.contains(who),
{
    let mut lo: usize = 0;
    let mut hi: usize = members.len();
    while lo < hi
        invariant
            lo <= hi <= members.len(),
            ascending(members@),
            forall|j: int| 0 <= j < lo ==> members@[j] < who,
            forall|j: int| hi <= j < members.len() ==> members@[j] > who,
        decreases hi - lo,
    {
        let mid: usize = lo + (hi - lo) / 2;
        let m: AccountId = members[mid];
        if m == who {
            return true;
        } else if m < who {
            lo = mid + 1;
        } else {
            hi = mid;
        }
    }
    false
}

/// Whether `members` is in strictly ascending order.
pub fn is_sorted(members: &[AccountId]) -> (r: bool)
    ensures
        r == sorted(members@),
{
    if members.len() < 2 {
        return true;
    }
    let mut i: usize = 1;
    while i < members.len()
        invariant
            1 <= i <= members.len(),
            forall|a: int, b: int| 0 <= a < b < i ==> members@[a] < members@[b],
        decreases members.len() - i,
    {
        if !(members[i - 1] < members[i]) {
            return false;
        }
        proof {
            assert forall|a: int, b: int| 0 <= a < b < i + 1 implies members@[a] < members@[b] by {
                if b == i && a < i - 1 {
                    assert(members@[a] < members@[i - 1]);
                }
            }
        }
        i += 1;
    }
    true
}

/// Whether `members` holds `who`, found by walking the list.
pub fn contains(members: &Vec<AccountId>, who: AccountId) -> (r: bool)
    ensures
        r == members@.contains(who),
{
    let mut i: usize = 0;
    while i < members.len()
        invariant
            i <= members.len(),
            forall|j: int| 0 <= j < i ==> members@[j] != who,
        decreases members.len() - i,
    {
        if members[i] == who {
            return true;
        }
        i += 1;
    }
    false
}

/// What a filter keeps of a list without repetitions: exactly the values that
/// pass, none of them twice.
pub proof fn lemma_filter_members(s: Seq<AccountId>, p: spec_fn(AccountId) -> bool)
    requires
        s.no_duplicates(),
    ensures
        s.filter(p).no_duplicates(),
        forall|a: AccountId| s.filter(p).contains(a) <==> (s.contains(a) && p(a)),
    decreases s.len(),
{
    reveal(Seq::filter);
    if s.len() > 0 {
        let h = s.drop_last();
        let x = s.last();
        lemma_filter_members(h, p);
        let f = h.filter(p);
        assert forall|a: AccountId| s.contains(a) <==> (h.contains(a) || a == x) by {
            if s.contains(a) {
                let i = choose|i: int| 0 <= i < s.len() && s[i] == a;
                if i < h.len() {
                    assert(h[i] == a);
                }
            }
            if h.contains(a) {
                let i = choose|i: int| 0 <= i < h.len() && h[i] == a;
                assert(s[i] == a);
            }
            if a == x {
                assert(s[s.len() - 1] == a);
            }
        }
        assert(!h.contains(x)) by {
            if h.contains(x) {
                let i = choose|i: int| 0 <= i < h.len() && h[i] == x;
                assert(s[i] == s[s.len() - 1]);
            }
        }
        if p(x) {
            assert(!f.contains(x));
            let r = f.push(x);
            assert forall|a: AccountId| r.contains(a) <==> (f.contains(a) || a == x) by {
                if r.contains(a) {
                    let i = choose|i: int| 0 <= i < r.len() && r[i] == a;
                    if i < f.len() {
                        assert(f[i] == a);
                    }
                }
                if f.contains(a) {
                    let i = choose|i: int| 0 <= i < f.len() && f[i] == a;
                    assert(r[i] == a);
                }
                if a == x {
                    assert(r[f.len() as int] == a);
                }
            }
            assert(r.no_duplicates()) by {
                assert forall|i: int, j: int| 0 <= i < r.len() && 0 <= j < r.len() && i
                    != j implies r[i] != r[j] by {
                    if i < f.len() && j < f.len() {
                    } else if i < f.len() {
                        assert(f.contains(f[i]));
                    } else {
                        assert(f.contains(f[j]));
                    }
                }
            }
        }
    } else {
        assert forall|a: AccountId| !s.contains(a) by {}
    }
}

/// The elements of `v` that `members`, an ascending list, holds, in their
/// order.
pub fn retain_members(v: &Vec<AccountId>, members: &Vec<AccountId>) -> (r: Vec<AccountId>)
    requires
        ascending(members@),
    ensures
        r@ == v@.filter(|a: AccountId| members@.contains(a)),
{
    let ghost p = |a: AccountId| members@.contains(a);
    let mut out: Vec<AccountId> = Vec::new();
    let mut i: usize = 0;
    assert(v@.take(0).filter(p) =~= Seq::<AccountId>::empty()) by {
        reveal(Seq::filter);
    }
    while i < v.len()
        invariant
            i <= v.len(),
            ascending(members@),
            p == (|a: AccountId| members@.contains(a)),
            out@ == v@.take(i as int).filter(p),
        decreases v.len() - i,
    {
        let x: AccountId = v[i];
        proof {
            lemma_filter_step(v@, p, i as int);
        }
        if binary_search(members, x) {
            out.push(x);
        }
        i += 1;
    }
    assert(v@.take(v.len() as int) =~= v@);
    out
}

} // verus!
