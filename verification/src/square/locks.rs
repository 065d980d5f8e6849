use vstd::prelude::*;
use crate::error::DispatchError;
use crate::primitives::ids::DaoId;
use crate::primitives::seqs::lemma_filter_step;
use crate::primitives::types::{AccountId, Balance, BlockNumber};
use crate::square::referenda::retracted;
use crate::square::traits::Pledge;
use crate::square::types::{Opinion, ReferendumIndex, Tally, VoteLock};

verus! {

/// Whether a lock is from a vote on the referendum `index` of `dao_id`.
pub open spec fn lock_matches<C, P>(
    lock: VoteLock<C, P>,
    dao_id: DaoId,
    index: ReferendumIndex,
) -> bool {
    lock.dao_id == dao_id && lock.referendum_index == index
}

/// Whether the stake behind the lock at `i` was released: a lock that
/// `released` does not reach was not.
pub open spec fn was_released(released: Seq<bool>, i: int) -> bool {
    0 <= i < released.len() && released[i]
}

/// The locks that stay when the votes on a referendum are cancelled, among
/// the first `n` of `locks`: a lock of that referendum goes where its stake
/// was released, `released` holding for each lock whether it was.
pub open spec fn cancel_kept<C, P>(
    locks: Seq<VoteLock<C, P>>,
    released: Seq<bool>,
    dao_id: DaoId,
    index: ReferendumIndex,
    n: nat,
) -> Seq<VoteLock<C, P>>
    decreases n,
{
    if n == 0 {
        Seq::empty()
    } else {
        let kept = cancel_kept(locks, released, dao_id, index, (n - 1) as nat);
        let lock = locks[n - 1];
        if lock_matches(lock, dao_id, index) && was_released(released, n - 1) {
            kept
        } else {
            kept.push(lock)
        }
    }
}

/// The tally after the votes behind the first `n` of `locks` are cancelled:
/// the weight of each lock that goes is taken off its side.
pub open spec fn cancel_tally<C, P>(
    locks: Seq<VoteLock<C, P>>,
    released: Seq<bool>,
    dao_id: DaoId,
    index: ReferendumIndex,
    tally: Tally<Balance>,
    n: nat,
) -> Tally<Balance>
    decreases n,
{
    if n == 0 {
        tally
    } else {
        let t = cancel_tally(locks, released, dao_id, index, tally, (n - 1) as nat);
        let lock = locks[n - 1];
        if lock_matches(lock, dao_id, index) && was_released(released, n - 1) {
            retracted(t, lock.opinion, lock.vote_weight)
        } else {
            t
        }
    }
}

/// The locks that stay at `now`, among the first `n` of `locks`: a lock goes
/// where its time has come and its stake was released.
pub open spec fn unlock_kept<C, P>(
    locks: Seq<VoteLock<C, P>>,
    released: Seq<bool>,
    now: BlockNumber,
    n: nat,
) -> Seq<VoteLock<C, P>>
    decreases n,
{
    if n == 0 {
        Seq::empty()
    } else {
        let kept = unlock_kept(locks, released, now, (n - 1) as nat);
        let lock = locks[n - 1];
        if lock.unlock_block <= now && was_released(released, n - 1) {
            kept
        } else {
            kept.push(lock)
        }
    }
}

/// The locks that go at `now`, among the first `n` of `locks`.
pub open spec fn unlock_gone<C, P>(
    locks: Seq<VoteLock<C, P>>,
    released: Seq<bool>,
    now: BlockNumber,
    n: nat,
) -> Seq<VoteLock<C, P>>
    decreases n,
{
    if n == 0 {
        Seq::empty()
    } else {
        let gone = unlock_gone(locks, released, now, (n - 1) as nat);
        let lock = locks[n - 1];
        if lock.unlock_block <= now && was_released(released, n - 1) {
            gone.push(lock)
        } else {
            gone
        }
    }
}

/// A tally with `weight` added to the side of `opinion`.
pub open spec fn added(tally: Tally<Balance>, opinion: Opinion, weight: Balance) -> Tally<Balance> {
    match opinion {
        Opinion::AYES => Tally { ayes: (tally.ayes + weight) as Balance, nays: tally.nays },
        Opinion::NAYS => Tally { ayes: tally.ayes, nays: (tally.nays + weight) as Balance },
    }
}

/// Whether adding `weight` to the side of `opinion` gives more than a tally
/// can hold.
pub open spec fn add_overflows(tally: Tally<Balance>, opinion: Opinion, weight: Balance) -> bool {
    match opinion {
        Opinion::AYES => tally.ayes + weight > Balance::MAX,
        Opinion::NAYS => tally.nays + weight > Balance::MAX,
    }
}

/// Whether a deposit that is free from `until` on is still reserved at `now`.
pub open spec fn still_reserved(now: BlockNumber) -> spec_fn((Balance, BlockNumber)) -> bool {
    |r: (Balance, BlockNumber)| r.1 > now
}

/// Whether a deposit that is free from `until` on is free at `now`.
pub open spec fn now_free(now: BlockNumber) -> spec_fn((Balance, BlockNumber)) -> bool {
    |r: (Balance, BlockNumber)| r.1 <= now
}

/// The amounts of the deposits among `reserves` that are free at `now`.
pub open spec fn freed(reserves: Seq<(Balance, BlockNumber)>, now: BlockNumber) -> Seq<Balance> {
    reserves.filter(now_free(now)).map_values(|r: (Balance, BlockNumber)| r.0)
}

/// Sweeps `reserves` at `now`: the deposits that stay reserved, and the
/// amounts that are free.
pub fn settle_reserves(reserves: &Vec<(Balance, BlockNumber)>, now: BlockNumber) -> (r: (
    Vec<(Balance, BlockNumber)>,
    Vec<Balance>,
))
    ensures
        r.0@ == reserves@.filter(still_reserved(now)),
        r.1@ == freed(reserves@, now),
{
    let mut kept: Vec<(Balance, BlockNumber)> = Vec::new();
    let mut free: Vec<Balance> = Vec::new();
    let mut i: usize = 0;
    assert(reserves@.take(0).filter(still_reserved(now)) =~= Seq::empty()) by {
        reveal(Seq::filter);
    }
    assert(freed(reserves@.take(0), now) =~= Seq::empty()) by {
        reveal(Seq::filter);
    }
    while i < reserves.len()
        invariant
            i <= reserves.len(),
            kept@ == reserves@.take(i as int).filter(still_reserved(now)),
            free@ == freed(reserves@.take(i as int), now),
        decreases reserves.len() - i,
    {
        let entry = reserves[i];
        proof {
            lemma_filter_step(reserves@, still_reserved(now), i as int);
            lemma_filter_step(reserves@, now_free(now), i as int);
        }
        if entry.1 > now {
            kept.push(entry);
        } else {
            free.push(entry.0);
            assert(free@ =~= freed(reserves@.take(i + 1), now));
        }
        i += 1;
    }
    assert(reserves@.take(reserves.len() as int) =~= reserves@);
    (kept, free)
}

/// A tally with `weight` taken off the side of `opinion`.
pub fn retract(tally: Tally<Balance>, opinion: Opinion, weight: Balance) -> (r: Tally<Balance>)
    ensures
        r == retracted(tally, opinion, weight),
{
    match opinion {
        Opinion::AYES => Tally { ayes: tally.ayes.saturating_sub(weight), nays: tally.nays },
        Opinion::NAYS => Tally { ayes: tally.ayes, nays: tally.nays.saturating_sub(weight) },
    }
}

/// Cancels the votes on the referendum `index` of `dao_id` among `locks`,
/// given for each lock whether its stake was released: the locks that stay,
/// and the tally without the votes that went.
pub fn settle_cancel<C: Copy, P: Copy>(
    locks: &Vec<VoteLock<C, P>>,
    released: &Vec<bool>,
    dao_id: DaoId,
    index: ReferendumIndex,
    tally: Tally<Balance>,
) -> (r: (Vec<VoteLock<C, P>>, Tally<Balance>))
    ensures
        r.0@ == cancel_kept(locks@, released@, dao_id, index, locks@.len()),
        r.1 == cancel_tally(locks@, released@, dao_id, index, tally, locks@.len()),
{
    let mut kept: Vec<VoteLock<C, P>> = Vec::new();
    let mut t = tally;
    let mut i: usize = 0;
    while i < locks.len()
        invariant
            i <= locks.len(),
            kept@ == cancel_kept(locks@, released@, dao_id, index, i as nat),
            t == cancel_tally(locks@, released@, dao_id, index, tally, i as nat),
        decreases locks.len() - i,
    {
        let lock = locks[i];
        if lock.dao_id.0 == dao_id.0 && lock.referendum_index == index && i < released.len()
            && released[i] {
            t = retract(t, lock.opinion, lock.vote_weight);
        } else {
            kept.push(lock);
        }
        i += 1;
    }
    (kept, t)
}

/// Sweeps `locks` at `now`, given for each lock whether its stake was
/// released: the locks that stay, and the locks that go.
pub fn settle_unlock<C: Copy, P: Copy>(
    locks: &Vec<VoteLock<C, P>>,
    released: &Vec<bool>,
    now: BlockNumber,
) -> (r: (Vec<VoteLock<C, P>>, Vec<VoteLock<C, P>>))
    ensures
        r.0@ == unlock_kept(locks@, released@, now, locks@.len()),
        r.1@ == unlock_gone(locks@, released@, now, locks@.len()),
{
    let mut kept: Vec<VoteLock<C, P>> = Vec::new();
    let mut gone: Vec<VoteLock<C, P>> = Vec::new();
    let mut i: usize = 0;
    while i < locks.len()
        invariant
            i <= locks.len(),
            kept@ == unlock_kept(locks@, released@, now, i as nat),
            gone@ == unlock_gone(locks@, released@, now, i as nat),
        decreases locks.len() - i,
    {
        let lock = locks[i];
        if lock.unlock_block <= now && i < released.len() && released[i] {
            gone.push(lock);
        } else {
            kept.push(lock);
        }
        i += 1;
    }
    (kept, gone)
}

/// Asks the pledge behind each lock of the referendum `index` of `dao_id` to
/// release the stake of `who`, and says for each lock whether it did. No
/// other lock is asked.
pub fn release_matching<
    C: Copy,
    P: Copy + Pledge<Balance, AccountId, DaoId, V, BlockNumber, DispatchError>,
    V,
>(locks: &Vec<VoteLock<C, P>>, who: AccountId, dao_id: DaoId, index: ReferendumIndex) -> (r: Vec<
    bool,
>)
    ensures
        r.len() == locks.len(),
        forall|i: int|
            0 <= i < locks.len() && !lock_matches(locks@[i], dao_id, index) ==> !r@[i],
{
    let mut released: Vec<bool> = Vec::new();
    let mut i: usize = 0;
    while i < locks.len()
        invariant
            i <= locks.len(),
            released.len() == i,
            forall|k: int| 0 <= k < i && !lock_matches(locks@[k], dao_id, index) ==> !released@[k],
        decreases locks.len() - i,
    {
        let lock = locks[i];
        if lock.dao_id.0 == dao_id.0 && lock.referendum_index == index {
            let ok = lock.pledge.vote_end_do(&who, &dao_id).is_ok();
            released.push(ok);
        } else {
            released.push(false);
        }
        i += 1;
    }
    released
}

/// Asks the pledge behind each lock whose time has come at `now` to release
/// the stake of `who`, and says for each lock whether it did. No other lock
/// is asked.
pub fn release_due<
    C: Copy,
    P: Copy + Pledge<Balance, AccountId, DaoId, V, BlockNumber, DispatchError>,
    V,
>(locks: &Vec<VoteLock<C, P>>, who: AccountId, now: BlockNumber) -> (r: Vec<bool>)
    ensures
        r.len() == locks.len(),
        forall|i: int| 0 <= i < locks.len() && locks@[i].unlock_block > now ==> !r@[i],
{
    let mut released: Vec<bool> = Vec::new();
    let mut i: usize = 0;
    while i < locks.len()
        invariant
            i <= locks.len(),
            released.len() == i,
            forall|k: int| 0 <= k < i && locks@[k].unlock_block > now ==> !released@[k],
        decreases locks.len() - i,
    {
        let lock = locks[i];
        if lock.unlock_block <= now {
            let ok = lock.pledge.vote_end_do(&who, &lock.dao_id).is_ok();
            released.push(ok);
        } else {
            released.push(false);
        }
        i += 1;
    }
    released
}

} // verus!
