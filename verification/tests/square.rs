use daos::dao;
use daos::emergency;
use daos::error::{DispatchError, ErrorKind};
use daos::primitives::account::AccountIdConversion;
use daos::primitives::action::Action;
use daos::primitives::ids::{DaoId, Nft};
use daos::square::errors::Error;
use daos::square::locks::{retract, settle_cancel, settle_reserves, settle_unlock};
use daos::square::pallet::{Enacted, Pallet, Reserve};
use daos::square::referenda::{backing_of, Referenda};
use daos::square::traits::Pledge;
use daos::square::types::{Opinion, PublicProposal, ReferendumState, Tally, VoteInfo, VoteLock};

const ALICE: u64 = 1;
const BOB: u64 = 2;

fn action(tag: u8) -> Action {
    Action { call_id: Some(tag as u32), data: vec![tag, 1, 2, 3] }
}

/// A stake that weighs what it holds and stays locked for ten. A stake of
/// nothing is refused, and a stake of 13 cannot be released.
#[derive(Clone, Copy, Debug, PartialEq)]
struct Stake(u128);

impl Pledge<u128, u64, DaoId, u8, u64, DispatchError> for Stake {
    fn try_vote(&self, _who: &u64, _dao_id: &DaoId, conviction: &u8) -> Result<(u128, u64), DispatchError> {
        if self.0 == 0 {
            Err(DispatchError::Square(Error::PledgeNotEnough))
        } else {
            Ok((self.0 * (*conviction as u128), 10))
        }
    }

    fn vote_end_do(&self, _who: &u64, _dao_id: &DaoId) -> Result<(), DispatchError> {
        if self.0 == 13 {
            Err(DispatchError::Square(Error::PledgeNotEnough))
        } else {
            Ok(())
        }
    }
}

type Square = Pallet<Nft<u32>, Stake, u8>;

fn daos() -> dao::Pallet<Nft<u32>> {
    let mut daos = dao::Pallet::new();
    daos.create_dao::<()>(ALICE, Nft(0u32), vec![], 0).unwrap();
    daos
}

fn root() -> u64 {
    Nft(0u32).into_account()
}

#[test]
fn defaults_of_a_square() {
    let r = Referenda::new();
    assert_eq!(r.public_prop_count(), 0);
    assert_eq!(r.max_public_props(), 100);
    assert_eq!(r.launch_period(), 900);
    assert_eq!(r.minimum_deposit(), 0);
    assert_eq!(r.voting_period(), 900);
    assert_eq!(r.reserve_period(), 900);
    assert_eq!(r.enactment_period(), 900);
    assert_eq!(r.launch_tag(), 0);
    assert_eq!(r.referendum_count(), 0);
    assert_eq!(r.public_props_len(), 0);
    assert_eq!(r.min_vote_weight_of(3), 0);
    assert_eq!(daos::square::MaxPublicPropsOnEmpty(), 100);
    assert_eq!(daos::square::LaunchPeriodOnEmpty(), 900);
    assert_eq!(daos::square::VotingPeriodOnEmpty(), 900);
    assert_eq!(daos::square::ReservePeriodOnEmpty(), 900);
    assert_eq!(daos::square::EnactmentPeriodOnEmpty(), 900);
}

#[test]
fn proposals_are_queued_under_rising_indices() {
    let mut r = Referenda::new();
    r.set_minimum_deposit(10);
    r.set_max_public_props(2);
    assert_eq!(r.propose(ALICE, [1; 32], action(1), 9), Err(Error::DepositTooLow));
    assert_eq!(r.propose(ALICE, [1; 32], action(1), 10), Ok(0));
    assert_eq!(r.propose(BOB, [2; 32], action(2), 11), Ok(1));
    assert_eq!(r.propose(BOB, [3; 32], action(3), 11), Err(Error::TooManyProposals));
    assert_eq!(r.propose(BOB, [3; 32], action(3), 1), Err(Error::DepositTooLow));
    assert_eq!(r.public_prop_count(), 2);
    assert_eq!(r.deposit_of(0), Some((vec![ALICE], 10)));
    assert_eq!(r.deposit_of(1), Some((vec![BOB], 11)));
    assert_eq!(r.deposit_of(2), None);
    assert_eq!(r.backing_for(1), Some(11));
    assert_eq!(r.backing_for(2), None);
}

#[test]
fn backers_add_to_the_backing() {
    let mut r = Referenda::new();
    r.propose(ALICE, [1; 32], action(1), 10).unwrap();
    assert_eq!(r.second(BOB, 1, 5), Err(Error::ProposalMissing));
    assert_eq!(r.second(BOB, 0, 5), Ok((10, 905)));
    assert_eq!(r.second(BOB, 0, 6), Ok((10, 906)));
    assert_eq!(r.second(ALICE, 0, u64::MAX - 899), Err(Error::Overflow));
    assert_eq!(r.second(ALICE, 0, u64::MAX - 900), Ok((10, u64::MAX)));
    assert_eq!(r.deposit_of(0), Some((vec![ALICE, BOB, BOB, ALICE], 10)));
    assert_eq!(r.backing_for(0), Some(40));
}

#[test]
fn backing_is_capped() {
    let p = PublicProposal {
        index: 0,
        hash: [0; 32],
        call: action(1),
        proposer: ALICE,
        backers: vec![ALICE, BOB, 3],
        deposit: u128::MAX / 2,
    };
    assert_eq!(backing_of(&p), u128::MAX);
    let q = PublicProposal { deposit: 7, ..p };
    assert_eq!(backing_of(&q), 21);
}

#[test]
fn launch_takes_the_greatest_backing() {
    let mut r = Referenda::new();
    assert_eq!(r.launch(0, 0), Err(Error::NotTableTime));
    assert_eq!(r.launch(5, 5), Err(Error::NotTableTime));
    assert_eq!(r.launch(4, 5), Err(Error::NotTableTime));
    assert_eq!(r.launch(1, 0), Err(Error::NoneWaiting));
    r.propose(ALICE, [1; 32], action(1), 10).unwrap(); // backing 10
    r.propose(ALICE, [2; 32], action(2), 6).unwrap(); // backing 18
    r.propose(ALICE, [3; 32], action(3), 9).unwrap(); // backing 18
    r.propose(ALICE, [4; 32], action(4), 1).unwrap(); // backing 1
    r.second(BOB, 1, 0).unwrap();
    r.second(3, 1, 0).unwrap();
    r.second(BOB, 2, 0).unwrap();
    assert_eq!(r.backing_for(1), Some(18));
    assert_eq!(r.backing_for(2), Some(18));
    // of two with the greatest backing the first in the queue is taken
    assert_eq!(r.launch(7, 0), Ok(0));
    assert_eq!(r.backing_for(1), None);
    assert_eq!(
        r.referendum_info(0),
        Some(ReferendumState::Ongoing { end: 907, delay: 900, tally: Tally { ayes: 0, nays: 0 } })
    );
    // the last of the queue has taken its place: 0, 3, 2
    assert_eq!(r.public_props_len(), 3);
    assert_eq!(r.launch(8, 0), Ok(1));
    assert_eq!(r.backing_for(2), None);
    assert_eq!(r.launch(9, 0), Ok(2));
    assert_eq!(r.backing_for(0), None);
    assert_eq!(r.launch(9, 0), Ok(3));
    assert_eq!(r.launch(9, 0), Err(Error::NoneWaiting));
    assert_eq!(r.referendum_count(), 4);
    assert_eq!(r.public_prop_count(), 4);
}

#[test]
fn voting_ends_at_the_end() {
    let mut r = Referenda::new();
    r.set_voting_period(u64::MAX);
    r.propose(ALICE, [1; 32], action(1), 0).unwrap();
    r.launch(5, 0).unwrap();
    assert_eq!(r.referendum_info(0).unwrap(), ReferendumState::Ongoing {
        end: u64::MAX,
        delay: 900,
        tally: Tally { ayes: 0, nays: 0 }
    });
    assert_eq!(r.votable(0, u64::MAX - 1), Ok(()));
    assert_eq!(r.votable(0, u64::MAX), Err(Error::VoteEnd));
    assert_eq!(r.votable(1, 0), Err(Error::ReferendumNotExists));
    assert_eq!(r.add_vote(0, Opinion::AYES, u128::MAX), Ok(()));
    assert_eq!(r.add_vote(0, Opinion::AYES, 1), Err(Error::Overflow));
    assert_eq!(r.add_vote(0, Opinion::NAYS, 5), Ok(()));
    assert_eq!(r.tally_of(0), Some(Tally { ayes: u128::MAX, nays: 5 }));
    r.retract_vote(0, Opinion::NAYS, 9);
    r.retract_vote(0, Opinion::AYES, 9);
    assert_eq!(r.tally_of(0), Some(Tally { ayes: u128::MAX - 9, nays: 0 }));
    r.set_tally(0, Tally { ayes: 1, nays: 2 });
    assert_eq!(r.tally_of(0), Some(Tally { ayes: 1, nays: 2 }));
    assert_eq!(r.tally_of(1), None);
    // the end and the delay together are beyond the clock: never enacted
    assert_eq!(r.enact_check(0, u64::MAX), Err(DispatchError::Square(Error::InDelayTime)));
}

fn launched(square: &mut Square, daos: &dao::Pallet<Nft<u32>>, call: Action) {
    square.propose(daos, ALICE, DaoId(0), call, 0).unwrap();
    assert_eq!(square.open_table(daos, BOB, DaoId(0), 100), Ok(0));
}

#[test]
fn a_referendum_below_the_minimum_weight_stays_open() {
    let daos = daos();
    let mut square: Square = Pallet::new();
    square.set_min_vote_weight_for_every_call(&daos, root(), DaoId(0), 7, 1000).unwrap();
    launched(&mut square, &daos, action(7));
    square.vote_for_referendum(&daos, ALICE, DaoId(0), 0, Stake(600), 1, Opinion::AYES, 100).unwrap();
    square.vote_for_referendum(&daos, BOB, DaoId(0), 0, Stake(300), 1, Opinion::NAYS, 100).unwrap();
    // voting ends at 1000, the delay at 1900
    let open = Some(ReferendumState::Ongoing {
        end: 1000,
        delay: 900,
        tally: Tally { ayes: 600, nays: 300 },
    });
    let too_low = DispatchError::Square(Error::VoteWeightTooLow);
    assert_eq!(square.enact_proposal(&daos, BOB, DaoId(0), 0, 1900).unwrap_err(), too_low);
    assert_eq!(square.referendum_info(DaoId(0), 0), open);
    assert_eq!(square.enact_proposal(&daos, BOB, DaoId(0), 0, 5000).unwrap_err(), too_low);
    assert_eq!(square.referendum_info(DaoId(0), 0), open);
    // the minimum is lowered to what the votes weigh
    square.set_min_vote_weight_for_every_call(&daos, root(), DaoId(0), 7, 900).unwrap();
    match square.enact_proposal(&daos, BOB, DaoId(0), 0, 5000) {
        Ok(Enacted::Approved(run)) => {
            assert_eq!(run.dao_account, root());
            assert_eq!(run.call, action(7));
        },
        other => panic!("{:?}", other),
    }
    assert_eq!(
        square.referendum_info(DaoId(0), 0),
        Some(ReferendumState::Finished { approved: true, end: 5000 })
    );
    assert_eq!(
        square.enact_proposal(&daos, BOB, DaoId(0), 0, 5000).unwrap_err(),
        DispatchError::Square(Error::ReferendumFinished)
    );
}

#[test]
fn enacting_waits_for_the_end_and_the_delay() {
    let daos = daos();
    let mut square: Square = Pallet::new();
    launched(&mut square, &daos, action(7));
    square.vote_for_referendum(&daos, ALICE, DaoId(0), 0, Stake(5), 1, Opinion::NAYS, 100).unwrap();
    square.vote_for_referendum(&daos, BOB, DaoId(0), 0, Stake(5), 1, Opinion::AYES, 999).unwrap();
    let err = |e: Error| DispatchError::Square(e);
    assert_eq!(square.enact_proposal(&daos, BOB, DaoId(0), 1, 0).unwrap_err(), err(Error::ReferendumNotExists));
    assert_eq!(square.enact_proposal(&daos, BOB, DaoId(0), 0, 999).unwrap_err(), err(Error::VoteNotEnd));
    assert_eq!(square.enact_proposal(&daos, BOB, DaoId(0), 0, 1000).unwrap_err(), err(Error::InDelayTime));
    assert_eq!(square.enact_proposal(&daos, BOB, DaoId(0), 0, 1899).unwrap_err(), err(Error::InDelayTime));
    // a tie is no approval; the outcome is recorded and nothing runs
    assert_eq!(square.enact_proposal(&daos, BOB, DaoId(0), 0, 1900), Ok(Enacted::Rejected));
    assert_eq!(
        square.referendum_info(DaoId(0), 0),
        Some(ReferendumState::Finished { approved: false, end: 1900 })
    );
    assert_eq!(
        square.vote_for_referendum(&daos, BOB, DaoId(0), 0, Stake(5), 1, Opinion::AYES, 1900),
        Err(err(Error::ReferendumFinished))
    );
    assert_eq!(square.cancel_vote(BOB, DaoId(0), 0, 1900), Err(err(Error::ReferendumFinished)));
}

#[test]
fn an_action_without_a_kind_is_not_enacted() {
    let daos = daos();
    let mut square: Square = Pallet::new();
    launched(&mut square, &daos, Action { call_id: None, data: vec![1] });
    assert_eq!(
        square.enact_proposal(&daos, BOB, DaoId(0), 0, 5000).unwrap_err(),
        DispatchError::Dao(dao::Error::InVailCall)
    );
    assert!(matches!(square.referendum_info(DaoId(0), 0), Some(ReferendumState::Ongoing { .. })));
}

#[test]
fn votes_leave_locks() {
    let daos = daos();
    let mut square: Square = Pallet::new();
    launched(&mut square, &daos, action(7));
    let err = |e: Error| Err(DispatchError::Square(e));
    assert_eq!(
        square.vote_for_referendum(&daos, ALICE, DaoId(0), 1, Stake(5), 1, Opinion::AYES, 100),
        err(Error::ReferendumNotExists)
    );
    assert_eq!(
        square.vote_for_referendum(&daos, ALICE, DaoId(0), 0, Stake(5), 1, Opinion::AYES, 1000),
        err(Error::VoteEnd)
    );
    assert_eq!(
        square.vote_for_referendum(&daos, ALICE, DaoId(0), 0, Stake(0), 1, Opinion::AYES, 100),
        err(Error::PledgeNotEnough)
    );
    assert_eq!(
        square.vote_for_referendum(&daos, ALICE, DaoId(0), 0, Stake(5), 1, Opinion::AYES, u64::MAX - 9),
        err(Error::VoteEnd)
    );
    assert!(square.votes_of(ALICE).is_empty());
    assert_eq!(square.vote_for_referendum(&daos, ALICE, DaoId(0), 0, Stake(5), 3, Opinion::AYES, 100), Ok(()));
    assert_eq!(square.vote_for_referendum(&daos, ALICE, DaoId(0), 0, Stake(13), 1, Opinion::NAYS, 200), Ok(()));
    let first: VoteLock<Nft<u32>, Stake> = VoteInfo {
        dao_id: DaoId(0),
        concrete_id: Nft(0),
        pledge: Stake(5),
        opinion: Opinion::AYES,
        vote_weight: 15,
        unlock_block: 110,
        referendum_index: 0,
    };
    let second = VoteInfo { pledge: Stake(13), opinion: Opinion::NAYS, vote_weight: 13, unlock_block: 210, ..first };
    assert_eq!(square.votes_of(ALICE), vec![first, second]);
    assert!(square.votes_of(BOB).is_empty());
    assert_eq!(
        square.referendum_info(DaoId(0), 0),
        Some(ReferendumState::Ongoing { end: 1000, delay: 900, tally: Tally { ayes: 15, nays: 13 } })
    );
    // what the pledge answered decides, whatever it is
    assert_eq!(
        square.record_vote(BOB, DaoId(0), 0, Nft(0), Stake(1), Opinion::AYES, 100, Ok((u128::MAX, 1))),
        err(Error::Overflow)
    );
    assert_eq!(
        square.record_vote(BOB, DaoId(0), 0, Nft(0), Stake(1), Opinion::AYES, 100, Ok((1, u64::MAX))),
        err(Error::Overflow)
    );
    assert_eq!(
        square.record_vote(
            BOB,
            DaoId(0),
            0,
            Nft(0),
            Stake(1),
            Opinion::AYES,
            100,
            Err(DispatchError::Square(Error::PledgeNotEnough))
        ),
        err(Error::PledgeNotEnough)
    );
    assert!(square.votes_of(BOB).is_empty());
    assert_eq!(
        square.record_vote(BOB, DaoId(0), 0, Nft(0), Stake(1), Opinion::NAYS, 100, Ok((7, 1))),
        Ok(())
    );
    assert_eq!(square.votes_of(BOB).len(), 1);
    assert_eq!(square.votes_of(BOB)[0].unlock_block, 101);

    // cancelling asks each pledge: the stake of 13 cannot be released and
    // its lock stays with its weight
    assert_eq!(square.cancel_vote(ALICE, DaoId(0), 0, 1000), err(Error::VoteEnd));
    assert_eq!(square.cancel_vote(ALICE, DaoId(0), 0, 999), Ok(()));
    assert_eq!(square.votes_of(ALICE), vec![second]);
    assert_eq!(
        square.referendum_info(DaoId(0), 0),
        Some(ReferendumState::Ongoing { end: 1000, delay: 900, tally: Tally { ayes: 0, nays: 20 } })
    );
    // the sweep keeps it too, and never fails
    let freed = square.unlock(ALICE, 5000);
    assert!(freed.released.is_empty());
    assert!(freed.unreserved.is_empty());
    assert_eq!(square.votes_of(ALICE), vec![second]);
    let freed = square.unlock(BOB, 100);
    assert!(freed.released.is_empty());
    let freed = square.unlock(BOB, 101);
    assert_eq!(freed.released.len(), 1);
    assert!(square.votes_of(BOB).is_empty());
}

#[test]
fn settling_by_hand() {
    let lock = |index: u32, weight: u128, opinion: Opinion, until: u64| -> VoteLock<u8, u8> {
        VoteInfo {
            dao_id: DaoId(0),
            concrete_id: 0,
            pledge: 0,
            opinion,
            vote_weight: weight,
            unlock_block: until,
            referendum_index: index,
        }
    };
    let locks = vec![
        lock(0, 5, Opinion::AYES, 10),
        lock(1, 6, Opinion::AYES, 20),
        lock(0, 7, Opinion::NAYS, 30),
        lock(0, 8, Opinion::NAYS, 40),
    ];
    let tally = Tally { ayes: 11, nays: 15 };
    let (kept, t) = settle_cancel(&locks, &vec![true, true, false, true], DaoId(0), 0, tally);
    assert_eq!(kept, vec![locks[1], locks[2]]);
    assert_eq!(t, Tally { ayes: 6, nays: 7 });
    // locks that the answers do not reach stay
    let (kept, t) = settle_cancel(&locks, &vec![true], DaoId(0), 0, tally);
    assert_eq!(kept, vec![locks[1], locks[2], locks[3]]);
    assert_eq!(t, Tally { ayes: 6, nays: 15 });
    // another DAO
    let (kept, t) = settle_cancel(&locks, &vec![true, true, true, true], DaoId(1), 0, tally);
    assert_eq!((kept, t), (locks.clone(), tally));
    let (kept, gone) = settle_unlock(&locks, &vec![true, false, true, true], 30);
    assert_eq!(kept, vec![locks[1], locks[3]]);
    assert_eq!(gone, vec![locks[0], locks[2]]);
    assert_eq!(retract(Tally { ayes: 3, nays: 9 }, Opinion::AYES, 4), Tally { ayes: 0, nays: 9 });
    assert_eq!(retract(Tally { ayes: 3, nays: 9 }, Opinion::NAYS, 4), Tally { ayes: 3, nays: 5 });
    let (kept, free) = settle_reserves(&vec![(5, 10), (6, 11), (7, 9), (8, 12)], 10);
    assert_eq!(kept, vec![(6, 11), (8, 12)]);
    assert_eq!(free, vec![5, 7]);
}

#[test]
fn deposits_are_reserved_and_freed_one_by_one() {
    let daos = daos();
    let mut square: Square = Pallet::new();
    square.set_minimum_deposit(&daos, root(), DaoId(0), 50).unwrap();
    square.set_rerserve_period(&daos, root(), DaoId(0), 10).unwrap();
    let deposited = square.propose(&daos, ALICE, DaoId(0), action(1), 50).unwrap();
    assert_eq!(deposited.index, 0);
    assert_eq!(deposited.proposal_hash, action(1).hash());
    assert_eq!(deposited.reserve, Reserve { who: ALICE, amount: 50 });
    assert_eq!(
        square.propose(&daos, ALICE, DaoId(0), action(1), 49).unwrap_err(),
        DispatchError::Square(Error::DepositTooLow)
    );
    assert_eq!(
        square.propose(&daos, ALICE, DaoId(5), action(1), 50).unwrap_err(),
        DispatchError::Dao(dao::Error::DaoNotExists)
    );
    assert_eq!(square.second(BOB, DaoId(0), 0, 100), Ok(Reserve { who: BOB, amount: 50 }));
    assert_eq!(square.second(BOB, DaoId(0), 0, 105), Ok(Reserve { who: BOB, amount: 50 }));
    assert_eq!(
        square.second(BOB, DaoId(0), 1, 105),
        Err(DispatchError::Square(Error::ProposalMissing))
    );
    assert_eq!(square.backing_for(DaoId(0), 0), Some(150));
    assert_eq!(square.backing_for(DaoId(1), 0), None);
    assert_eq!(square.reserve_of(BOB), vec![(50, 110), (50, 115)]);
    assert!(square.unlock(BOB, 109).unreserved.is_empty());
    assert_eq!(square.unlock(BOB, 110).unreserved, vec![50]);
    assert_eq!(square.reserve_of(BOB), vec![(50, 115)]);
    assert!(square.unreserve(BOB, 114).is_empty());
    assert_eq!(square.unreserve(BOB, 115), vec![50]);
    assert!(square.reserve_of(BOB).is_empty());
    assert!(square.unlock(BOB, 200).unreserved.is_empty());
    assert_eq!(
        square.open_table(&daos, BOB, DaoId(3), 100),
        Err(DispatchError::Dao(dao::Error::DaoNotExists))
    );
}

#[test]
fn only_the_root_sets_the_square() {
    let daos = daos();
    let mut square: Square = Pallet::new();
    let stranger = Err(DispatchError::Dao(dao::Error::BadOrigin));
    assert_eq!(square.set_min_vote_weight_for_every_call(&daos, ALICE, DaoId(0), 0, 1), stranger);
    assert_eq!(square.set_max_public_props(&daos, ALICE, DaoId(0), 1), stranger);
    assert_eq!(square.set_launch_period(&daos, ALICE, DaoId(0), 1), stranger);
    assert_eq!(square.set_minimum_deposit(&daos, ALICE, DaoId(0), 1), stranger);
    assert_eq!(square.set_voting_period(&daos, ALICE, DaoId(0), 1), stranger);
    assert_eq!(square.set_rerserve_period(&daos, ALICE, DaoId(0), 1), stranger);
    assert_eq!(square.set_enactment_period(&daos, ALICE, DaoId(0), 1), stranger);
    assert_eq!(square.max_public_props(DaoId(0)), 100);
    assert_eq!(square.set_enactment_period(&daos, root(), DaoId(0), 1), Ok(()));
    assert_eq!(square.enactment_period(DaoId(0)), 1);
    assert_eq!(square.set_launch_period(&daos, root(), DaoId(0), 5), Ok(()));
    assert_eq!(square.launch_period(DaoId(0)), 5);
    assert_eq!(square.launch_tag(DaoId(0)), 0);
    assert_eq!(square.referendum_count(DaoId(0)), 0);
}

#[test]
fn kinds_of_square_errors() {
    let kind = |e: Error| DispatchError::Square(e).kind();
    assert_eq!(kind(Error::Overflow), ErrorKind::CapacityExceeded);
    assert_eq!(kind(Error::DepositTooLow), ErrorKind::Invalid);
    assert_eq!(kind(Error::TooManyProposals), ErrorKind::CapacityExceeded);
    assert_eq!(kind(Error::ProposalMissing), ErrorKind::NotFound);
    assert_eq!(kind(Error::NoneWaiting), ErrorKind::NotFound);
    assert_eq!(kind(Error::ReferendumNotExists), ErrorKind::NotFound);
    assert_eq!(kind(Error::VoteNotEnd), ErrorKind::TemporalGate);
    assert_eq!(kind(Error::InDelayTime), ErrorKind::TemporalGate);
    assert_eq!(kind(Error::VoteEnd), ErrorKind::TemporalGate);
    assert_eq!(kind(Error::NotTableTime), ErrorKind::TemporalGate);
}

// The emergency track.

#[test]
fn the_emergency_track() {
    let daos = daos();
    let mut track = emergency::Pallet::new(100, 50);
    let err = |e: emergency::Error| DispatchError::Emergency(e);
    assert_eq!(
        track.internal_track(ALICE, DaoId(0), action(1), vec![], 0).unwrap_err(),
        err(emergency::Error::NotEmergencyMembers)
    );
    assert_eq!(
        track.set_members(&daos, ALICE, DaoId(0), vec![ALICE]),
        Err(DispatchError::Dao(dao::Error::BadOrigin))
    );
    track.set_members(&daos, root(), DaoId(0), vec![BOB, ALICE]).unwrap();
    assert_eq!(track.set_pledge(&daos, root(), DaoId(0), 99), Err(err(emergency::Error::PledgeTooLow)));
    assert_eq!(track.set_pledge(&daos, ALICE, DaoId(0), 500), Err(DispatchError::Dao(dao::Error::BadOrigin)));
    let tracking = track.internal_track(ALICE, DaoId(0), action(1), vec![9], 7).unwrap();
    assert_eq!(tracking.pledge, 100);
    assert_eq!(tracking.proposal_hash, action(1).hash());
    assert_eq!(track.set_pledge(&daos, root(), DaoId(0), 500), Ok(()));
    assert_eq!(track.internal_track(BOB, DaoId(0), action(2), vec![], 7).unwrap().pledge, 500);
    assert_eq!(track.external_track(DaoId(0), action(3), vec![], 7).unwrap().pledge, 0);
    assert_eq!(
        track.external_track(DaoId(0), action(3), vec![], 8).unwrap_err(),
        err(emergency::Error::ProposalAlreadyExists)
    );
    assert_eq!(
        track.external_track(DaoId(0), action(4), vec![], u64::MAX - 49).unwrap_err(),
        err(emergency::Error::StorageOverflow)
    );
    // the same action on the track of another DAO
    assert_eq!(track.external_track(DaoId(1), action(3), vec![], 8).unwrap().pledge, 0);
    let h1 = action(1).hash();
    assert_eq!(track.reject(3, DaoId(0), h1, 8).unwrap_err(), err(emergency::Error::NotEmergencyMembers));
    assert_eq!(track.reject(BOB, DaoId(0), [0; 32], 8).unwrap_err(), err(emergency::Error::ProposalNotExists));
    assert_eq!(track.reject(BOB, DaoId(0), h1, 57).unwrap_err(), err(emergency::Error::ProposalEnded));
    assert_eq!(track.enact_proposal(&daos, 9, DaoId(0), h1, 56).unwrap_err(), err(emergency::Error::ProposalEnded));
    assert_eq!(track.reject(BOB, DaoId(0), h1, 56).unwrap().slash, Some((ALICE, 100)));
    assert_eq!(track.enact_proposal(&daos, 9, DaoId(0), h1, 57).unwrap_err(), err(emergency::Error::ProposalNotExists));
    let run = track.enact_proposal(&daos, 9, DaoId(0), action(2).hash(), 57).unwrap();
    assert_eq!(run.unreserve, Some((BOB, 500)));
    assert_eq!(run.dispatch.dao_account, root());
    assert_eq!(run.dispatch.call, action(2));
    let run = track.enact_proposal(&daos, 9, DaoId(0), action(3).hash(), 57).unwrap();
    assert_eq!(run.unreserve, None);
    // a DAO that is not registered has no account to run under: the proposal
    // stays on its track
    assert_eq!(
        track.enact_proposal(&daos, 9, DaoId(1), action(3).hash(), 58).unwrap_err(),
        DispatchError::Dao(dao::Error::DaoNotExists)
    );
    assert_eq!(
        track.external_track(DaoId(1), action(3), vec![], 8).unwrap_err(),
        err(emergency::Error::ProposalAlreadyExists)
    );
}

#[test]
fn proposals_on_a_track_are_found_by_their_hash() {
    let info = |tag: u8| emergency::ProposalInfo {
        who: Some(tag as u64),
        end_block: 5u64,
        call: action(tag),
        pledge: 1u128,
        reason: vec![],
    };
    let list = vec![
        emergency::Urgent { hash: [1; 32], info: info(1) },
        emergency::Urgent { hash: [2; 32], info: info(2) },
        emergency::Urgent { hash: [1; 32], info: info(3) },
    ];
    assert_eq!(emergency::get_proposal(&list, &[2; 32]), Some(&info(2)));
    assert_eq!(emergency::get_proposal(&list, &[1; 32]), Some(&info(1)));
    assert_eq!(emergency::get_proposal(&list, &[3; 32]), None);
    assert_eq!(emergency::find_proposal(&list, &[2; 32]), Some(1));
}
