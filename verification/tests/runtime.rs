//! The engines wired together as a deployment would wire them: calls are
//! values, a decision to run a call is carried out by dispatching it.
use std::collections::HashMap;

use daos::agency::default_vote::PrimeDefaultVote;
use daos::agency::origin::RawOrigin;
use daos::agency::pallet::{Closing, Dispatch, Motioned};
use daos::dao;
use daos::doas;
use daos::emergency;
use daos::error::{DispatchError, ErrorKind};
use daos::primitives::account::AccountIdConversion;
use daos::primitives::action::Action;
use daos::primitives::ids::{DaoId, Nft};
use daos::primitives::traits::{BaseCallFilter, SetCollectiveMembers, TryCreate};
use daos::primitives::types::{DoAsEnsureOrigin, Policy, Proportion};
use daos::square;
use daos::square::pallet::Enacted;
use daos::square::traits::Pledge;
use daos::square::types::{Opinion, ReferendumState, Tally};
use daos::sudo;

pub const ALICE: u64 = 1;
pub const BOB: u64 = 2;

/// The calls of the deployment.
#[derive(Clone, Debug, PartialEq)]
enum Call {
    AgencySetMotionDuration { dao_id: u64, duration: u32 },
    AgencySetMaxProposals { dao_id: u64, max: u32 },
    AgencySetMaxMembers { dao_id: u64, max: u32 },
    AgencySetEnsureOrigin { dao_id: u64, call_id: u32, ensure: Policy },
    AgencyDisapprove { dao_id: u64, proposal_hash: [u8; 32] },
    DoAs { dao_id: u64, call: Box<Call> },
    SudoSetAccount { dao_id: u64, sudo_account: u64 },
    SudoClose { dao_id: u64 },
    SquareSetMinVoteWeight { dao_id: u64, call_id: u32, min_vote_weight: u128 },
    SquareSetMaxPublicProps { dao_id: u64, max: u32 },
    SquareSetLaunchPeriod { dao_id: u64, period: u64 },
    SquareSetMinimumDeposit { dao_id: u64, min: u128 },
    SquareSetVotingPeriod { dao_id: u64, period: u64 },
    SquareSetReservePeriod { dao_id: u64, period: u64 },
    SquareSetEnactmentPeriod { dao_id: u64, period: u64 },
    EmergencySetMembers { dao_id: u64, members: Vec<u64> },
    EmergencySetPledge { dao_id: u64, amount: u128 },
    DaoRemark { dao_id: u64, remark: Vec<u8> },
}

impl Call {
    fn encode(&self) -> Vec<u8> {
        format!("{:?}", self).into_bytes()
    }

    fn action(&self) -> Action {
        Action { call_id: Some(0), data: self.encode() }
    }
}

/// What a DAO of the deployment stands on. It may run every call but one
/// that goes through the gateway again.
#[derive(Clone, Copy, Debug, PartialEq)]
struct Token(u32);

impl BaseCallFilter<Action> for Token {
    fn spec_contains(&self, call: Action) -> bool {
        !call.data.starts_with(b"DoAs")
    }

    fn contains(&self, call: &Action) -> bool {
        !call.data.starts_with(b"DoAs")
    }
}

impl TryCreate<u64, DaoId, dao::Error> for Token {
    fn try_create(&self, _who: u64, _dao_id: DaoId) -> Result<(), dao::Error> {
        Ok(())
    }
}

impl AccountIdConversion<u64> for Token {
    fn spec_into_account(&self) -> u64 {
        Nft(self.0).into_account()
    }

    fn spec_try_from_account(a: u64) -> Option<Self> {
        Nft::<u32>::try_from_account(&a).map(|n| Token(n.0))
    }

    fn into_account(&self) -> u64 {
        Nft(self.0).into_account()
    }

    fn try_from_account(a: &u64) -> Option<Self> {
        Nft::<u32>::try_from_account(a).map(|n| Token(n.0))
    }
}

/// A stake that always weighs a hundred and stays locked for a hundred.
#[derive(Clone, Copy, Debug, PartialEq, Default)]
pub struct Vote(pub u64);

impl Pledge<u128, u64, DaoId, (), u64, DispatchError> for Vote {
    fn try_vote(&self, _who: &u64, _dao_id: &DaoId, _conviction: &()) -> Result<(u128, u64), DispatchError> {
        Ok((100u128, 100u64))
    }

    fn vote_end_do(&self, _who: &u64, _dao_id: &DaoId) -> Result<(), DispatchError> {
        Ok(())
    }
}

enum Origin {
    Signed(u64),
    Root,
    Collective(RawOrigin),
}

struct Runtime {
    block: u64,
    calls: HashMap<Vec<u8>, Call>,
    daos: dao::Pallet<Token>,
    agency: daos::agency::pallet::Pallet<PrimeDefaultVote>,
    sudo: sudo::Pallet,
    square: square::pallet::Pallet<Token, Vote, ()>,
    emergency: emergency::Pallet,
}

fn signed(origin: Origin) -> Result<u64, String> {
    match origin {
        Origin::Signed(who) => Ok(who),
        _ => Err("BadOrigin".to_string()),
    }
}

fn text(e: DispatchError) -> String {
    format!("{:?}", e)
}

impl Runtime {
    fn new() -> Self {
        Runtime {
            block: 0,
            calls: HashMap::new(),
            daos: dao::Pallet::new(),
            agency: daos::agency::pallet::Pallet::new(4),
            sudo: sudo::Pallet::new(),
            square: square::pallet::Pallet::new(),
            emergency: emergency::Pallet::new(100, 100),
        }
    }

    /// The action that stands for `call`, which the deployment can find again
    /// by its bytes.
    fn action(&mut self, call: &Call) -> Action {
        self.calls.insert(call.encode(), call.clone());
        if let Call::DoAs { call: inner, .. } = call {
            self.action(inner);
        }
        call.action()
    }

    fn dao_account(&self, dao_id: u64) -> u64 {
        self.daos.try_get_dao_account_id(DaoId(dao_id)).unwrap()
    }

    fn dispatch_action(&mut self, action: Action, origin: Origin) -> Result<(), String> {
        let call = self.calls.get(&action.data).cloned().ok_or("unknown call".to_string())?;
        self.dispatch(call, origin)
    }

    fn dispatch(&mut self, call: Call, origin: Origin) -> Result<(), String> {
        match call {
            Call::AgencySetMotionDuration { dao_id, duration } => self
                .agency
                .set_motion_duration(&self.daos, signed(origin)?, DaoId(dao_id), duration)
                .map_err(text),
            Call::AgencySetMaxProposals { dao_id, max } => self
                .agency
                .set_max_proposals(&self.daos, signed(origin)?, DaoId(dao_id), max)
                .map_err(text),
            Call::AgencySetMaxMembers { dao_id, max } => self
                .agency
                .set_max_members(&self.daos, signed(origin)?, DaoId(dao_id), max)
                .map_err(text),
            Call::AgencySetEnsureOrigin { dao_id, call_id, ensure } => self
                .agency
                .set_ensure_origin_for_every_call(
                    &self.daos,
                    signed(origin)?,
                    DaoId(dao_id),
                    call_id,
                    ensure,
                )
                .map_err(text),
            Call::AgencyDisapprove { dao_id, proposal_hash } => self
                .agency
                .disapprove_proposal(&self.daos, signed(origin)?, DaoId(dao_id), proposal_hash)
                .map_err(text),
            Call::DoAs { dao_id, call } => {
                let token = match origin {
                    Origin::Collective(t) => t,
                    _ => return Err("BadOrigin".to_string()),
                };
                let action = self.action(&call);
                let run = doas::Pallet::do_as_agency(
                    &self.daos,
                    &self.agency,
                    token,
                    DaoId(dao_id),
                    action,
                )
                .map_err(text)?;
                let _ = self.dispatch_action(run.call, Origin::Signed(run.dao_account));
                Ok(())
            },
            Call::SudoSetAccount { dao_id, sudo_account } => self
                .sudo
                .set_sudo_account(&self.daos, signed(origin)?, DaoId(dao_id), sudo_account)
                .map_err(text),
            Call::SudoClose { dao_id } => self
                .sudo
                .close_sudo(&self.daos, signed(origin)?, DaoId(dao_id))
                .map_err(text),
            Call::SquareSetMinVoteWeight { dao_id, call_id, min_vote_weight } => self
                .square
                .set_min_vote_weight_for_every_call(
                    &self.daos,
                    signed(origin)?,
                    DaoId(dao_id),
                    call_id,
                    min_vote_weight,
                )
                .map_err(text),
            Call::SquareSetMaxPublicProps { dao_id, max } => self
                .square
                .set_max_public_props(&self.daos, signed(origin)?, DaoId(dao_id), max)
                .map_err(text),
            Call::SquareSetLaunchPeriod { dao_id, period } => self
                .square
                .set_launch_period(&self.daos, signed(origin)?, DaoId(dao_id), period)
                .map_err(text),
            Call::SquareSetMinimumDeposit { dao_id, min } => self
                .square
                .set_minimum_deposit(&self.daos, signed(origin)?, DaoId(dao_id), min)
                .map_err(text),
            Call::SquareSetVotingPeriod { dao_id, period } => self
                .square
                .set_voting_period(&self.daos, signed(origin)?, DaoId(dao_id), period)
                .map_err(text),
            Call::SquareSetReservePeriod { dao_id, period } => self
                .square
                .set_rerserve_period(&self.daos, signed(origin)?, DaoId(dao_id), period)
                .map_err(text),
            Call::SquareSetEnactmentPeriod { dao_id, period } => self
                .square
                .set_enactment_period(&self.daos, signed(origin)?, DaoId(dao_id), period)
                .map_err(text),
            Call::EmergencySetMembers { dao_id, members } => self
                .emergency
                .set_members(&self.daos, signed(origin)?, DaoId(dao_id), members)
                .map_err(text),
            Call::EmergencySetPledge { dao_id, amount } => self
                .emergency
                .set_pledge(&self.daos, signed(origin)?, DaoId(dao_id), amount)
                .map_err(text),
            Call::DaoRemark { dao_id, remark } => {
                self.daos.dao_remark(signed(origin)?, DaoId(dao_id), remark).map_err(|e| {
                    format!("{:?}", e)
                })
            },
        }
    }

    fn run(&mut self, d: Dispatch) {
        let _ = self.dispatch_action(d.proposal, Origin::Collective(d.origin));
    }

    fn create_dao(&mut self) {
        self.daos.create_dao::<()>(ALICE, Token(0), vec![1; 4], self.block).unwrap();
    }

    /// The root's delegate runs `call` under the DAO's own account.
    fn sudo(&mut self, who: u64, dao_id: u64, call: Call) -> Result<(), String> {
        let action = self.action(&call);
        let run = self.sudo.sudo(&self.daos, who, DaoId(dao_id), action).map_err(text)?;
        let _ = self.dispatch_action(run.call, Origin::Signed(run.dao_account));
        Ok(())
    }

    fn agency_execute(&mut self, who: u64, dao_id: u64, call: Call) -> Result<(), String> {
        let action = self.action(&call);
        let d = self.agency.execute(who, DaoId(dao_id), action).map_err(text)?;
        self.run(d);
        Ok(())
    }

    fn agency_propose(&mut self, who: u64, dao_id: u64, threshold: u32, call: Call) -> Result<(), String> {
        let action = self.action(&call);
        match self.agency.propose(who, DaoId(dao_id), threshold, action, self.block).map_err(text)? {
            Motioned::Execute(d) => self.run(d),
            Motioned::Queued { .. } => {},
        }
        Ok(())
    }

    fn agency_vote(&mut self, who: u64, dao_id: u64, hash: [u8; 32], index: u32, approve: bool) -> Result<(), String> {
        self.agency.vote(who, DaoId(dao_id), hash, index, approve).map(|_| ()).map_err(text)
    }

    fn agency_close(&mut self, who: u64, dao_id: u64, hash: [u8; 32], index: u32) -> Result<(), String> {
        match self.agency.close(who, DaoId(dao_id), hash, index, self.block).map_err(text)? {
            Closing::Approved { dispatch, .. } => self.run(dispatch),
            Closing::Disapproved { .. } => {},
        }
        Ok(())
    }

    fn square_enact(&mut self, who: u64, dao_id: u64, index: u32) -> Result<(), String> {
        match self.square.enact_proposal(&self.daos, who, DaoId(dao_id), index, self.block).map_err(text)? {
            Enacted::Approved(run) => {
                let _ = self.dispatch_action(run.call, Origin::Signed(run.dao_account));
            },
            Enacted::Rejected => {},
        }
        Ok(())
    }

    fn emergency_enact(&mut self, who: u64, dao_id: u64, hash: [u8; 32]) -> Result<(), String> {
        let e = self
            .emergency
            .enact_proposal(&self.daos, who, DaoId(dao_id), hash, self.block)
            .map_err(text)?;
        let _ = self.dispatch_action(e.dispatch.call, Origin::Signed(e.dispatch.dao_account));
        Ok(())
    }
}

fn set_members(rt: &mut Runtime) {
    rt.agency.set_members_sorted(DaoId(0), &[ALICE, 2u64, 3u64, 4u64], None).unwrap();
}

fn set_prime(rt: &mut Runtime, prime: u64) {
    let members = rt.agency.collective_members(DaoId(0));
    rt.agency.set_members_sorted(DaoId(0), &members[..], Some(prime)).unwrap();
}

fn set_sudo(rt: &mut Runtime) {
    rt.create_dao();
    set_members(rt);
    let proposal = Call::SudoSetAccount { dao_id: 0u64, sudo_account: ALICE };
    let root = rt.dao_account(0);
    rt.sudo(root, 0u64, proposal).unwrap();
    assert_eq!(rt.sudo.sudo_account(DaoId(0)), Some(1u64));
}

fn set_origin_for_0(rt: &mut Runtime) {
    set_sudo(rt);
    let proposal =
        Call::AgencySetEnsureOrigin { dao_id: 0u64, call_id: 0u32, ensure: DoAsEnsureOrigin::Member };
    let root = rt.dao_account(0);
    assert!(rt.sudo(root, 0u64, proposal).is_ok());
}

fn set_origin_for_0_1(rt: &mut Runtime) {
    set_sudo(rt);
    let proposal = Call::AgencySetEnsureOrigin {
        dao_id: 0u64,
        call_id: 0u32,
        ensure: DoAsEnsureOrigin::Members(2u32),
    };
    let root = rt.dao_account(0);
    assert!(rt.sudo(root, 0u64, proposal).is_ok());
}

fn set_origin_for_p(rt: &mut Runtime) {
    set_sudo(rt);
    let proposal = Call::AgencySetEnsureOrigin {
        dao_id: 0u64,
        call_id: 0u32,
        ensure: DoAsEnsureOrigin::Proportion(Proportion::MoreThan(5, 4)),
    };
    let proposal_1 = Call::AgencySetEnsureOrigin {
        dao_id: 0u64,
        call_id: 0u32,
        ensure: DoAsEnsureOrigin::Proportion(Proportion::AtLeast(5, 4)),
    };
    assert!(rt.sudo(ALICE, 0u64, proposal).is_ok());
    assert_ne!(
        rt.agency.ensures_of(DaoId(0), 0),
        DoAsEnsureOrigin::Proportion(Proportion::MoreThan(5, 4))
    );
    assert!(rt.sudo(ALICE, 0u64, proposal_1).is_ok());
    assert_ne!(
        rt.agency.ensures_of(DaoId(0), 0),
        DoAsEnsureOrigin::Proportion(Proportion::MoreThan(5, 4))
    );
    assert_eq!(rt.agency.ensures_of(DaoId(0), 0), DoAsEnsureOrigin::Root);
}

#[test]
fn set_origin_for_p_should_work() {
    let mut rt = Runtime::new();
    set_origin_for_p(&mut rt);
}

#[test]
fn set_origin_should_work() {
    let mut rt = Runtime::new();
    set_origin_for_0(&mut rt);
    assert_eq!(rt.agency.ensures_of(DaoId(0), 0), DoAsEnsureOrigin::Member);
}

#[test]
fn sudo_set_xxx() {
    let mut rt = Runtime::new();
    set_sudo(&mut rt);
    let set_motion_duration = Call::AgencySetMotionDuration { dao_id: 0u64, duration: 100 };
    let set_max_proposals = Call::AgencySetMaxProposals { dao_id: 0u64, max: 100 };
    rt.sudo(ALICE, 0u64, set_motion_duration).unwrap();
    rt.sudo(ALICE, 0u64, set_max_proposals).unwrap();
    assert_eq!(rt.agency.motion_duration(DaoId(0)), 100);
    assert_eq!(rt.agency.max_proposals(DaoId(0)), 100);
}

fn do_as_agency_of_set_max_members() -> Call {
    let set_max_members = Call::AgencySetMaxMembers { dao_id: 0u64, max: 100u32 };
    Call::DoAs { dao_id: 0u64, call: Box::new(set_max_members) }
}

#[test]
fn set_members_sorted_should_work() {
    let mut rt = Runtime::new();
    set_sudo(&mut rt);
    let do_as_agency = do_as_agency_of_set_max_members();
    let hash = do_as_agency.action().hash();

    assert!(rt.agency_propose(ALICE, 0u64, 2, do_as_agency.clone()).is_ok());

    assert!(rt.agency_vote(2u64, 0, hash, 0, false).is_ok());
    assert!(rt.agency_vote(3u64, 0, hash, 0, true).is_ok());
    assert!(rt.agency_vote(4u64, 0, hash, 0, false).is_ok());

    let members: Vec<u64> = vec![3, 4, 5, 6];
    let members_1: Vec<u64> = vec![1, 2, 3, 4, 8];
    assert!(rt.agency.set_members_sorted(DaoId(0), &members[..], Some(1u64)).is_ok());
    assert!(rt.agency.set_members_sorted(DaoId(0), &members_1[..], Some(1u64)).is_err());

    // the votes of those who left are gone, the others stand
    let votes = rt.agency.voting(DaoId(0), &hash).unwrap();
    assert_eq!(votes.ayes, vec![3]);
    assert_eq!(votes.nays, vec![4]);
    assert_eq!(rt.agency.collective_members(DaoId(0)), vec![3, 4, 5, 6]);
    assert_eq!(rt.agency.prime(DaoId(0)), Some(1));
}

#[test]
fn execute() {
    let mut rt = Runtime::new();
    set_origin_for_0(&mut rt);
    let do_as_agency = do_as_agency_of_set_max_members();
    let do_as_agency_fail = Call::DoAs { dao_id: 0u64, call: Box::new(do_as_agency.clone()) };

    assert!(rt.agency_execute(ALICE, 0u64, do_as_agency_fail).is_ok());
    assert_eq!(rt.agency.max_members(DaoId(0)), 10);

    assert!(rt.agency_execute(ALICE, 0u64, do_as_agency).is_ok());

    assert_eq!(rt.agency.max_members(DaoId(0)), 100);
}

#[test]
fn proposal_vote_close_should_work() {
    let mut rt = Runtime::new();
    set_origin_for_0_1(&mut rt);
    let root = rt.dao_account(0);
    let do_as_agency = do_as_agency_of_set_max_members();
    let hash = do_as_agency.action().hash();

    assert!(rt.agency_propose(ALICE, 0u64, 10, do_as_agency.clone()).is_err());
    rt.dispatch(Call::AgencySetMaxProposals { dao_id: 0, max: 0 }, Origin::Signed(root)).unwrap();
    assert!(rt.agency_propose(ALICE, 0u64, 2, do_as_agency.clone()).is_err());
    rt.dispatch(Call::AgencySetMaxProposals { dao_id: 0, max: 100 }, Origin::Signed(root)).unwrap();
    assert!(rt.agency_propose(ALICE, 0u64, 2, do_as_agency.clone()).is_ok());

    assert!(rt.agency_vote(2u64, 0, hash, 0, true).is_ok());
    assert!(rt.agency_vote(2u64, 0, hash, 0, true).is_err());
    assert!(rt.agency_vote(2u64, 0, hash, 0, false).is_ok());
    assert!(rt.agency_vote(2u64, 0, hash, 0, false).is_err());
    assert!(rt.agency_vote(2u64, 0, hash, 0, true).is_ok());

    assert!(rt.agency_vote(3u64, 0, hash, 0, true).is_ok());

    assert!(rt.agency_close(4u64, 0, hash, 0).is_ok());
    assert_eq!(rt.agency.max_members(DaoId(0)), 100);
    rt.dispatch(Call::AgencySetMaxMembers { dao_id: 0, max: 50 }, Origin::Signed(root)).unwrap();
    assert!(rt.agency_propose(ALICE, 0u64, 2, do_as_agency.clone()).is_ok());

    assert!(rt.agency_vote(2u64, 0, hash, 1, false).is_ok());
    assert!(rt.agency_vote(3u64, 0, hash, 1, false).is_ok());
    assert!(rt.agency_vote(4u64, 0, hash, 1, false).is_ok());
    assert!(rt.agency_close(4u64, 0, hash, 1).is_ok());
    assert_eq!(rt.agency.max_members(DaoId(0)), 50);

    assert!(rt.agency_propose(ALICE, 0u64, 2, do_as_agency.clone()).is_ok());
    assert!(rt.agency_propose(ALICE, 0u64, 2, do_as_agency.clone()).is_err());
    assert!(rt.agency_close(4u64, 0, hash, 2).is_err());
    set_prime(&mut rt, ALICE);
    assert!(rt.agency_vote(ALICE, 0, hash, 2, false).is_ok());
    assert!(rt.agency_close(4u64, 0, hash, 2).is_err());
    rt.block = 100000;
    assert!(rt.agency_close(4u64, 0, hash, 2).is_ok());

    assert!(rt.agency_propose(ALICE, 0u64, 2, do_as_agency.clone()).is_ok());
    set_prime(&mut rt, ALICE);
    rt.block = 200000;
    assert!(rt.agency_close(4u64, 0, hash, 3).is_ok());
    assert_eq!(rt.agency.max_members(DaoId(0)), 100);

    assert!(rt.agency_propose(ALICE, 0u64, 2, do_as_agency.clone()).is_ok());

    let disapprove_proposal = Call::AgencyDisapprove { dao_id: 0u64, proposal_hash: hash };
    assert_eq!(rt.agency.proposal_of(DaoId(0), &hash), Some(do_as_agency.action()));
    assert!(rt.sudo(ALICE, 0u64, disapprove_proposal).is_ok());
    assert!(rt.agency.voting(DaoId(0), &hash).is_none());
    assert!(rt.agency.proposal_of(DaoId(0), &hash).is_none());
    assert_eq!(rt.agency.proposal_count(DaoId(0)), 5);
}

#[test]
fn sudo_should_work() {
    let mut rt = Runtime::new();
    rt.create_dao();
    let proposal = Call::DaoRemark { dao_id: 0u64, remark: vec![1; 10] };
    let root = rt.dao_account(0);
    assert!(rt.sudo(root, 0u64, proposal).is_ok());
}

#[test]
fn close_sudo_should_work() {
    let mut rt = Runtime::new();
    set_sudo(&mut rt);
    let proposal = Call::SudoClose { dao_id: 0u64 };
    let _ = rt.sudo(ALICE, 0u64, proposal);
    assert_eq!(rt.sudo.sudo_account(DaoId(0)), None);
}

#[test]
fn sudo_refuses_strangers() {
    let mut rt = Runtime::new();
    rt.create_dao();
    let remark = Call::DaoRemark { dao_id: 0u64, remark: vec![] };
    let action = rt.action(&remark);
    assert_eq!(
        rt.sudo.sudo(&rt.daos, BOB, DaoId(0), action).unwrap_err(),
        DispatchError::Sudo(sudo::Error::RootNotExists)
    );
    let root = rt.dao_account(0);
    rt.sudo.set_sudo_account(&rt.daos, root, DaoId(0), ALICE).unwrap();
    let action = rt.action(&remark);
    assert_eq!(
        rt.sudo.sudo(&rt.daos, BOB, DaoId(0), action).unwrap_err(),
        DispatchError::Sudo(sudo::Error::NotSudo)
    );
    let again = Call::DoAs { dao_id: 0, call: Box::new(remark) };
    let action = rt.action(&again);
    assert_eq!(
        rt.sudo.sudo(&rt.daos, ALICE, DaoId(0), action).unwrap_err(),
        DispatchError::Dao(dao::Error::InVailCall)
    );
}

// The square.

fn square_propose(rt: &mut Runtime) {
    rt.create_dao();
    rt.block = 10000;
    assert!(rt.square.open_table(&rt.daos, ALICE, DaoId(0), rt.block).is_err());
    rt.block = 0;
    let proposal =
        Call::SquareSetMinVoteWeight { dao_id: 0u64, call_id: 0u32, min_vote_weight: 100u128 };
    let action = rt.action(&proposal);
    assert!(rt.square.propose(&rt.daos, ALICE, DaoId(0), action, 0u128).is_ok());
}

fn square_second(rt: &mut Runtime) {
    square_propose(rt);
    assert!(rt.square.second(2u64, DaoId(0), 0u32, rt.block).is_ok());
}

fn square_open_table(rt: &mut Runtime) {
    square_second(rt);
    assert!(rt.square.open_table(&rt.daos, ALICE, DaoId(0), rt.block).is_err());
    rt.block = 10000;
    assert!(rt.square.open_table(&rt.daos, ALICE, DaoId(0), rt.block).is_ok());
}

fn square_vote(rt: &mut Runtime) {
    square_open_table(rt);
    assert!(rt
        .square
        .vote_for_referendum(&rt.daos, ALICE, DaoId(0), 0u32, Vote(100u64), (), Opinion::AYES, rt.block)
        .is_ok());
    assert!(rt
        .square
        .vote_for_referendum(&rt.daos, ALICE, DaoId(0), 0u32, Vote(100u64), (), Opinion::AYES, rt.block)
        .is_ok());
    assert!(rt
        .square
        .vote_for_referendum(&rt.daos, ALICE, DaoId(0), 0u32, Vote(100u64), (), Opinion::NAYS, rt.block)
        .is_ok());
    rt.block = 20000;
    assert!(rt
        .square
        .vote_for_referendum(&rt.daos, ALICE, DaoId(0), 0u32, Vote(100u64), (), Opinion::NAYS, rt.block)
        .is_err());
    rt.block = 10000;
}

fn square_enact(rt: &mut Runtime) {
    square_vote(rt);
    let root = rt.dao_account(0);
    assert!(rt.square_enact(ALICE, 0u64, 0u32).is_err());
    rt.block = 10000 + rt.square.voting_period(DaoId(0)) + rt.square.enactment_period(DaoId(0)) - 2;
    assert!(rt.square_enact(ALICE, 0u64, 0u32).is_err());
    rt.block = 20000;
    let ole_min_weight = rt.square.min_vote_weight_of(DaoId(0), 0u32);
    rt.square
        .set_min_vote_weight_for_every_call(&rt.daos, root, DaoId(0), 0u32, 10000000000)
        .unwrap();
    assert!(rt.square_enact(ALICE, 0u64, 0u32).is_err());
    rt.square
        .set_min_vote_weight_for_every_call(&rt.daos, root, DaoId(0), 0u32, ole_min_weight)
        .unwrap();
    assert!(rt.square_enact(ALICE, 0u64, 0u32).is_ok());
    assert!(rt.square_enact(ALICE, 0u64, 0u32).is_err());
    assert!(rt
        .square
        .vote_for_referendum(&rt.daos, ALICE, DaoId(0), 0u32, Vote(100u64), (), Opinion::NAYS, rt.block)
        .is_err());
    assert!(rt.square.cancel_vote(ALICE, DaoId(0), 0u32, rt.block).is_err());
}

#[test]
pub fn propose_should_work() {
    let mut rt = Runtime::new();
    square_propose(&mut rt);
    assert_eq!(rt.square.public_prop_count(DaoId(0)), 1);
    assert_eq!(rt.square.deposit_of(DaoId(0), 0), Some((vec![ALICE], 0)));
}

#[test]
pub fn second_should_work() {
    let mut rt = Runtime::new();
    square_second(&mut rt);
    assert_eq!(rt.square.deposit_of(DaoId(0), 0), Some((vec![ALICE, 2], 0)));
    assert_eq!(rt.square.reserve_of(2), vec![(0, 900)]);
}

#[test]
pub fn vote_should_work() {
    let mut rt = Runtime::new();
    square_vote(&mut rt);
    assert_eq!(
        rt.square.referendum_info(DaoId(0), 0),
        Some(ReferendumState::Ongoing { end: 10900, delay: 900, tally: Tally { ayes: 200, nays: 100 } })
    );
    assert_eq!(rt.square.votes_of(ALICE).len(), 3);
    assert_eq!(rt.square.votes_of(ALICE)[0].unlock_block, 10100);
}

#[test]
pub fn cancel_vote_should_work() {
    let mut rt = Runtime::new();
    square_vote(&mut rt);
    rt.block = 20000;
    assert!(rt.square.cancel_vote(ALICE, DaoId(0), 0u32, rt.block).is_err());
    rt.block = 10000;
    assert!(rt.square.cancel_vote(ALICE, DaoId(0), 0u32, rt.block).is_ok());
    assert_eq!(
        rt.square.referendum_info(DaoId(0), 0),
        Some(ReferendumState::Ongoing { end: 10900, delay: 900, tally: Tally { ayes: 0, nays: 0 } })
    );
    assert!(rt.square.votes_of(ALICE).is_empty());
}

#[test]
pub fn tests_enact_proposal_should_work() {
    let mut rt = Runtime::new();
    square_enact(&mut rt);
    assert_eq!(
        rt.square.referendum_info(DaoId(0), 0),
        Some(ReferendumState::Finished { approved: true, end: 20000 })
    );
    assert_eq!(rt.square.min_vote_weight_of(DaoId(0), 0), 100);
}

#[test]
pub fn unlock_should_work() {
    let mut rt = Runtime::new();
    square_enact(&mut rt);
    let freed = rt.square.unlock(ALICE, rt.block);
    assert_eq!(freed.released.len(), 3);
    assert!(freed.unreserved.is_empty());
    assert!(rt.square.votes_of(ALICE).is_empty());
    let freed = rt.square.unlock(2, rt.block);
    assert_eq!(freed.unreserved, vec![0]);
    assert!(rt.square.reserve_of(2).is_empty());
}

#[test]
pub fn sudo_set_xxx_should_work() {
    let mut rt = Runtime::new();
    set_sudo(&mut rt);
    let set_max_public_props = Call::SquareSetMaxPublicProps { dao_id: 0u64, max: 100u32 };
    let set_launch_period = Call::SquareSetLaunchPeriod { dao_id: 0u64, period: 1000u64 };
    let set_minimum_deposit = Call::SquareSetMinimumDeposit { dao_id: 0u64, min: 100u128 };
    let set_voting_period = Call::SquareSetVotingPeriod { dao_id: 0u64, period: 1000u64 };
    let set_rerserve_period = Call::SquareSetReservePeriod { dao_id: 0u64, period: 1000u64 };
    let set_enactment_period = Call::SquareSetEnactmentPeriod { dao_id: 0u64, period: 1000u64 };

    assert!(rt.sudo(ALICE, 0u64, set_max_public_props).is_ok());
    assert!(rt.sudo(ALICE, 0u64, set_launch_period).is_ok());
    assert!(rt.sudo(ALICE, 0u64, set_minimum_deposit).is_ok());
    assert!(rt.sudo(ALICE, 0u64, set_voting_period).is_ok());
    assert!(rt.sudo(ALICE, 0u64, set_rerserve_period).is_ok());
    assert!(rt.sudo(ALICE, 0u64, set_enactment_period).is_ok());

    assert_eq!(rt.square.max_public_props(DaoId(0)), 100);
    assert_eq!(rt.square.launch_period(DaoId(0)), 1000);
    assert_eq!(rt.square.minimum_deposit(DaoId(0)), 100);
    assert_eq!(rt.square.voting_period(DaoId(0)), 1000);
    assert_eq!(rt.square.reserve_period(DaoId(0)), 1000);
    assert_eq!(rt.square.enactment_period(DaoId(0)), 1000);
}

// The emergency track.

fn emergency_set_members(rt: &mut Runtime) {
    rt.create_dao();
    let proposal = Call::SudoSetAccount { dao_id: 0u64, sudo_account: ALICE };
    let root = rt.dao_account(0);
    rt.sudo(root, 0u64, proposal).unwrap();
    assert_eq!(rt.sudo.sudo_account(DaoId(0)), Some(ALICE));
    let proposal_1 = Call::EmergencySetMembers { dao_id: 0u64, members: vec![ALICE] };
    assert!(rt.sudo(ALICE, 0u64, proposal_1).is_ok());
    assert!(rt.emergency.members(DaoId(0)).len() > 0);
}

fn the_proposal() -> Call {
    Call::EmergencySetPledge { dao_id: 0u64, amount: 1000u128 }
}

fn the_proposal_bytes() -> Vec<u8> {
    the_proposal().encode()
}

fn hash_of(bytes: &[u8]) -> [u8; 32] {
    Action { call_id: Some(0), data: bytes.to_vec() }.hash()
}

fn external(rt: &mut Runtime) {
    let action = rt.action(&the_proposal());
    assert!(rt.emergency.external_track(DaoId(0), action, vec![1, 2, 3, 4], rt.block).is_ok());
    assert!(rt.emergency.hashes_of(DaoId(0)).len() > 0);
}

fn internal(rt: &mut Runtime) {
    emergency_set_members(rt);
    let action = rt.action(&the_proposal());
    let tracking =
        rt.emergency.internal_track(ALICE, DaoId(0), action, vec![1, 2, 3, 4], rt.block).unwrap();
    let action = rt.action(&the_proposal());
    assert!(rt
        .emergency
        .internal_track(ALICE, DaoId(0), action, vec![1, 2, 3, 4], rt.block)
        .is_err());
    assert_eq!(tracking.proposal_hash, hash_of(&the_proposal_bytes()[..]));
    assert_eq!(tracking.pledge, 100);
    assert!(rt.emergency.hashes_of(DaoId(0)).len() > 0);
    assert!(rt.emergency.hashes_of(DaoId(0)).contains(&hash_of(&the_proposal_bytes()[..])));
    assert!(rt.emergency.contains_key(DaoId(0), &hash_of(&the_proposal_bytes()[..])));
}

#[test]
fn set_xx_should_work() {
    let mut rt = Runtime::new();
    emergency_set_members(&mut rt);
    assert!(rt.sudo(ALICE, 0u64, the_proposal()).is_ok());
    assert_eq!(rt.emergency.pledge_of(DaoId(0)), 1000u128);
    let action = rt.action(&the_proposal());
    let tracking =
        rt.emergency.internal_track(ALICE, DaoId(0), action, vec![], rt.block).unwrap();
    assert_eq!(tracking.pledge, 1000u128);
}

#[test]
fn external_track_should_work() {
    let mut rt = Runtime::new();
    external(&mut rt);
}

#[test]
fn internal_track_should_work() {
    let mut rt = Runtime::new();
    internal(&mut rt);
}

#[test]
fn reject_internal_track() {
    let mut rt = Runtime::new();
    internal(&mut rt);
    rt.block = 10000;
    let hash = hash_of(&the_proposal_bytes()[..]);
    assert!(rt.emergency.contains_key(DaoId(0), &hash));
    assert!(rt.emergency.reject(ALICE, DaoId(0), hash, rt.block).is_err());
    rt.block = 0;
    let rejected = rt.emergency.reject(ALICE, DaoId(0), hash, rt.block).unwrap();
    assert_eq!(rejected.slash, Some((ALICE, 100)));
    assert_eq!(rt.emergency.contains_key(DaoId(0), &hash), false);
    assert!(rt.emergency.reject(ALICE, DaoId(0), hash, rt.block).is_err());
}

#[test]
fn reject_external_track() {
    let mut rt = Runtime::new();
    external(&mut rt);
    let hash = hash_of(&the_proposal_bytes()[..]);
    assert!(rt.emergency.reject(ALICE, DaoId(0), hash, rt.block).is_err());
    emergency_set_members(&mut rt);
    let rejected = rt.emergency.reject(ALICE, DaoId(0), hash, rt.block).unwrap();
    assert_eq!(rejected.slash, None);
    assert_eq!(rt.emergency.contains_key(DaoId(0), &hash), false);
    assert!(rt.emergency.reject(ALICE, DaoId(0), hash, rt.block).is_err());
}

#[test]
fn enact_proposal_should_work() {
    let mut rt = Runtime::new();
    internal(&mut rt);
    assert_ne!(rt.emergency.pledge_of(DaoId(0)), 1000);
    let hash = hash_of(&the_proposal_bytes()[..]);
    assert!(rt.emergency_enact(BOB, 0u64, hash).is_err());
    assert!(rt.emergency_enact(BOB, 0u64, hash_of(&the_proposal_bytes()[..2])).is_err());
    rt.block = 10000;
    assert!(rt.emergency_enact(BOB, 0u64, hash).is_ok());
    assert_eq!(rt.emergency.pledge_of(DaoId(0)), 1000);
    assert!(!rt.emergency.contains_key(DaoId(0), &hash));
}

#[test]
fn errors_fall_into_kinds() {
    assert_eq!(DispatchError::Dao(dao::Error::BadOrigin).kind(), ErrorKind::PermissionDenied);
    assert_eq!(
        DispatchError::Square(square::errors::Error::InDelayTime).kind(),
        ErrorKind::TemporalGate
    );
    assert_eq!(
        DispatchError::Emergency(emergency::Error::ProposalAlreadyExists).kind(),
        ErrorKind::Conflict
    );
}
