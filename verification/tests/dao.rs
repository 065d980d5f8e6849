use daos::dao::{Error, Pallet, Status};
use daos::primitives::account::AccountIdConversion;
use daos::primitives::ids::{DaoId, Nft};
use daos::primitives::traits::{AfterCreate, TryCreate};

pub const ALICE: u64 = 1;

fn create_dao(daos: &mut Pallet<Nft<u32>>) {
    daos.create_dao::<()>(ALICE, Nft(0u32), vec![1; 4], 0).unwrap();
}

#[test]
pub fn create_dao_should_work() {
    let mut daos: Pallet<Nft<u32>> = Pallet::new();
    assert!(daos.create_dao::<()>(ALICE, Nft(0u32), vec![1; 60], 0).is_err());
    assert!(daos.create_dao::<()>(ALICE, Nft(0u32), vec![1; 4], 0).is_ok());
    assert!(daos.try_get_dao(DaoId(0)).is_ok());
    assert!(daos.next_id() == DaoId(1));
    assert!(daos.create_dao::<()>(ALICE, Nft(5u32), vec![], 7) == Ok(DaoId(1)));
}

#[test]
pub fn dao_remark_should_work() {
    let mut daos: Pallet<Nft<u32>> = Pallet::new();
    assert!(daos.dao_remark(ALICE, DaoId(0), vec![1; 10]).is_err());
    create_dao(&mut daos);
    let root = daos.try_get_dao(DaoId(0)).unwrap().dao_account_id;
    assert!(daos.dao_remark(root, DaoId(0), vec![1; 10]).is_ok());
}

#[test]
pub fn get_creator() {
    let mut daos: Pallet<Nft<u32>> = Pallet::new();
    assert!(daos.try_get_creator(DaoId(0)).is_err());
    create_dao(&mut daos);
    assert!(daos.try_get_creator(DaoId(0)).is_ok());
    assert_eq!(daos.try_get_creator(DaoId(0)), Ok(ALICE));
}

#[test]
pub fn get_dao() {
    let mut daos: Pallet<Nft<u32>> = Pallet::new();
    assert!(daos.try_get_dao(DaoId(0)).is_err());
    create_dao(&mut daos);
    assert!(daos.try_get_dao(DaoId(0)).is_ok());
    let info = daos.try_get_dao(DaoId(0)).unwrap();
    assert_eq!(info.start_block, 0);
    assert_eq!(info.status, Status::Active);
}

#[test]
pub fn get_concrete_id() {
    let mut daos: Pallet<Nft<u32>> = Pallet::new();
    assert!(daos.try_get_concrete_id(DaoId(0)).is_err());
    create_dao(&mut daos);
    assert!(daos.try_get_concrete_id(DaoId(0)).is_ok());
    assert_eq!(daos.try_get_concrete_id(DaoId(0)), Ok(Nft(0)));
}

#[test]
pub fn get_dao_account_id() {
    let mut daos: Pallet<Nft<u32>> = Pallet::new();
    assert!(daos.try_get_dao_account_id(DaoId(0)).is_err());
    create_dao(&mut daos);
    assert!(daos.try_get_dao_account_id(DaoId(0)).is_ok());
    assert_eq!(daos.try_get_dao_account_id(DaoId(0)), Ok(Nft(0u32).into_account()));
}

#[test]
fn description_of_fifty_bytes_is_the_longest() {
    let mut daos: Pallet<Nft<u32>> = Pallet::new();
    assert_eq!(daos.create_dao::<()>(ALICE, Nft(0), vec![0; 51], 0), Err(Error::DescribeTooLong));
    assert_eq!(daos.create_dao::<()>(ALICE, Nft(0), vec![0; 50], 0), Ok(DaoId(0)));
}

#[test]
fn root_is_the_account_of_the_dao() {
    let mut daos: Pallet<Nft<u32>> = Pallet::new();
    assert_eq!(daos.ensrue_dao_root(ALICE, DaoId(0)), Err(Error::DaoNotExists));
    daos.create_dao::<()>(ALICE, Nft(3), vec![], 9).unwrap();
    let root = Nft(3u32).into_account();
    assert_eq!(daos.ensrue_dao_root(root, DaoId(0)), Ok(root));
    assert_eq!(daos.ensrue_dao_root(ALICE, DaoId(0)), Err(Error::BadOrigin));
    assert_eq!(daos.try_get_dao(DaoId(0)).unwrap().start_block, 9);
}

/// A token whose owner gives no permit.
#[derive(Clone, Copy, Debug, PartialEq)]
struct Closed;

impl TryCreate<u64, DaoId, Error> for Closed {
    fn try_create(&self, _who: u64, _dao_id: DaoId) -> Result<(), Error> {
        Err(Error::HaveNoCreatePermission)
    }
}

impl AccountIdConversion<u64> for Closed {
    fn spec_into_account(&self) -> u64 {
        0
    }

    fn spec_try_from_account(_a: u64) -> Option<Self> {
        None
    }

    fn into_account(&self) -> u64 {
        0
    }

    fn try_from_account(_a: &u64) -> Option<Self> {
        None
    }
}

#[test]
fn a_refused_permit_creates_nothing() {
    let mut daos: Pallet<Closed> = Pallet::new();
    assert_eq!(daos.create_dao::<()>(ALICE, Closed, vec![], 0), Err(Error::HaveNoCreatePermission));
    assert_eq!(daos.try_get_creator(DaoId(0)), Err(Error::DaoNotExists));
    assert_eq!(daos.register(ALICE, Closed, 5, 0, Ok(())), Ok(DaoId(0)));
    assert_eq!(daos.register(ALICE, Closed, 5, 0, Err(Error::DaoExists)), Err(Error::DaoExists));
    assert_eq!(daos.try_get_dao_account_id(DaoId(0)), Ok(5));
    assert_eq!(daos.try_get_dao_account_id(DaoId(1)), Err(Error::DaoNotExists));
}

struct Hook;

impl AfterCreate<u64, DaoId> for Hook {
    fn do_something(a: u64, b: DaoId) {
        assert_eq!((a, b), (ALICE, DaoId(0)));
    }
}

#[test]
fn the_hook_runs_after_creation() {
    let mut daos: Pallet<Nft<u32>> = Pallet::new();
    assert_eq!(daos.create_dao::<Hook>(ALICE, Nft(1), vec![], 0), Ok(DaoId(0)));
}
