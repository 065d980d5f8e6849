//! The registry of DAOs: who created each, on what it stands, and which
//! account is its own.
use std::collections::HashMap;
use vstd::prelude::*;
use crate::primitives::account::AccountIdConversion;
use crate::primitives::action::Action;
use crate::primitives::ids::DaoId;
use crate::primitives::traits::{AfterCreate, BaseCallFilter, TryCreate};
use crate::primitives::types::{AccountId, BlockNumber};

verus! {

broadcast use vstd::std_specs::hash::group_hash_axioms;

/// Whether a DAO is in use.
#[derive(Clone, Copy, Debug, PartialEq, Eq, Structural)]
pub enum Status {
    Active,
    InActive,
}

/// What the registry keeps of a DAO.
#[derive(Clone, Copy, Debug, PartialEq, Eq)]
pub struct DaoInfo<AccountId, BlockNumber, ConcreteId, Status> {
    /// Who created the DAO.
    pub creator: AccountId,
    /// When it was created.
    pub start_block: BlockNumber,
    /// What the DAO stands on.
    pub concrete_id: ConcreteId,
    /// The account that is the DAO's own: its root.
    pub dao_account_id: AccountId,
    /// Whether the DAO is in use.
    pub status: Status,
}

/// Why the registry refused a call.
#[derive(Clone, Copy, Debug, PartialEq, Eq, Structural)]
pub enum Error {
    /// Do not have permission to create.
    HaveNoCreatePermission,
    /// DAO already exists
    DaoExists,
    /// DAO does not exist.
    DaoNotExists,
    /// The DAO may not run this call.
    InVailCall,
    /// The caller is not the DAO's root.
    BadOrigin,
    /// The backing speaks for another DAO.
    DaoIdNotMatch,
    /// The description of the DAO is too long.
    DescribeTooLong,
    /// Numerical calculation overflow error.
    Overflow,
}

/// The longest description that a DAO may be created with.
pub const MAX_DESCRIBE: usize = 50;

/// The registry of DAOs.
#[derive(Clone, Debug)]
pub struct Pallet<C> {
    daos: HashMap<u64, DaoInfo<AccountId, BlockNumber, C, Status>>,
    next_dao_id: DaoId,
}

impl<C> Pallet<C> {
    /// The DAOs by their identity.
    pub closed spec fn daos(&self) -> Map<u64, DaoInfo<AccountId, BlockNumber, C, Status>> {
        self.daos@
    }

    /// The identity that the next DAO gets.
    pub closed spec fn next_dao_id(&self) -> DaoId {
        self.next_dao_id
    }

    /// What a root check answers: the root of a DAO is the DAO's own account.
    pub open spec fn root_check(&self, who: AccountId, dao_id: DaoId) -> Result<AccountId, Error> {
        if !self.daos().contains_key(dao_id.0) {
            Err(Error::DaoNotExists)
        } else if self.daos()[dao_id.0].dao_account_id != who {
            Err(Error::BadOrigin)
        } else {
            Ok(who)
        }
    }

    /// An empty registry.
    pub fn new() -> (r: Self)
        ensures
            r.daos() == Map::<u64, DaoInfo<AccountId, BlockNumber, C, Status>>::empty(),
            r.next_dao_id() == DaoId(0),
    {
        Pallet { daos: HashMap::new(), next_dao_id: DaoId(0) }
    }

    /// Enters a DAO into the registry under the next identity, once the
    /// permit to create it has been asked for: `permit` is the answer.
    pub fn register(
        &mut self,
        creator: AccountId,
        concrete_id: C,
        dao_account_id: AccountId,
        now: BlockNumber,
        permit: Result<(), Error>,
    ) -> (r: Result<DaoId, Error>)
        ensures
            match permit {
                Err(e) => r == Err::<DaoId, Error>(e) && final(self).daos() == old(self).daos()
                    && final(self).next_dao_id() == old(self).next_dao_id(),
                Ok(()) => if old(self).next_dao_id().0 == u64::MAX {
                    r == Err::<DaoId, Error>(Error::Overflow) && final(self).daos() == old(self).daos() && final(self).next_dao_id() == old(self).next_dao_id()
                } else {
                    r == Ok::<DaoId, Error>(old(self).next_dao_id()) && final(self).next_dao_id()
                        == DaoId((old(self).next_dao_id().0 + 1) as u64) && final(self).daos()
                        == old(self).daos().insert(
                        old(self).next_dao_id().0,
                        DaoInfo {
                            creator,
                            start_block: now,
                            concrete_id,
                            dao_account_id,
                            status: Status::Active,
                        },
                    )
                },
            },
    {
        match permit {
            Err(e) => {
                return Err(e);
            },
            Ok(()) => {},
        }
        let dao_id = self.next_dao_id;
        let next_id = match dao_id.checked_add(&DaoId::one()) {
            Some(n) => n,
            None => {
                return Err(Error::Overflow);
            },
        };
        self.daos.insert(
            dao_id.0,
            DaoInfo { creator, start_block: now, concrete_id, dao_account_id, status: Status::Active },
        );
        self.next_dao_id = next_id;
        Ok(dao_id)
    }

    /// The identity that the next DAO gets.
    pub fn next_id(&self) -> (r: DaoId)
        ensures
            r == self.next_dao_id(),
    {
        self.next_dao_id
    }

    /// Ensure that `who` is the root of `dao_id`.
    pub fn ensrue_dao_root(&self, who: AccountId, dao_id: DaoId) -> (r: Result<AccountId, Error>)
        ensures
            r == self.root_check(who, dao_id),
    {
        match self.daos.get(&dao_id.0) {
            None => Err(Error::DaoNotExists),
            Some(dao) => {
                if dao.dao_account_id != who {
                    Err(Error::BadOrigin)
                } else {
                    Ok(who)
                }
            },
        }
    }

    /// Leaves a remark as the DAO: the DAO's root alone may.
    pub fn dao_remark(&self, who: AccountId, dao_id: DaoId, _remark: Vec<u8>) -> (r: Result<
        (),
        Error,
    >)
        ensures
            r == match self.root_check(who, dao_id) {
                Ok(_) => Ok::<(), Error>(()),
                Err(e) => Err::<(), Error>(e),
            },
    {
        match self.ensrue_dao_root(who, dao_id) {
            Ok(_) => Ok(()),
            Err(e) => Err(e),
        }
    }

    /// Who created the DAO.
    pub fn try_get_creator(&self, dao_id: DaoId) -> (r: Result<AccountId, Error>)
        ensures
            r == if self.daos().contains_key(dao_id.0) {
                Ok::<AccountId, Error>(self.daos()[dao_id.0].creator)
            } else {
                Err::<AccountId, Error>(Error::DaoNotExists)
            },
    {
        match self.daos.get(&dao_id.0) {
            None => Err(Error::DaoNotExists),
            Some(dao) => Ok(dao.creator),
        }
    }

    /// The account that is the DAO's own.
    pub fn try_get_dao_account_id(&self, dao_id: DaoId) -> (r: Result<AccountId, Error>)
        ensures
            r == if self.daos().contains_key(dao_id.0) {
                Ok::<AccountId, Error>(self.daos()[dao_id.0].dao_account_id)
            } else {
                Err::<AccountId, Error>(Error::DaoNotExists)
            },
    {
        match self.daos.get(&dao_id.0) {
            None => Err(Error::DaoNotExists),
            Some(dao) => Ok(dao.dao_account_id),
        }
    }
}

impl<C: Copy> Pallet<C> {
    /// What the registry keeps of the DAO.
    pub fn try_get_dao(&self, dao_id: DaoId) -> (r: Result<
        DaoInfo<AccountId, BlockNumber, C, Status>,
        Error,
    >)
        ensures
            r == if self.daos().contains_key(dao_id.0) {
                Ok::<DaoInfo<AccountId, BlockNumber, C, Status>, Error>(self.daos()[dao_id.0])
            } else {
                Err::<DaoInfo<AccountId, BlockNumber, C, Status>, Error>(Error::DaoNotExists)
            },
    {
        match self.daos.get(&dao_id.0) {
            None => Err(Error::DaoNotExists),
            Some(dao) => Ok(
                DaoInfo {
                    creator: dao.creator,
                    start_block: dao.start_block,
                    concrete_id: dao.concrete_id,
                    dao_account_id: dao.dao_account_id,
                    status: dao.status,
                },
            ),
        }
    }

    /// What the DAO stands on.
    pub fn try_get_concrete_id(&self, dao_id: DaoId) -> (r: Result<C, Error>)
        ensures
            r == if self.daos().contains_key(dao_id.0) {
                Ok::<C, Error>(self.daos()[dao_id.0].concrete_id)
            } else {
                Err::<C, Error>(Error::DaoNotExists)
            },
    {
        match self.daos.get(&dao_id.0) {
            None => Err(Error::DaoNotExists),
            Some(dao) => Ok(dao.concrete_id),
        }
    }
}

impl<C: Copy + BaseCallFilter<Action>> Pallet<C> {
    /// What the allow-list of `dao_id` answers for `call`.
    pub open spec fn allow_check(&self, dao_id: DaoId, call: Action) -> Result<(), Error> {
        if !self.daos().contains_key(dao_id.0) {
            Err(Error::DaoNotExists)
        } else if !self.daos()[dao_id.0].concrete_id.spec_contains(call) {
            Err(Error::InVailCall)
        } else {
            Ok(())
        }
    }

    /// Ensure that `dao_id` exists and may run `call` on its own behalf.
    pub fn ensure_allowed(&self, dao_id: DaoId, call: &Action) -> (r: Result<(), Error>)
        ensures
            r == self.allow_check(dao_id, *call),
    {
        match self.daos.get(&dao_id.0) {
            None => Err(Error::DaoNotExists),
            Some(dao) => {
                if dao.concrete_id.contains(call) {
                    Ok(())
                } else {
                    Err(Error::InVailCall)
                }
            },
        }
    }
}

impl<C: Copy + TryCreate<AccountId, DaoId, Error> + AccountIdConversion<AccountId>> Pallet<C> {
    /// Create a DAO for `creator` on `concrete_id`.
    ///
    /// A description of more than fifty bytes is refused. After that the
    /// permit decides: whatever it answers, the registry is then as `register`
    /// leaves it for that answer, with the account of `concrete_id` as the
    /// DAO's own. The hook runs after a DAO was entered.
    pub fn create_dao<H: AfterCreate<AccountId, DaoId>>(
        &mut self,
        creator: AccountId,
        concrete_id: C,
        describe: Vec<u8>,
        now: BlockNumber,
    ) -> (r: Result<DaoId, Error>)
        ensures
            describe@.len() > MAX_DESCRIBE ==> r == Err::<DaoId, Error>(Error::DescribeTooLong),
            r is Err ==> final(self).daos() == old(self).daos() && final(self).next_dao_id() == old(self).next_dao_id(),
            r is Ok ==> describe@.len() <= MAX_DESCRIBE && r == Ok::<DaoId, Error>(
                old(self).next_dao_id(),
            ) && final(self).next_dao_id() == DaoId((old(self).next_dao_id().0 + 1) as u64)
                && final(self).daos() == old(self).daos().insert(
                old(self).next_dao_id().0,
                DaoInfo {
                    creator,
                    start_block: now,
                    concrete_id,
                    dao_account_id: concrete_id.spec_into_account(),
                    status: Status::Active,
                },
            ),
    {
        if describe.len() > MAX_DESCRIBE {
            return Err(Error::DescribeTooLong);
        }
        let permit = concrete_id.try_create(creator, self.next_dao_id);
        let account = concrete_id.into_account();
        let r = self.register(creator, concrete_id, account, now, permit);
        match r {
            Ok(dao_id) => {
                H::do_something(creator, dao_id);
            },
            Err(_) => {},
        }
        r
    }
}

} // verus!
