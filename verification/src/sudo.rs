//! The delegate of a DAO's root: one account per DAO that may act for the
//! root until the DAO closes the delegation.
use std::collections::HashMap;
use vstd::prelude::*;
use crate::doas::SignedDispatch;
use crate::error::DispatchError;
use crate::primitives::action::Action;
use crate::primitives::ids::DaoId;
use crate::primitives::traits::BaseCallFilter;
use crate::primitives::types::AccountId;

verus! {

broadcast use vstd::std_specs::hash::group_hash_axioms;

/// Why the delegate was refused.
#[derive(Clone, Copy, Debug, PartialEq, Eq, Structural)]
pub enum Error {
    /// Not a sudo account, nor a dao account.
    NotSudo,
    /// The DAO has no delegate.
    RootNotExists,
}

/// The delegates of all DAOs.
pub struct Pallet {
    accounts: HashMap<u64, AccountId>,
}

impl Pallet {
    /// The delegate of each DAO that has one.
    pub closed spec fn accounts(&self) -> Map<u64, AccountId> {
        self.accounts@
    }

    /// What the check of a caller answers: the root of the DAO passes, and so
    /// does its delegate.
    pub open spec fn origin_check<C>(
        &self,
        daos: &crate::dao::Pallet<C>,
        dao_id: DaoId,
        who: AccountId,
    ) -> Result<AccountId, DispatchError> {
        if daos.root_check(who, dao_id) is Ok {
            Ok(who)
        } else if !self.accounts().contains_key(dao_id.0) {
            Err(DispatchError::Sudo(Error::RootNotExists))
        } else if self.accounts()[dao_id.0] != who {
            Err(DispatchError::Sudo(Error::NotSudo))
        } else {
            Ok(who)
        }
    }

    /// No DAO has a delegate.
    pub fn new() -> (r: Self)
        ensures
            r.accounts() == Map::<u64, AccountId>::empty(),
    {
        Pallet { accounts: HashMap::new() }
    }

    /// The delegate of `dao_id`, if it has one.
    pub fn sudo_account(&self, dao_id: DaoId) -> (r: Option<AccountId>)
        ensures
            r == if self.accounts().contains_key(dao_id.0) {
                Some(self.accounts()[dao_id.0])
            } else {
                None
            },
    {
        match self.accounts.get(&dao_id.0) {
            Some(a) => Some(*a),
            None => None,
        }
    }

    /// Ensure that `who` is the root of `dao_id` or its delegate.
    pub fn check_origin<C>(&self, daos: &crate::dao::Pallet<C>, dao_id: DaoId, who: AccountId) -> (r:
        Result<AccountId, DispatchError>)
        ensures
            r == self.origin_check(daos, dao_id, who),
    {
        match daos.ensrue_dao_root(who, dao_id) {
            Ok(w) => Ok(w),
            Err(_) => match self.accounts.get(&dao_id.0) {
                None => Err(DispatchError::Sudo(Error::RootNotExists)),
                Some(a) => {
                    if *a != who {
                        Err(DispatchError::Sudo(Error::NotSudo))
                    } else {
                        Ok(who)
                    }
                },
            },
        }
    }

    /// Makes `sudo_account` the delegate of `dao_id`. The root or the present
    /// delegate may.
    pub fn set_sudo_account<C>(
        &mut self,
        daos: &crate::dao::Pallet<C>,
        who: AccountId,
        dao_id: DaoId,
        sudo_account: AccountId,
    ) -> (r: Result<(), DispatchError>)
        ensures
            match old(self).origin_check(daos, dao_id, who) {
                Err(e) => r == Err::<(), DispatchError>(e) && final(self).accounts() == old(self).accounts(),
                Ok(_) => r == Ok::<(), DispatchError>(()) && final(self).accounts() == old(self).accounts().insert(dao_id.0, sudo_account),
            },
    {
        match self.check_origin(daos, dao_id, who) {
            Err(e) => {
                return Err(e);
            },
            Ok(_) => {},
        }
        self.accounts.insert(dao_id.0, sudo_account);
        Ok(())
    }

    /// Ends the delegation of `dao_id`. The root or the present delegate may.
    pub fn close_sudo<C>(&mut self, daos: &crate::dao::Pallet<C>, who: AccountId, dao_id: DaoId) -> (r:
        Result<(), DispatchError>)
        ensures
            match old(self).origin_check(daos, dao_id, who) {
                Err(e) => r == Err::<(), DispatchError>(e) && final(self).accounts() == old(self).accounts(),
                Ok(_) => r == Ok::<(), DispatchError>(()) && final(self).accounts() == old(self).accounts().remove(dao_id.0),
            },
    {
        match self.check_origin(daos, dao_id, who) {
            Err(e) => {
                return Err(e);
            },
            Ok(_) => {},
        }
        self.accounts.remove(&dao_id.0);
        Ok(())
    }

    /// What `sudo` answers: the account to run the call under, or why the
    /// call may not run.
    pub open spec fn sudo_check<C: Copy + BaseCallFilter<Action>>(
        &self,
        daos: &crate::dao::Pallet<C>,
        who: AccountId,
        dao_id: DaoId,
        call: Action,
    ) -> Result<AccountId, DispatchError> {
        match self.origin_check(daos, dao_id, who) {
            Err(e) => Err(e),
            Ok(_) => match daos.allow_check(dao_id, call) {
                Err(e) => Err(DispatchError::Dao(e)),
                Ok(()) => Ok(daos.daos()[dao_id.0].dao_account_id),
            },
        }
    }

    /// Lets the root of `dao_id` or its delegate run `call` under the DAO's
    /// own account. The call must be on the DAO's allow-list.
    pub fn sudo<C: Copy + BaseCallFilter<Action>>(
        &self,
        daos: &crate::dao::Pallet<C>,
        who: AccountId,
        dao_id: DaoId,
        call: Action,
    ) -> (r: Result<SignedDispatch, DispatchError>)
        ensures
            match self.sudo_check(daos, who, dao_id, call) {
                Err(e) => r == Err::<SignedDispatch, DispatchError>(e),
                Ok(account) => r == Ok::<SignedDispatch, DispatchError>(
                    SignedDispatch { dao_account: account, call },
                ),
            },
    {
        match self.check_origin(daos, dao_id, who) {
            Err(e) => {
                return Err(e);
            },
            Ok(_) => {},
        }
        match daos.ensure_allowed(dao_id, &call) {
            Err(e) => {
                return Err(DispatchError::Dao(e));
            },
            Ok(()) => {},
        }
        match daos.try_get_dao_account_id(dao_id) {
            Err(e) => Err(DispatchError::Dao(e)),
            Ok(dao_account) => Ok(SignedDispatch { dao_account, call }),
        }
    }
}

} // verus!
