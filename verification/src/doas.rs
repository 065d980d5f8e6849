//! The gateway through which a decision of a DAO becomes an action under the
//! DAO's own account.
use vstd::prelude::*;
use crate::agency::origin::RawOrigin;
use crate::dao::Error;
use crate::error::DispatchError;
use crate::primitives::action::Action;
use crate::primitives::ids::DaoId;
use crate::primitives::traits::{BaseCallFilter, EnsureOriginWithArg};
use crate::primitives::types::{AccountId, RealCallId};

verus! {

/// An action that is to run now, signed by the account of a DAO.
#[derive(Debug, PartialEq, Eq)]
pub struct SignedDispatch {
    /// The DAO's own account.
    pub dao_account: AccountId,
    /// The action.
    pub call: Action,
}

/// The gateway. It keeps no state of its own.
pub struct Pallet;

impl Pallet {
    /// What the gateway answers: the account to run the action under, or why
    /// the action may not run.
    ///
    /// An action without a kind is no valid call. The DAO must exist and have
    /// the action on its allow-list. The token must satisfy the check that
    /// the DAO has set for the kind of the action, and must speak for this
    /// DAO.
    pub open spec fn gate<C: Copy + BaseCallFilter<Action>, O: EnsureOriginWithArg<
        RawOrigin,
        (DaoId, RealCallId),
        Success = DaoId,
    >>(
        daos: &crate::dao::Pallet<C>,
        guard: &O,
        origin: RawOrigin,
        dao_id: DaoId,
        call: Action,
    ) -> Result<AccountId, DispatchError> {
        match call@.call_id {
            None => Err(DispatchError::Dao(Error::InVailCall)),
            Some(call_id) => match daos.allow_check(dao_id, call) {
                Err(e) => Err(DispatchError::Dao(e)),
                Ok(()) => match guard.spec_try_origin(origin, (dao_id, call_id)) {
                    Err(_) => Err(DispatchError::Dao(Error::BadOrigin)),
                    Ok(id) => if id != dao_id {
                        Err(DispatchError::Dao(Error::DaoIdNotMatch))
                    } else {
                        Ok(daos.daos()[dao_id.0].dao_account_id)
                    },
                },
            },
        }
    }

    /// Lets `call` run under the account of `dao_id`, if `origin` is backing
    /// enough for it. The token is used up either way.
    pub fn do_as_agency<C: Copy + BaseCallFilter<Action>, O: EnsureOriginWithArg<
        RawOrigin,
        (DaoId, RealCallId),
        Success = DaoId,
    >>(
        daos: &crate::dao::Pallet<C>,
        guard: &O,
        origin: RawOrigin,
        dao_id: DaoId,
        call: Action,
    ) -> (r: Result<SignedDispatch, DispatchError>)
        ensures
            match Self::gate(daos, guard, origin, dao_id, call) {
                Err(e) => r == Err::<SignedDispatch, DispatchError>(e),
                Ok(account) => r == Ok::<SignedDispatch, DispatchError>(
                    SignedDispatch { dao_account: account, call },
                ),
            },
    {
        let call_id = match call.resolve_call_id() {
            None => {
                return Err(DispatchError::Dao(Error::InVailCall));
            },
            Some(id) => id,
        };
        match daos.ensure_allowed(dao_id, &call) {
            Err(e) => {
                return Err(DispatchError::Dao(e));
            },
            Ok(()) => {},
        }
        let id = match guard.try_origin(origin, &(dao_id, call_id)) {
            Err(_) => {
                return Err(DispatchError::Dao(Error::BadOrigin));
            },
            Ok(id) => id,
        };
        if id.0 != dao_id.0 {
            return Err(DispatchError::Dao(Error::DaoIdNotMatch));
        }
        match daos.try_get_dao_account_id(dao_id) {
            Err(e) => Err(DispatchError::Dao(e)),
            Ok(dao_account) => Ok(SignedDispatch { dao_account, call }),
        }
    }
}

} // verus!
