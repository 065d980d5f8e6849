use vstd::prelude::*;
use crate::primitives::ids::Nft;

verus! {

/// The caller is not who the call asks for.
#[derive(Clone, Copy, Debug, PartialEq, Eq, Structural)]
pub struct BadOrigin;

impl BadOrigin {
    /// The message that stands for the error.
    pub fn message(self) -> (r: &'static str)
        ensures
            r@ == "Bad origin"@,
    {
        "Bad origin"
    }
}

/// The allow-list of a DAO: which calls it may run on its own behalf.
pub trait BaseCallFilter<Call> {
    /// Whether the DAO may run `call`.
    spec fn spec_contains(&self, call: Call) -> bool;

    /// Whether the DAO may run `call`.
    fn contains(&self, call: &Call) -> (r: bool)
        ensures
            r == self.spec_contains(*call),
    ;
}

/// Something that keeps the members of a DAO's collective.
pub trait SetCollectiveMembers<AccountId, DaoId, DispathErr> {
    /// The inputs that the keeper takes: a state it can work on, and a list
    /// in the order it asks for.
    spec fn takes(&self, dao_id: DaoId, members: Seq<AccountId>) -> bool;

    /// Replaces the members of the collective of `dao_id` by `members`, which
    /// are already sorted, and its prime by `prime`.
    fn set_members_sorted(
        &mut self,
        dao_id: DaoId,
        members: &[AccountId],
        prime: Option<AccountId>,
    ) -> (r: Result<(), DispathErr>)
        requires
            old(self).takes(dao_id, members@),
    ;
}

/// A hook that runs after a DAO was created.
pub trait AfterCreate<A, B> {
    fn do_something(a: A, b: B);
}

impl<A, B> AfterCreate<A, B> for () {
    fn do_something(_a: A, _b: B) {
    }
}

/// A permit to create a DAO on something, asked of whatever owns it.
pub trait TryCreate<AccountId, DaoId, DispatchError> {
    fn try_create(&self, who: AccountId, dao_id: DaoId) -> Result<(), DispatchError>;
}

impl<AccountId, DaoId, DispathErr> SetCollectiveMembers<AccountId, DaoId, DispathErr> for () {
    open spec fn takes(&self, dao_id: DaoId, members: Seq<AccountId>) -> bool {
        true
    }

    fn set_members_sorted(
        &mut self,
        _dao_id: DaoId,
        _members: &[AccountId],
        _prime: Option<AccountId>,
    ) -> Result<(), DispathErr>
        returns
            Ok::<(), DispathErr>(()),
    {
        Ok(())
    }
}

/// Some sort of check on the origin is performed by this object.
pub trait EnsureOriginWithArg<OuterOrigin, Argument> {
    /// A return type.
    type Success;

    /// What the check answers: the success value, or the origin handed back.
    spec fn spec_try_origin(&self, o: OuterOrigin, a: Argument) -> Result<
        Self::Success,
        OuterOrigin,
    >;

    /// Perform the origin check.
    fn ensure_origin(&self, o: OuterOrigin, a: &Argument) -> (r: Result<Self::Success, BadOrigin>)
        ensures
            r == match self.spec_try_origin(o, *a) {
                Ok(s) => Ok::<Self::Success, BadOrigin>(s),
                Err(_) => Err::<Self::Success, BadOrigin>(BadOrigin),
            },
    {
        match self.try_origin(o, a) {
            Ok(s) => Ok(s),
            Err(_) => Err(BadOrigin),
        }
    }

    /// Perform the origin check, returning the origin value if unsuccessful.
    /// This allows chaining.
    fn try_origin(&self, o: OuterOrigin, a: &Argument) -> (r: Result<Self::Success, OuterOrigin>)
        ensures
            r == self.spec_try_origin(o, *a),
    ;
}

impl<AccountId, DaoId, DispatchError, Id> TryCreate<AccountId, DaoId, DispatchError> for Nft<Id> {
    fn try_create(&self, _who: AccountId, _dao_id: DaoId) -> Result<(), DispatchError>
        returns
            Ok::<(), DispatchError>(()),
    {
        Ok(())
    }
}

impl<Call, Id> BaseCallFilter<Call> for Nft<Id> {
    open spec fn spec_contains(&self, call: Call) -> bool {
        true
    }

    fn contains(&self, _call: &Call) -> (r: bool) {
        true
    }
}

} // verus!
