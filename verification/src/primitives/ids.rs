use vstd::prelude::*;

verus! {

/// The identity of a DAO, issued by the registry in creation order.
#[derive(Clone, Copy, Debug, PartialEq, Eq, Structural)]
pub struct DaoId(pub u64);

impl Default for DaoId {
    fn default() -> (r: Self)
        ensures
            r == DaoId(0),
    {
        DaoId(0)
    }
}

impl DaoId {
    /// The identity that follows the first.
    pub fn one() -> (r: Self)
        ensures
            r == DaoId(1),
    {
        DaoId(1u64)
    }

    /// The sum of two identities, or `None` where it does not fit.
    pub fn checked_add(&self, v: &Self) -> (r: Option<Self>)
        ensures
            self.0 + v.0 <= u64::MAX ==> r == Some(DaoId((self.0 + v.0) as u64)),
            self.0 + v.0 > u64::MAX ==> r.is_none(),
    {
        match self.0.checked_add(v.0) {
            Some(x) => Some(DaoId(x)),
            None => None,
        }
    }
}

impl From<DaoId> for u64 {
    fn from(x: DaoId) -> (r: u64) {
        x.0
    }
}

impl vstd::std_specs::convert::FromSpecImpl<DaoId> for u64 {
    open spec fn obeys_from_spec() -> bool {
        true
    }

    open spec fn from_spec(x: DaoId) -> u64 {
        x.0
    }
}

impl From<u64> for DaoId {
    fn from(x: u64) -> (r: DaoId) {
        DaoId(x)
    }
}

impl vstd::std_specs::convert::FromSpecImpl<u64> for DaoId {
    open spec fn obeys_from_spec() -> bool {
        true
    }

    open spec fn from_spec(x: u64) -> DaoId {
        DaoId(x)
    }
}

impl core::ops::Mul<DaoId> for DaoId {
    type Output = DaoId;

    fn mul(self, rhs: DaoId) -> (r: DaoId) {
        DaoId(self.0 * rhs.0)
    }
}

impl vstd::std_specs::ops::MulSpecImpl<DaoId> for DaoId {
    open spec fn obeys_mul_spec() -> bool {
        true
    }

    open spec fn mul_req(self, rhs: DaoId) -> bool {
        self.0 * rhs.0 <= u64::MAX
    }

    open spec fn mul_spec(self, rhs: DaoId) -> DaoId {
        DaoId((self.0 * rhs.0) as u64)
    }
}

impl core::ops::Add<DaoId> for DaoId {
    type Output = DaoId;

    fn add(self, rhs: DaoId) -> (r: DaoId) {
        DaoId(self.0 + rhs.0)
    }
}

impl vstd::std_specs::ops::AddSpecImpl<DaoId> for DaoId {
    open spec fn obeys_add_spec() -> bool {
        true
    }

    open spec fn add_req(self, rhs: DaoId) -> bool {
        self.0 + rhs.0 <= u64::MAX
    }

    open spec fn add_spec(self, rhs: DaoId) -> DaoId {
        DaoId((self.0 + rhs.0) as u64)
    }
}

/// A DAO that stands on a class of non-fungible tokens.
#[derive(Clone, Copy, Debug, PartialEq, Eq, Structural)]
pub struct Nft<ClassId>(pub ClassId);

/// A DAO that stands on a fungible token.
#[derive(Clone, Copy, Debug, PartialEq, Eq, Structural)]
pub struct Fungible<TokenId>(pub TokenId);

/// A DAO that stands on a chat room.
#[derive(Clone, Copy, Debug, PartialEq, Eq, Structural)]
pub struct RoomId<Id>(pub Id);

} // verus!
