use vstd::prelude::*;

verus! {

/// Simple index type for proposal counting.
pub type ProposalIndex = u32;

/// A number of members.
///
/// This also serves as a number of voting members, and since for motions each
/// member may vote exactly once, also the number of votes for a motion.
pub type MemberCount = u32;

/// The stable classifier of an action: the key of the origin table.
pub type RealCallId = u32;

/// The identity of a caller. Authentication happens upstream.
pub type AccountId = u64;

/// The externally supplied monotonic clock.
pub type BlockNumber = u64;

/// An amount of funds or of vote weight.
pub type Balance = u128;

/// The content hash of an action.
pub type ContentHash = [u8; 32];

/// A required share of the collective: `n` out of `d`.
#[derive(Clone, Copy, Debug, PartialEq, Eq, Structural)]
pub enum Proportion<MemberCount> {
    MoreThan(MemberCount, MemberCount),
    AtLeast(MemberCount, MemberCount),
}

impl Default for Proportion<MemberCount> {
    fn default() -> (r: Self)
        ensures
            r == Proportion::<MemberCount>::MoreThan(1, 1),
    {
        Proportion::MoreThan(1, 1)
    }
}

/// What backing an action needs before it may run under a DAO's identity.
#[derive(Clone, Copy, Debug, PartialEq, Eq, Structural)]
pub enum DoAsEnsureOrigin<Pro, C> {
    /// A share of the collective.
    Proportion(Pro),
    /// Any single member.
    Member,
    /// At least this many approvals.
    Members(C),
    /// The DAO's root only.
    Root,
    /// Nobody but the root.
    NoPermission,
}

impl<Pro, C> Default for DoAsEnsureOrigin<Pro, C> {
    fn default() -> (r: Self)
        ensures
            r == DoAsEnsureOrigin::<Pro, C>::Root,
    {
        DoAsEnsureOrigin::Root
    }
}

/// The policy type of the origin table.
pub type Policy = DoAsEnsureOrigin<Proportion<MemberCount>, MemberCount>;

} // verus!
