//! The errors of every engine under one type, and the kinds they fall into.
use vstd::prelude::*;

verus! {

/// Why a call was refused, by the engine that refused it.
#[derive(Clone, Copy, Debug, PartialEq, Eq, Structural)]
pub enum DispatchError {
    /// The registry of DAOs refused.
    Dao(crate::dao::Error),
    /// The agency refused.
    Agency(crate::agency::errors::Error),
    /// The square refused.
    Square(crate::square::errors::Error),
    /// The delegate of a root was refused.
    Sudo(crate::sudo::Error),
    /// The emergency track refused.
    Emergency(crate::emergency::Error),
}

/// The kinds of refusal.
#[derive(Clone, Copy, Debug, PartialEq, Eq, Structural)]
pub enum ErrorKind {
    /// The caller may not do this.
    PermissionDenied,
    /// What the call names does not exist.
    NotFound,
    /// The call repeats what is already there.
    Conflict,
    /// It is too early, or too late.
    TemporalGate,
    /// A limit would be exceeded.
    CapacityExceeded,
    /// An argument is malformed.
    Invalid,
}

impl DispatchError {
    /// The kind of the refusal.
    pub open spec fn spec_kind(self) -> ErrorKind {
        match self {
            DispatchError::Dao(e) => match e {
                crate::dao::Error::HaveNoCreatePermission => ErrorKind::PermissionDenied,
                crate::dao::Error::DaoExists => ErrorKind::Conflict,
                crate::dao::Error::DaoNotExists => ErrorKind::NotFound,
                crate::dao::Error::InVailCall => ErrorKind::PermissionDenied,
                crate::dao::Error::BadOrigin => ErrorKind::PermissionDenied,
                crate::dao::Error::DaoIdNotMatch => ErrorKind::Invalid,
                crate::dao::Error::DescribeTooLong => ErrorKind::Invalid,
                crate::dao::Error::Overflow => ErrorKind::CapacityExceeded,
            },
            DispatchError::Agency(e) => match e {
                crate::agency::errors::Error::NotMember => ErrorKind::PermissionDenied,
                crate::agency::errors::Error::DuplicateProposal => ErrorKind::Conflict,
                crate::agency::errors::Error::ProposalMissing => ErrorKind::NotFound,
                crate::agency::errors::Error::WrongIndex => ErrorKind::Invalid,
                crate::agency::errors::Error::DuplicateVote => ErrorKind::Conflict,
                crate::agency::errors::Error::AlreadyInitialized => ErrorKind::Conflict,
                crate::agency::errors::Error::TooEarly => ErrorKind::TemporalGate,
                crate::agency::errors::Error::TooManyProposals => ErrorKind::CapacityExceeded,
                crate::agency::errors::Error::WrongProposalWeight => ErrorKind::Invalid,
                crate::agency::errors::Error::WrongProposalLength => ErrorKind::Invalid,
                crate::agency::errors::Error::MembersTooLarge => ErrorKind::CapacityExceeded,
                crate::agency::errors::Error::ProportionErr => ErrorKind::Invalid,
                crate::agency::errors::Error::ThresholdWrong => ErrorKind::Invalid,
                crate::agency::errors::Error::ThresholdTooLow => ErrorKind::Invalid,
            },
            DispatchError::Square(e) => match e {
                crate::square::errors::Error::Overflow => ErrorKind::CapacityExceeded,
                crate::square::errors::Error::DepositTooLow => ErrorKind::Invalid,
                crate::square::errors::Error::TooManyProposals => ErrorKind::CapacityExceeded,
                crate::square::errors::Error::ProposalMissing => ErrorKind::NotFound,
                crate::square::errors::Error::NoneWaiting => ErrorKind::NotFound,
                crate::square::errors::Error::ReferendumNotExists => ErrorKind::NotFound,
                crate::square::errors::Error::ReferendumFinished => ErrorKind::Conflict,
                crate::square::errors::Error::VoteNotEnd => ErrorKind::TemporalGate,
                crate::square::errors::Error::InDelayTime => ErrorKind::TemporalGate,
                crate::square::errors::Error::VoteEnd => ErrorKind::TemporalGate,
                crate::square::errors::Error::VoteEndButNotPass => ErrorKind::PermissionDenied,
                crate::square::errors::Error::NotTableTime => ErrorKind::TemporalGate,
                crate::square::errors::Error::VoteWeightTooLow => ErrorKind::PermissionDenied,
                crate::square::errors::Error::PledgeNotEnough => ErrorKind::Invalid,
            },
            DispatchError::Sudo(e) => match e {
                crate::sudo::Error::NotSudo => ErrorKind::PermissionDenied,
                crate::sudo::Error::RootNotExists => ErrorKind::NotFound,
            },
            DispatchError::Emergency(e) => match e {
                crate::emergency::Error::StorageOverflow => ErrorKind::CapacityExceeded,
                crate::emergency::Error::ProposalAlreadyExists => ErrorKind::Conflict,
                crate::emergency::Error::ProposalNotExists => ErrorKind::NotFound,
                crate::emergency::Error::ProposalEnded => ErrorKind::TemporalGate,
                crate::emergency::Error::PledgeTooLow => ErrorKind::Invalid,
                crate::emergency::Error::NotEmergencyMembers => ErrorKind::PermissionDenied,
                crate::emergency::Error::PermissionDenied => ErrorKind::PermissionDenied,
            },
        }
    }

    /// The kind of the refusal.
    pub fn kind(self) -> (r: ErrorKind)
        ensures
            r == self.spec_kind(),
    {
        match self {
            DispatchError::Dao(e) => match e {
                crate::dao::Error::HaveNoCreatePermission => ErrorKind::PermissionDenied,
                crate::dao::Error::DaoExists => ErrorKind::Conflict,
                crate::dao::Error::DaoNotExists => ErrorKind::NotFound,
                crate::dao::Error::InVailCall => ErrorKind::PermissionDenied,
                crate::dao::Error::BadOrigin => ErrorKind::PermissionDenied,
                crate::dao::Error::DaoIdNotMatch => ErrorKind::Invalid,
                crate::dao::Error::DescribeTooLong => ErrorKind::Invalid,
                crate::dao::Error::Overflow => ErrorKind::CapacityExceeded,
            },
            DispatchError::Agency(e) => match e {
                crate::agency::errors::Error::NotMember => ErrorKind::PermissionDenied,
                crate::agency::errors::Error::DuplicateProposal => ErrorKind::Conflict,
                crate::agency::errors::Error::ProposalMissing => ErrorKind::NotFound,
                crate::agency::errors::Error::WrongIndex => ErrorKind::Invalid,
                crate::agency::errors::Error::DuplicateVote => ErrorKind::Conflict,
                crate::agency::errors::Error::AlreadyInitialized => ErrorKind::Conflict,
                crate::agency::errors::Error::TooEarly => ErrorKind::TemporalGate,
                crate::agency::errors::Error::TooManyProposals => ErrorKind::CapacityExceeded,
                crate::agency::errors::Error::WrongProposalWeight => ErrorKind::Invalid,
                crate::agency::errors::Error::WrongProposalLength => ErrorKind::Invalid,
                crate::agency::errors::Error::MembersTooLarge => ErrorKind::CapacityExceeded,
                crate::agency::errors::Error::ProportionErr => ErrorKind::Invalid,
                crate::agency::errors::Error::ThresholdWrong => ErrorKind::Invalid,
                crate::agency::errors::Error::ThresholdTooLow => ErrorKind::Invalid,
            },
            DispatchError::Square(e) => match e {
                crate::square::errors::Error::Overflow => ErrorKind::CapacityExceeded,
                crate::square::errors::Error::DepositTooLow => ErrorKind::Invalid,
                crate::square::errors::Error::TooManyProposals => ErrorKind::CapacityExceeded,
                crate::square::errors::Error::ProposalMissing => ErrorKind::NotFound,
                crate::square::errors::Error::NoneWaiting => ErrorKind::NotFound,
                crate::square::errors::Error::ReferendumNotExists => ErrorKind::NotFound,
                crate::square::errors::Error::ReferendumFinished => ErrorKind::Conflict,
                crate::square::errors::Error::VoteNotEnd => ErrorKind::TemporalGate,
                crate::square::errors::Error::InDelayTime => ErrorKind::TemporalGate,
                crate::square::errors::Error::VoteEnd => ErrorKind::TemporalGate,
                crate::square::errors::Error::VoteEndButNotPass => ErrorKind::PermissionDenied,
                crate::square::errors::Error::NotTableTime => ErrorKind::TemporalGate,
                crate::square::errors::Error::VoteWeightTooLow => ErrorKind::PermissionDenied,
                crate::square::errors::Error::PledgeNotEnough => ErrorKind::Invalid,
            },
            DispatchError::Sudo(e) => match e {
                crate::sudo::Error::NotSudo => ErrorKind::PermissionDenied,
                crate::sudo::Error::RootNotExists => ErrorKind::NotFound,
            },
            DispatchError::Emergency(e) => match e {
                crate::emergency::Error::StorageOverflow => ErrorKind::CapacityExceeded,
                crate::emergency::Error::ProposalAlreadyExists => ErrorKind::Conflict,
                crate::emergency::Error::ProposalNotExists => ErrorKind::NotFound,
                crate::emergency::Error::ProposalEnded => ErrorKind::TemporalGate,
                crate::emergency::Error::PledgeTooLow => ErrorKind::Invalid,
                crate::emergency::Error::NotEmergencyMembers => ErrorKind::PermissionDenied,
                crate::emergency::Error::PermissionDenied => ErrorKind::PermissionDenied,
            },
        }
    }
}

} // verus!
