//! The square: stake-weighted, time-boxed referenda on proposals that anyone
//! may make and back.
pub mod errors;
pub mod locks;
pub mod pallet;
pub mod referenda;
pub mod traits;
pub mod types;

pub use errors::Error;
pub use pallet::Pallet;
pub use referenda::{
    EnactmentPeriodOnEmpty,
    LaunchPeriodOnEmpty,
    MaxPublicPropsOnEmpty,
    ReservePeriodOnEmpty,
    VotingPeriodOnEmpty,
};
pub use traits::{ConvertInto, Pledge};
pub use types::{Opinion, ReferendumInfo, ReferendumStatus, Tally, VoteInfo};
