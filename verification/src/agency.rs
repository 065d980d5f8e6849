//! The agency: a DAO's collective, which decides by threshold votes, and the
//! table that says which backing each kind of action needs.
pub mod collective;
pub mod default_vote;
pub mod errors;
pub mod laws;
pub mod members;
pub mod origin;
pub mod pallet;
pub mod traits;
pub mod votes;

pub use default_vote::{DefaultVote, MoreThanMajorityThenPrimeDefaultVote, PrimeDefaultVote};
pub use errors::Error;
pub use origin::RawOrigin;
pub use pallet::{MaxMembersOnEmpty, MaxProposalsOnEmpty, MotionDurationOnEmpty, Pallet};
pub use votes::Votes;
