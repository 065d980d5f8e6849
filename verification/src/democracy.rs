//! The interfaces of a vote that stakes something.
pub mod traits;
