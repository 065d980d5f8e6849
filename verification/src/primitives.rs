//! Types and traits shared by every engine.
pub mod account;
pub mod action;
pub mod hashing;
pub mod ids;
pub mod seqs;
pub mod traits;
pub mod types;

pub use account::AccountIdConversion;
