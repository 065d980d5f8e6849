//! A multi-tenant authorization and voting engine.
//!
//! Many independent organisations (DAOs) share one deployment. Each decides
//! collectively whether an opaque action may run on its behalf, and each
//! declares per kind of action which backing the action needs.
//!
//! - `dao` is the registry of DAOs and of the account that is each DAO's own.
//! - `agency` is a DAO's collective: members propose, vote and close motions
//!   against a threshold, and a motion that is approved yields a one-shot
//!   token that says how much backing it had. It also keeps the table of
//!   origins: what backing a kind of action needs.
//! - `doas` is the gateway that holds a token against that table and lets the
//!   action run under the DAO's own account.
//! - `square` holds stake-weighted, time-boxed referenda on proposals that
//!   anyone may make and back with a deposit.
//! - `sudo` and `emergency` are the delegate of a DAO's root and the track
//!   for what cannot wait.
//!
//! The engines are state machines on plain values. A transition takes the
//! caller, the current time and its arguments, changes the state, and hands
//! back what the surrounding runtime has to carry out: an action to dispatch
//! under an account or with a token, funds to reserve or to free. Time is a
//! counter that the caller supplies; nothing happens by itself when a
//! deadline passes.
pub mod primitives;

pub mod agency;
pub mod dao;
pub mod democracy;
pub mod doas;
pub mod emergency;
pub mod error;
pub mod square;
pub mod sudo;
