//! A verified DAO governance library: the multiple-choice proposal module
//! (proposal lifecycle, weighted voting, deposits, hooks and reply routing)
//! together with the record types of its companion modules.
//!
//! The operations of the proposal module are in `contract`, `admin`,
//! `dispatch` and `query`; they work on the data of `state`. The steps of
//! one proposal are in `lifecycle`, the rule by which a tally and the time
//! give a status in `proposal`. What holds of every history of operations
//! is stated in `laws`.

pub mod addr;
pub mod cosmos;
pub mod error;
pub mod expiration;
pub mod math;
pub mod model;
pub mod status;
pub mod threshold;
pub mod voting;

pub mod deposit;
pub mod hooks;
pub mod reply;
pub mod response;

pub mod ballots;
pub mod lifecycle;
pub mod proposal;
pub mod state;

pub mod admin;
pub mod audit;
pub mod contract;
pub mod dispatch;
pub mod laws;
pub mod msg;
pub mod query;

pub mod core_v1;
pub mod dao_core;
pub mod interface;
pub mod named_groups;
pub mod voting_cw4;
