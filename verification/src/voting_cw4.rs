//! The messages of the voting module that takes its weights from a group
//! of members.

use vstd::prelude::*;

verus! {

/// The questions that the module answers: its own, and those that every
/// voting module answers.
#[derive(Debug, PartialEq, Eq)]
pub enum QueryMsg {
    /// The address of the group.
    GroupContract {},
    /// The voting power of an address at a height.
    VotingPowerAtHeight { address: String, height: Option<u64> },
    /// The voting power of the whole DAO at a height.
    TotalPowerAtHeight { height: Option<u64> },
    /// The address of the DAO that the module belongs to.
    Dao {},
    /// The name and version of the module's code.
    Info {},
}

#[derive(Debug, PartialEq, Eq)]
pub struct MigrateMsg {}

} // verus!
