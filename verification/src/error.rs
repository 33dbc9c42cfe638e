//! The ways in which an operation of the proposal module fails.

use crate::deposit::DepositError;
use crate::hooks::HookError;
use crate::reply::TagError;
use crate::threshold::ThresholdError;
use crate::voting::VotingError;
use vstd::prelude::*;

verus! {

#[derive(Clone, Copy, Debug, PartialEq, Eq, Structural)]
pub enum ContractError {
    /// The sender may not do this.
    Unauthorized {},
    /// The DAO's voting module reports that the DAO is not active.
    InactiveDao {},
    /// Only members may propose, and the sender has no voting power.
    MustHaveVotingPower {},
    /// The voter had no voting power when the proposal was made.
    NotRegistered {},
    /// There is no proposal with this id.
    NoSuchProposal { id: u64 },
    /// The proposal no longer takes votes.
    NotOpen { id: u64 },
    /// Only a passed proposal can be executed.
    NotPassed {},
    /// Only a rejected proposal can be closed.
    WrongCloseStatus {},
    /// The vote names an option that the proposal does not have.
    InvalidVote {},
    /// The encoded proposal is larger than the host can hand out again.
    ProposalTooLarge { size: u64, max: u64 },
    /// The voter has voted, and the proposal does not allow revoting.
    AlreadyVoted {},
    /// The voter has cast this very vote before.
    AlreadyCast {},
    /// Two or more options lead with the same weight.
    Tie {},
    /// A proposal needs two choices at least.
    WrongNumberOfChoices {},
    /// A choice has no label.
    EmptyChoice {},
    /// A count, a weight or a time went beyond what its type can hold.
    Overflow {},
    /// The host did not accept the address.
    InvalidAddress {},
    HookError(HookError),
    ThresholdError(ThresholdError),
    VotingError(VotingError),
    DepositError(DepositError),
    TagError(TagError),
}

} // verus!
