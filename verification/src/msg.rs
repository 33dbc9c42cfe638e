//! The messages that the proposal module takes.

use crate::deposit::UncheckedDepositInfo;
use crate::expiration::Duration;
use crate::proposal::MultipleChoiceOptions;
use crate::voting::MultipleChoiceVote;
use crate::voting::VotingStrategy;
use vstd::prelude::*;

verus! {

/// The settings with which the module is set up.
#[derive(Debug, PartialEq, Eq)]
pub struct InstantiateMsg {
    pub voting_strategy: VotingStrategy,
    pub min_voting_period: Option<Duration>,
    pub max_voting_period: Duration,
    pub only_members_execute: bool,
    pub allow_revoting: bool,
    pub deposit_info: Option<UncheckedDepositInfo>,
    pub close_proposal_on_execution_failure: bool,
    pub open_proposal_submission: bool,
}

/// The operations that change the module's data.
#[derive(Debug, PartialEq)]
pub enum ExecuteMsg {
    /// Makes a proposal.
    Propose { title: String, description: String, choices: MultipleChoiceOptions },
    /// Votes on a proposal.
    Vote { proposal_id: u64, vote: MultipleChoiceVote },
    /// Hands the messages of the winning choice of a passed proposal to
    /// the DAO.
    Execute { proposal_id: u64 },
    /// Closes a rejected proposal.
    Close { proposal_id: u64 },
    /// Replaces the settings.
    UpdateConfig {
        voting_strategy: VotingStrategy,
        min_voting_period: Option<Duration>,
        max_voting_period: Duration,
        only_members_execute: bool,
        allow_revoting: bool,
        dao: String,
        deposit_info: Option<UncheckedDepositInfo>,
        close_proposal_on_execution_failure: bool,
        open_proposal_submission: bool,
    },
    AddProposalHook { address: String },
    RemoveProposalHook { address: String },
    AddVoteHook { address: String },
    RemoveVoteHook { address: String },
}

/// The questions that the module answers.
#[allow(inconsistent_fields)]
#[derive(Debug, PartialEq, Eq)]
pub enum QueryMsg {
    /// The settings.
    Config {},
    /// One proposal.
    Proposal { proposal_id: u64 },
    /// The proposals with ids above `start_after`, by ascending id.
    ListProposals { start_after: Option<u64>, limit: Option<u64> },
    /// The proposals with ids below `start_before`, by descending id.
    ReverseProposals { start_before: Option<u64>, limit: Option<u64> },
    /// The number of proposals made.
    ProposalCount {},
    /// The ballot of one voter on one proposal.
    GetVote { proposal_id: u64, voter: String },
    /// The ballots on one proposal of the voters after `start_after`, by
    /// ascending address.
    ListVotes { proposal_id: u64, start_after: Option<String>, limit: Option<u64> },
    /// The subscribers to proposal hooks.
    ProposalHooks {},
    /// The subscribers to vote hooks.
    VoteHooks {},
}

/// The message that accompanies a change of the module's code.
#[derive(Debug, PartialEq, Eq)]
pub struct MigrateMsg {}

/// The report of the host that a request made apart has failed.
#[derive(Clone, Copy, Debug, PartialEq, Eq, Structural)]
pub struct Reply {
    /// The identifier that was attached to the request.
    pub id: u64,
}

} // verus!
