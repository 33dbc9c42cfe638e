//! What one instance of the proposal module keeps: its configuration, its
//! proposals with their ballots, and its hook subscribers.

use crate::addr::Addr;
use crate::ballots::Ballots;
use crate::ballots::VoteInfoView;
use crate::ballots::sorted;
use crate::ballots::tallies;
use crate::deposit::CheckedDepositInfo;
use crate::deposit::DepositView;
use crate::deposit::deposit_view;
use crate::expiration::BlockInfo;
use crate::expiration::Duration;
use crate::hooks::Hooks;
use crate::hooks::distinct;
use crate::model::views;
use crate::proposal::MultipleChoiceProposal;
use crate::proposal::ProposalView;
use crate::proposal::has_winner;
use crate::status::Status;
use crate::threshold::quorum_is_valid;
use crate::voting::VotingStrategy;
use crate::voting::voting_period_fault;
use vstd::prelude::*;

verus! {

/// The settings of the module.
#[derive(Debug, PartialEq, Eq)]
pub struct Config {
    /// How votes are counted and what quorum a proposal needs.
    pub voting_strategy: VotingStrategy,
    /// The time for which a proposal must be open before it can pass.
    pub min_voting_period: Option<Duration>,
    /// The time after which voting on a proposal ends.
    pub max_voting_period: Duration,
    /// Whether only members of the DAO may execute passed proposals.
    pub only_members_execute: bool,
    /// Whether a voter may change their vote while the proposal is open.
    pub allow_revoting: bool,
    /// The DAO that this module belongs to.
    pub dao: Addr,
    /// The deposit asked of new proposals, if any.
    pub deposit_info: Option<CheckedDepositInfo>,
    /// Whether the messages of a winning choice are run apart, so that
    /// their failure marks the proposal as failed in place of undoing its
    /// execution.
    pub close_proposal_on_execution_failure: bool,
    /// Whether those without voting power may propose.
    pub open_proposal_submission: bool,
}

pub struct ConfigView {
    pub voting_strategy: VotingStrategy,
    pub min_voting_period: Option<Duration>,
    pub max_voting_period: Duration,
    pub only_members_execute: bool,
    pub allow_revoting: bool,
    pub dao: Seq<char>,
    pub deposit_info: Option<DepositView>,
    pub close_proposal_on_execution_failure: bool,
    pub open_proposal_submission: bool,
}

impl View for Config {
    type V = ConfigView;

    open spec fn view(&self) -> ConfigView {
        ConfigView {
            voting_strategy: self.voting_strategy,
            min_voting_period: self.min_voting_period,
            max_voting_period: self.max_voting_period,
            only_members_execute: self.only_members_execute,
            allow_revoting: self.allow_revoting,
            dao: self.dao@,
            deposit_info: deposit_view(self.deposit_info),
            close_proposal_on_execution_failure: self.close_proposal_on_execution_failure,
            open_proposal_submission: self.open_proposal_submission,
        }
    }
}

impl ConfigView {
    /// What every accepted configuration meets: the quorum can be reached,
    /// the voting periods agree, and a deposit, if there is one, is not
    /// zero.
    pub open spec fn valid(self) -> bool {
        &&& quorum_is_valid(self.voting_strategy.quorum())
        &&& voting_period_fault(self.min_voting_period, self.max_voting_period) is None
        &&& (self.deposit_info matches Some(d) ==> d.amount != 0)
    }
}

impl Clone for Config {
    fn clone(&self) -> (r: Config)
        ensures
            r@ == self@,
    {
        Config {
            voting_strategy: self.voting_strategy,
            min_voting_period: self.min_voting_period,
            max_voting_period: self.max_voting_period,
            only_members_execute: self.only_members_execute,
            allow_revoting: self.allow_revoting,
            dao: self.dao.clone(),
            deposit_info: crate::deposit::clone_deposit(&self.deposit_info),
            close_proposal_on_execution_failure: self.close_proposal_on_execution_failure,
            open_proposal_submission: self.open_proposal_submission,
        }
    }
}

/// The module's data. The proposal with the id `n` stands at index `n - 1`
/// of `proposals`, and its ballots at the same index of `ballots`:
/// proposals are numbered from one in the order in which they are made,
/// and none is ever removed.
#[derive(Debug, PartialEq)]
pub struct State {
    pub config: Config,
    pub proposals: Vec<MultipleChoiceProposal>,
    pub ballots: Vec<Ballots>,
    pub proposal_hooks: Hooks,
    pub vote_hooks: Hooks,
}

pub struct StateView {
    pub config: ConfigView,
    pub proposals: Seq<ProposalView>,
    pub ballots: Seq<Seq<VoteInfoView>>,
    pub proposal_hooks: Seq<Seq<char>>,
    pub vote_hooks: Seq<Seq<char>>,
}

impl View for State {
    type V = StateView;

    open spec fn view(&self) -> StateView {
        StateView {
            config: self.config@,
            proposals: views(self.proposals@),
            ballots: views(self.ballots@),
            proposal_hooks: self.proposal_hooks@,
            vote_hooks: self.vote_hooks@,
        }
    }
}

/// Whether a proposal and its ballots agree: the proposal is well formed,
/// its tally is that of the ballots, the ballots are in order, and the
/// proposal counts as passed or executed only where one option leads
/// alone.
pub open spec fn consistent(p: ProposalView, b: Seq<VoteInfoView>) -> bool {
    &&& p.wf()
    &&& sorted(b)
    &&& tallies(p.votes, b)
    &&& (p.status == Status::Passed || p.status == Status::Executed ==> has_winner(p.votes))
}

impl StateView {
    /// The invariant of the module's data.
    pub open spec fn wf(self) -> bool {
        &&& self.config.valid()
        &&& self.proposals.len() == self.ballots.len()
        &&& forall|i: int|
            0 <= i < self.proposals.len() ==> consistent(
                #[trigger] self.proposals[i],
                self.ballots[i],
            )
        &&& distinct(self.proposal_hooks)
        &&& distinct(self.vote_hooks)
    }

    /// The number of proposals made so far, which is the id of the latest.
    pub open spec fn proposal_count(self) -> int {
        self.proposals.len() as int
    }

    /// Whether there is a proposal with the id `id`.
    pub open spec fn has_proposal(self, id: u64) -> bool {
        1 <= id <= self.proposals.len()
    }

    /// The proposal with the id `id`.
    pub open spec fn proposal(self, id: u64) -> ProposalView {
        self.proposals[id - 1]
    }

    /// The ballots cast on the proposal with the id `id`.
    pub open spec fn ballots_on(self, id: u64) -> Seq<VoteInfoView> {
        self.ballots[id - 1]
    }

    /// The data with the proposal `id` and its ballots replaced.
    pub open spec fn with_proposal(self, id: u64, p: ProposalView, b: Seq<VoteInfoView>) -> StateView {
        StateView {
            proposals: self.proposals.update(id - 1, p),
            ballots: self.ballots.update(id - 1, b),
            ..self
        }
    }
}

impl State {
    pub open spec fn wf(&self) -> bool {
        self@.wf()
    }

    /// The index at which the proposal `id` stands, if there is such a
    /// proposal.
    pub fn index_of(&self, id: u64) -> (r: Option<usize>)
        requires
            self.wf(),
        ensures
            match r {
                Some(i) => self@.has_proposal(id) && i == id - 1,
                None => !self@.has_proposal(id),
            },
    {
        if id >= 1 && id - 1 < self.proposals.len() as u64 {
            Some((id - 1) as usize)
        } else {
            None
        }
    }
}

/// The block and the module's own address, as the host gives them to an
/// operation.
#[derive(Debug, PartialEq, Eq)]
pub struct Env {
    pub block: BlockInfo,
    pub contract: ContractInfo,
}

#[derive(Debug, PartialEq, Eq)]
pub struct ContractInfo {
    pub address: Addr,
}

/// Who asked for an operation.
#[derive(Debug, PartialEq, Eq)]
pub struct MessageInfo {
    pub sender: Addr,
}

} // verus!
