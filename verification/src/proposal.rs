//! Proposals: their choices, their tally, and the status that follows from
//! the tally and the time.

use cosmwasm_std::CosmosMsg;
use cosmwasm_std::Empty;
use crate::addr::Addr;
use crate::cosmos::clone_optional_msgs;
use crate::cosmos::msgs_view;
use crate::deposit::CheckedDepositInfo;
use crate::deposit::DepositView;
use crate::deposit::deposit_view;
use crate::error::ContractError;
use crate::expiration::BlockInfo;
use crate::expiration::Expiration;
use crate::expiration::Timestamp;
use crate::model::sum;
use crate::model::views;
use crate::status::Status;
use crate::threshold::does_vote_count_pass;
use crate::threshold::vote_count_passes;
use crate::voting::MultipleChoiceVotes;
use crate::voting::VotingStrategy;
use vstd::prelude::*;

verus! {

/// The encoded size, in bytes, that no proposal may exceed.
pub const MAX_PROPOSAL_SIZE: u64 = 30_000;

/// The size of a page of a listing where none is asked for, and the largest
/// that can be asked for.
pub const DEFAULT_LIMIT: u64 = 30;

/// Whether a choice is one of the proposer's or the one that stands for
/// turning them all down.
#[derive(Clone, Copy, Debug, PartialEq, Eq, Structural)]
pub enum MultipleChoiceOptionType {
    /// "None of the above": the choice that rejects the proposal.
    NoneOfTheAbove,
    Standard,
}

/// A choice as the proposer submits it.
#[derive(Debug, PartialEq)]
pub struct MultipleChoiceOption {
    pub description: String,
    pub msgs: Option<Vec<CosmosMsg<Empty>>>,
}

pub struct OptionView {
    pub description: Seq<char>,
    pub msgs: Option<Seq<CosmosMsg<Empty>>>,
}

impl View for MultipleChoiceOption {
    type V = OptionView;

    open spec fn view(&self) -> OptionView {
        OptionView { description: self.description@, msgs: msgs_view(self.msgs) }
    }
}

/// The choices of a proposal as the proposer submits them.
#[derive(Debug, PartialEq)]
pub struct MultipleChoiceOptions {
    pub options: Vec<MultipleChoiceOption>,
}

impl View for MultipleChoiceOptions {
    type V = Seq<OptionView>;

    open spec fn view(&self) -> Seq<OptionView> {
        views(self.options@)
    }
}

/// A choice of a proposal that has been accepted.
#[derive(Debug, PartialEq)]
pub struct CheckedMultipleChoiceOption {
    /// The position of the choice among the choices of its proposal.
    pub index: u32,
    pub option_type: MultipleChoiceOptionType,
    pub description: String,
    pub msgs: Option<Vec<CosmosMsg<Empty>>>,
}

pub struct ChoiceView {
    pub index: u32,
    pub option_type: MultipleChoiceOptionType,
    pub description: Seq<char>,
    pub msgs: Option<Seq<CosmosMsg<Empty>>>,
}

impl View for CheckedMultipleChoiceOption {
    type V = ChoiceView;

    open spec fn view(&self) -> ChoiceView {
        ChoiceView {
            index: self.index,
            option_type: self.option_type,
            description: self.description@,
            msgs: msgs_view(self.msgs),
        }
    }
}

impl Clone for CheckedMultipleChoiceOption {
    fn clone(&self) -> (r: CheckedMultipleChoiceOption)
        ensures
            r@ == self@,
    {
        CheckedMultipleChoiceOption {
            index: self.index,
            option_type: self.option_type,
            description: self.description.clone(),
            msgs: clone_optional_msgs(&self.msgs),
        }
    }
}

/// The choices of a proposal that has been accepted.
#[derive(Debug, PartialEq)]
pub struct CheckedMultipleChoiceOptions {
    pub options: Vec<CheckedMultipleChoiceOption>,
}

impl View for CheckedMultipleChoiceOptions {
    type V = Seq<ChoiceView>;

    open spec fn view(&self) -> Seq<ChoiceView> {
        views(self.options@)
    }
}

/// The label of the choice that is added to every proposal.
pub open spec fn none_option_description() -> Seq<char> {
    "None of the above"@
}

/// What is wrong with a list of submitted choices, if anything: there must
/// be at least two, few enough to be numbered, and each must have a label.
pub open spec fn options_fault(options: Seq<OptionView>) -> Option<ContractError> {
    if options.len() < 2 || options.len() >= u32::MAX {
        Some(ContractError::WrongNumberOfChoices {})
    } else if exists|i: int| 0 <= i < options.len() && options[i].description.len() == 0 {
        Some(ContractError::EmptyChoice {})
    } else {
        None
    }
}

/// The choices of a proposal made of the submitted ones: each in its place,
/// followed by "None of the above".
pub open spec fn checked_options(options: Seq<OptionView>) -> Seq<ChoiceView> {
    Seq::new(
        options.len() + 1,
        |i: int|
            if i < options.len() {
                ChoiceView {
                    index: i as u32,
                    option_type: MultipleChoiceOptionType::Standard,
                    description: options[i].description,
                    msgs: options[i].msgs,
                }
            } else {
                ChoiceView {
                    index: options.len() as u32,
                    option_type: MultipleChoiceOptionType::NoneOfTheAbove,
                    description: none_option_description(),
                    msgs: None,
                }
            },
    )
}

/// The shape of the choices of every proposal: at least two of the
/// proposer's, each numbered by its place, then "None of the above".
pub open spec fn valid_choices(choices: Seq<ChoiceView>) -> bool {
    &&& 3 <= choices.len() <= u32::MAX
    &&& forall|i: int| 0 <= i < choices.len() ==> (#[trigger] choices[i]).index == i
    &&& forall|i: int|
        0 <= i < choices.len() - 1 ==> (#[trigger] choices[i]).option_type
            == MultipleChoiceOptionType::Standard
    &&& choices[choices.len() - 1].option_type == MultipleChoiceOptionType::NoneOfTheAbove
}

pub proof fn lemma_checked_options_valid(options: Seq<OptionView>)
    requires
        options_fault(options) is None,
    ensures
        valid_choices(checked_options(options)),
{
}

impl MultipleChoiceOptions {
    /// Validates the submitted choices and completes them with "None of the
    /// above".
    pub fn into_checked(self) -> (r: Result<CheckedMultipleChoiceOptions, ContractError>)
        ensures
            match options_fault(self@) {
                Some(e) => r == Err::<CheckedMultipleChoiceOptions, ContractError>(e),
                None => r is Ok && r->Ok_0@ == checked_options(self@),
            },
    {
        let n = self.options.len();
        if n < 2 || n >= u32::MAX as usize {
            return Err(ContractError::WrongNumberOfChoices {});
        }
        let mut checked: Vec<CheckedMultipleChoiceOption> = Vec::new();
        let mut i: usize = 0;
        while i < n
            invariant
                i <= n,
                n == self.options.len(),
                2 <= n < u32::MAX,
                checked@.len() == i,
                forall|j: int| 0 <= j < i ==> self@[j].description.len() != 0,
                forall|j: int| 0 <= j < i ==> checked@[j]@ == checked_options(self@)[j],
            decreases n - i,
        {
            let option = &self.options[i];
            if option.description.as_str().is_empty() {
                assert(self@[i as int].description.len() == 0);
                return Err(ContractError::EmptyChoice {});
            }
            checked.push(
                CheckedMultipleChoiceOption {
                    index: i as u32,
                    option_type: MultipleChoiceOptionType::Standard,
                    description: option.description.clone(),
                    msgs: clone_optional_msgs(&option.msgs),
                },
            );
            i = i + 1;
        }
        checked.push(
            CheckedMultipleChoiceOption {
                index: n as u32,
                option_type: MultipleChoiceOptionType::NoneOfTheAbove,
                description: String::from_str("None of the above"),
                msgs: None,
            },
        );
        let r = CheckedMultipleChoiceOptions { options: checked };
        assert(r@ =~= checked_options(self@));
        Ok(r)
    }
}

/// Whether the option at `i` has strictly more weight than every other.
pub open spec fn leads(w: Seq<u128>, i: int) -> bool {
    &&& 0 <= i < w.len()
    &&& forall|j: int| 0 <= j < w.len() && j != i ==> w[j] < w[i]
}

/// Whether one option has strictly more weight than every other. Where none
/// has, two or more are tied for the lead.
pub open spec fn has_winner(w: Seq<u128>) -> bool {
    exists|i: int| leads(w, i)
}

/// The option that leads, where one does.
pub open spec fn winner(w: Seq<u128>) -> int {
    choose|i: int| leads(w, i)
}

/// At most one option leads.
pub proof fn lemma_leader_unique(w: Seq<u128>, i: int, j: int)
    requires
        leads(w, i),
        leads(w, j),
    ensures
        i == j,
{
    if i != j {
        assert(w[j] < w[i]);
        assert(w[i] < w[j]);
    }
}

pub proof fn lemma_winner_is(w: Seq<u128>, i: int)
    requires
        leads(w, i),
    ensures
        has_winner(w),
        winner(w) == i,
{
    lemma_leader_unique(w, i, winner(w));
}

/// Whether the option at `i` stays ahead whatever the voting power that has
/// not voted yet does. A standard option must stay strictly ahead; "None of
/// the above" need only not be overtaken, as a draw rejects the proposal
/// too.
pub open spec fn unbeatable(w: Seq<u128>, i: int, remaining: int, none_option: bool) -> bool {
    forall|j: int|
        0 <= j < w.len() && j != i ==> if none_option {
            w[i] >= #[trigger] w[j] + remaining
        } else {
            w[i] > #[trigger] w[j] + remaining
        }
}

/// The outcome of counting the votes.
#[derive(Debug, PartialEq)]
pub enum VoteResult {
    SingleWinner(CheckedMultipleChoiceOption),
    Tie,
}

/// A proposal.
#[derive(Debug, PartialEq)]
pub struct MultipleChoiceProposal {
    pub title: String,
    pub description: String,
    pub proposer: Addr,
    /// The height of the block in which the proposal was made. Voting
    /// power is read as of this height.
    pub start_height: u64,
    /// Before this has expired the proposal cannot pass.
    pub min_voting_period: Option<Expiration>,
    /// When voting ends.
    pub expiration: Expiration,
    pub choices: Vec<CheckedMultipleChoiceOption>,
    pub status: Status,
    pub voting_strategy: VotingStrategy,
    /// The voting power of the whole DAO when the proposal was made.
    pub total_power: u128,
    pub votes: MultipleChoiceVotes,
    pub allow_revoting: bool,
    /// The deposit policy in force when the proposal was made.
    pub deposit_info: Option<CheckedDepositInfo>,
    pub created: Timestamp,
    pub last_updated: Timestamp,
}

pub struct ProposalView {
    pub title: Seq<char>,
    pub description: Seq<char>,
    pub proposer: Seq<char>,
    pub start_height: u64,
    pub min_voting_period: Option<Expiration>,
    pub expiration: Expiration,
    pub choices: Seq<ChoiceView>,
    pub status: Status,
    pub voting_strategy: VotingStrategy,
    pub total_power: u128,
    pub votes: Seq<u128>,
    pub allow_revoting: bool,
    pub deposit_info: Option<DepositView>,
    pub created: Timestamp,
    pub last_updated: Timestamp,
}

impl View for MultipleChoiceProposal {
    type V = ProposalView;

    open spec fn view(&self) -> ProposalView {
        ProposalView {
            title: self.title@,
            description: self.description@,
            proposer: self.proposer@,
            start_height: self.start_height,
            min_voting_period: self.min_voting_period,
            expiration: self.expiration,
            choices: views(self.choices@),
            status: self.status,
            voting_strategy: self.voting_strategy,
            total_power: self.total_power,
            votes: self.votes@,
            allow_revoting: self.allow_revoting,
            deposit_info: deposit_view(self.deposit_info),
            created: self.created,
            last_updated: self.last_updated,
        }
    }
}

impl ProposalView {
    /// The invariant of a proposal: its choices have the shape of
    /// `valid_choices`, each has its weight, and the total weight fits in
    /// 128 bits.
    pub open spec fn wf(self) -> bool {
        &&& valid_choices(self.choices)
        &&& self.votes.len() == self.choices.len()
        &&& sum(self.votes) <= u128::MAX
    }

    /// Whether voting has ended by `block`.
    pub open spec fn expired(self, block: BlockInfo) -> bool {
        self.expiration.expired_at(block)
    }

    /// The voting power that has not voted: the snapshot less the tally.
    pub open spec fn remaining_power(self) -> int {
        if self.total_power >= sum(self.votes) {
            self.total_power - sum(self.votes)
        } else {
            0
        }
    }

    /// Whether enough of the voting power has taken part.
    pub open spec fn quorum_met(self) -> bool {
        vote_count_passes(
            sum(self.votes) as u128,
            self.total_power,
            self.voting_strategy.quorum(),
        )
    }

    /// Whether the option that leads, if any, is "None of the above".
    pub open spec fn winner_is_none_option(self) -> bool {
        self.choices[winner(self.votes)].option_type == MultipleChoiceOptionType::NoneOfTheAbove
    }

    /// Whether the proposal has passed by `block`: revoting, if allowed, is
    /// over; the minimum voting period is over; the quorum is met; one of
    /// the proposer's choices leads alone; and voting has ended or the lead
    /// can no longer be lost.
    pub open spec fn is_passed(self, block: BlockInfo) -> bool {
        &&& !(self.allow_revoting && !self.expired(block))
        &&& (self.min_voting_period matches Some(min) ==> min.expired_at(block))
        &&& self.quorum_met()
        &&& has_winner(self.votes)
        &&& !self.winner_is_none_option()
        &&& (self.expired(block) || unbeatable(
            self.votes,
            winner(self.votes),
            self.remaining_power(),
            false,
        ))
    }

    /// Whether the tally rejects the proposal by `block`. Before voting has
    /// ended only a lead of "None of the above" that cannot be overtaken
    /// does, and that only where votes cannot change; a tie does not: it
    /// keeps the proposal open until voting ends. Once voting has ended, a
    /// tie, a missed quorum and a lead of "None of the above" all reject.
    pub open spec fn is_rejected(self, block: BlockInfo) -> bool {
        &&& !(self.allow_revoting && !self.expired(block))
        &&& if !has_winner(self.votes) {
            self.expired(block)
        } else if self.expired(block) {
            !self.quorum_met() || self.winner_is_none_option()
        } else {
            self.winner_is_none_option() && unbeatable(
                self.votes,
                winner(self.votes),
                self.remaining_power(),
                true,
            )
        }
    }

    /// The status of the proposal at `block`. An open proposal is passed or
    /// rejected as its tally and the time say, and rejected in any case
    /// once voting has ended without its passing; any other status stands as
    /// it was written.
    pub open spec fn current_status(self, block: BlockInfo) -> Status {
        if self.status == Status::Open {
            if self.is_passed(block) {
                Status::Passed
            } else if self.expired(block) || self.is_rejected(block) {
                Status::Rejected
            } else {
                Status::Open
            }
        } else {
            self.status
        }
    }

    /// The proposal with its status brought up to `block`.
    pub open spec fn updated(self, block: BlockInfo) -> ProposalView {
        ProposalView { status: self.current_status(block), ..self }
    }
}

impl MultipleChoiceProposal {
    pub open spec fn wf(&self) -> bool {
        self@.wf()
    }

    /// The index of the option that leads alone, or `None` where two or
    /// more are tied for the lead.
    pub fn leader(&self) -> (r: Option<usize>)
        ensures
            match r {
                Some(i) => leads(self@.votes, i as int) && has_winner(self@.votes) && winner(
                    self@.votes,
                ) == i,
                None => !has_winner(self@.votes),
            },
    {
        let w = &self.votes.vote_weights;
        let n = w.len();
        if n == 0 {
            assert(forall|i: int| !leads(self@.votes, i));
            return None;
        }
        let mut best: usize = 0;
        let mut tied: bool = false;
        let ghost mut other: int = 0;
        let mut k: usize = 1;
        while k < n
            invariant
                1 <= k <= n,
                n == w@.len(),
                w@ == self@.votes,
                best < k,
                forall|j: int| 0 <= j < k ==> w@[j] <= w@[best as int],
                tied ==> 0 <= other < k && other != best && w@[other] == w@[best as int],
                !tied ==> forall|j: int| 0 <= j < k && j != best ==> w@[j] < w@[best as int],
            decreases n - k,
        {
            if w[k] > w[best] {
                best = k;
                tied = false;
            } else if w[k] == w[best] {
                tied = true;
                proof {
                    other = k as int;
                }
            }
            k = k + 1;
        }
        if tied {
            assert forall|i: int| !leads(self@.votes, i) by {
                if leads(self@.votes, i) {
                    if i == best {
                        assert(w@[other] < w@[i]);
                    } else {
                        assert(w@[best as int] < w@[i]);
                    }
                }
            }
            None
        } else {
            proof {
                lemma_winner_is(self@.votes, best as int);
            }
            Some(best)
        }
    }

    /// Counts the votes: the choice that leads alone, or a tie.
    pub fn calculate_vote_result(&self) -> (r: VoteResult)
        requires
            self.wf(),
        ensures
            match r {
                VoteResult::Tie => !has_winner(self@.votes),
                VoteResult::SingleWinner(c) => has_winner(self@.votes) && c@
                    == self@.choices[winner(self@.votes)],
            },
    {
        match self.leader() {
            None => VoteResult::Tie,
            Some(i) => VoteResult::SingleWinner(self.choices[i].clone()),
        }
    }

    /// The voting power that has not voted.
    fn remaining_power(&self) -> (r: u128)
        requires
            self.wf(),
        ensures
            r == self@.remaining_power(),
    {
        let total = self.votes.total();
        if self.total_power >= total {
            self.total_power - total
        } else {
            0
        }
    }

    /// Whether the option at `leader` stays ahead whatever the voting power
    /// that has not voted yet does.
    fn is_choice_unbeatable(&self, leader: usize, none_option: bool) -> (r: bool)
        requires
            self.wf(),
            leader < self@.votes.len(),
        ensures
            r == unbeatable(self@.votes, leader as int, self@.remaining_power(), none_option),
    {
        let remaining = self.remaining_power();
        let w = &self.votes.vote_weights;
        let top = w[leader];
        let mut j: usize = 0;
        while j < w.len()
            invariant
                j <= w.len(),
                w@ == self@.votes,
                leader < w@.len(),
                top == w@[leader as int],
                remaining == self@.remaining_power(),
                forall|k: int|
                    0 <= k < j && k != leader ==> if none_option {
                        top >= #[trigger] w@[k] + remaining
                    } else {
                        top > #[trigger] w@[k] + remaining
                    },
            decreases w.len() - j,
        {
            if j != leader {
                let other = w[j];
                let ahead = if other > u128::MAX - remaining {
                    false
                } else if none_option {
                    top >= other + remaining
                } else {
                    top > other + remaining
                };
                if !ahead {
                    assert(!(if none_option {
                        top >= w@[j as int] + remaining
                    } else {
                        top > w@[j as int] + remaining
                    }));
                    return false;
                }
            }
            j = j + 1;
        }
        true
    }

    fn quorum_met(&self) -> (r: bool)
        requires
            self.wf(),
        ensures
            r == self@.quorum_met(),
    {
        does_vote_count_pass(
            self.votes.total(),
            self.total_power,
            self.voting_strategy.get_quorum(),
        )
    }

    /// Whether the proposal has passed by `block`.
    pub fn is_passed(&self, block: &BlockInfo) -> (r: bool)
        requires
            self.wf(),
        ensures
            r == self@.is_passed(*block),
    {
        let expired = self.expiration.is_expired(block);
        if self.allow_revoting && !expired {
            return false;
        }
        match self.min_voting_period {
            Some(min) => {
                if !min.is_expired(block) {
                    return false;
                }
            },
            None => {},
        }
        if !self.quorum_met() {
            return false;
        }
        match self.leader() {
            None => false,
            Some(i) => {
                match self.choices[i].option_type {
                    MultipleChoiceOptionType::NoneOfTheAbove => false,
                    MultipleChoiceOptionType::Standard => {
                        if expired {
                            true
                        } else {
                            self.is_choice_unbeatable(i, false)
                        }
                    },
                }
            },
        }
    }

    /// Whether the tally rejects the proposal by `block`.
    pub fn is_rejected(&self, block: &BlockInfo) -> (r: bool)
        requires
            self.wf(),
        ensures
            r == self@.is_rejected(*block),
    {
        let expired = self.expiration.is_expired(block);
        if self.allow_revoting && !expired {
            return false;
        }
        match self.leader() {
            None => expired,
            Some(i) => {
                let none_leads = match self.choices[i].option_type {
                    MultipleChoiceOptionType::NoneOfTheAbove => true,
                    MultipleChoiceOptionType::Standard => false,
                };
                if expired {
                    !self.quorum_met() || none_leads
                } else {
                    none_leads && self.is_choice_unbeatable(i, true)
                }
            },
        }
    }

    /// The status of the proposal at `block`.
    pub fn current_status(&self, block: &BlockInfo) -> (r: Status)
        requires
            self.wf(),
        ensures
            r == self@.current_status(*block),
    {
        match self.status {
            Status::Open => {
                if self.is_passed(block) {
                    Status::Passed
                } else if self.expiration.is_expired(block) || self.is_rejected(block) {
                    Status::Rejected
                } else {
                    Status::Open
                }
            },
            _ => self.status,
        }
    }

    /// Brings the status of the proposal up to `block`.
    pub fn update_status(&mut self, block: &BlockInfo)
        requires
            old(self).wf(),
        ensures
            final(self)@ == old(self)@.updated(*block),
            final(self).wf(),
    {
        let status = self.current_status(block);
        self.status = status;
    }
}

impl Clone for MultipleChoiceProposal {
    fn clone(&self) -> (r: MultipleChoiceProposal)
        ensures
            r@ == self@,
    {
        let mut choices: Vec<CheckedMultipleChoiceOption> = Vec::new();
        let mut i: usize = 0;
        while i < self.choices.len()
            invariant
                i <= self.choices.len(),
                choices@.len() == i,
                forall|j: int| 0 <= j < i ==> choices@[j]@ == self.choices@[j]@,
            decreases self.choices.len() - i,
        {
            choices.push(self.choices[i].clone());
            i = i + 1;
        }
        assert(views(choices@) =~= views(self.choices@));
        MultipleChoiceProposal {
            title: self.title.clone(),
            description: self.description.clone(),
            proposer: self.proposer.clone(),
            start_height: self.start_height,
            min_voting_period: self.min_voting_period,
            expiration: self.expiration,
            choices,
            status: self.status,
            voting_strategy: self.voting_strategy,
            total_power: self.total_power,
            votes: self.votes.clone(),
            allow_revoting: self.allow_revoting,
            deposit_info: crate::deposit::clone_deposit(&self.deposit_info),
            created: self.created,
            last_updated: self.last_updated,
        }
    }
}

} // verus!
