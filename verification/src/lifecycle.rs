//! The steps in the life of one proposal: a vote, its execution, its
//! closing, and the report that its execution failed.

use crate::error::ContractError;
use crate::expiration::BlockInfo;
use crate::model::lemma_sum_bounds_each;
use crate::model::lemma_sum_update;
use crate::model::sum;
use crate::proposal::MultipleChoiceProposal;
use crate::proposal::ProposalView;
use crate::proposal::has_winner;
use crate::status::Status;
use crate::voting::MultipleChoiceVote;
use vstd::prelude::*;

verus! {

/// What a voter has cast on a proposal: the option and the weight behind
/// it.
#[derive(Clone, Copy, Debug, PartialEq, Eq, Structural)]
pub struct Ballot {
    pub power: u128,
    pub vote: MultipleChoiceVote,
}

/// The tally without the weight of a ballot that is being replaced.
pub open spec fn tally_without(votes: Seq<u128>, previous: Option<Ballot>) -> Seq<u128> {
    match previous {
        Some(b) => votes.update(
            b.vote.option_id as int,
            (votes[b.vote.option_id as int] - b.power) as u128,
        ),
        None => votes,
    }
}

/// The tally after a vote: the weight of the voter's earlier ballot, if
/// any, is taken from the option it backed, and the new weight is added to
/// the option now chosen.
pub open spec fn tally_after_vote(
    votes: Seq<u128>,
    vote: MultipleChoiceVote,
    power: u128,
    previous: Option<Ballot>,
) -> Seq<u128> {
    let base = tally_without(votes, previous);
    base.update(vote.option_id as int, (base[vote.option_id as int] + power) as u128)
}

/// The weight that a replaced ballot takes out of the tally.
pub open spec fn withdrawn(previous: Option<Ballot>) -> int {
    match previous {
        Some(b) => b.power as int,
        None => 0,
    }
}

/// Why the proposal `id` does not take a vote at `block`, if it does not.
/// The reasons are tried in this order: the option does not exist; the
/// proposal is not open; the voter has no voting power; the voter has voted
/// and may not vote again, or casts the same vote again; the tally would
/// overflow.
pub open spec fn vote_fault(
    p: ProposalView,
    id: u64,
    block: BlockInfo,
    vote: MultipleChoiceVote,
    power: u128,
    previous: Option<Ballot>,
) -> Option<ContractError> {
    if vote.option_id >= p.choices.len() {
        Some(ContractError::InvalidVote {})
    } else if p.current_status(block) != Status::Open {
        Some(ContractError::NotOpen { id })
    } else if power == 0 {
        Some(ContractError::NotRegistered {})
    } else if previous is Some && !p.allow_revoting {
        Some(ContractError::AlreadyVoted {})
    } else if previous is Some && previous->0.vote == vote {
        Some(ContractError::AlreadyCast {})
    } else if previous is Some && previous->0.power > p.votes[previous->0.vote.option_id as int] {
        Some(ContractError::Overflow {})
    } else if sum(p.votes) - withdrawn(previous) + power > u128::MAX {
        Some(ContractError::Overflow {})
    } else {
        None
    }
}

/// The proposal after a vote that it takes: the tally is brought up to
/// date first, and the status is derived from the new tally.
pub open spec fn voted(
    p: ProposalView,
    block: BlockInfo,
    vote: MultipleChoiceVote,
    power: u128,
    previous: Option<Ballot>,
) -> ProposalView {
    ProposalView { votes: tally_after_vote(p.votes, vote, power, previous), ..p }.updated(block)
}

/// Why the proposal cannot be executed at `block`, if it cannot. Its status
/// is brought up to `block` first. A proposal that is open, or counts as
/// passed, while two or more options are tied for the lead is refused as a
/// `Tie`; any other proposal that has not passed is refused as
/// `NotPassed`.
pub open spec fn execute_fault(p: ProposalView, block: BlockInfo) -> Option<ContractError> {
    let status = p.current_status(block);
    if (status == Status::Open || status == Status::Passed) && !has_winner(p.votes) {
        Some(ContractError::Tie {})
    } else if status != Status::Passed {
        Some(ContractError::NotPassed {})
    } else {
        None
    }
}

/// The proposal once it has the status `status`, written at `block`.
pub open spec fn settled(p: ProposalView, status: Status, block: BlockInfo) -> ProposalView {
    ProposalView { status, last_updated: block.time, ..p }
}

/// Why the proposal cannot be closed at `block`, if it cannot: its status,
/// brought up to `block`, is not `Rejected`.
pub open spec fn close_fault(p: ProposalView, block: BlockInfo) -> Option<ContractError> {
    if p.current_status(block) != Status::Rejected {
        Some(ContractError::WrongCloseStatus {})
    } else {
        None
    }
}

/// The sum of the tally after a vote.
pub proof fn lemma_tally_after_vote_sum(
    votes: Seq<u128>,
    vote: MultipleChoiceVote,
    power: u128,
    previous: Option<Ballot>,
)
    requires
        vote.option_id < votes.len(),
        previous is Some ==> previous->0.vote.option_id < votes.len() && previous->0.power
            <= votes[previous->0.vote.option_id as int],
        sum(votes) - withdrawn(previous) + power <= u128::MAX,
    ensures
        tally_after_vote(votes, vote, power, previous).len() == votes.len(),
        sum(tally_after_vote(votes, vote, power, previous)) == sum(votes) - withdrawn(previous)
            + power,
        sum(tally_without(votes, previous)) == sum(votes) - withdrawn(previous),
{
    let base = tally_without(votes, previous);
    if previous is Some {
        let b = previous->0;
        lemma_sum_update(
            votes,
            b.vote.option_id as int,
            (votes[b.vote.option_id as int] - b.power) as u128,
        );
    }
    lemma_sum_bounds_each(base, vote.option_id as int);
    lemma_sum_update(base, vote.option_id as int, (base[vote.option_id as int] + power) as u128);
}

impl MultipleChoiceProposal {
    /// Takes the vote of a voter with voting power `power` who has cast
    /// `previous` before, if anything, and returns the ballot to keep for
    /// the voter. A vote that is not taken leaves the proposal as it was.
    pub fn cast_vote(
        &mut self,
        id: u64,
        block: &BlockInfo,
        vote: MultipleChoiceVote,
        power: u128,
        previous: Option<Ballot>,
    ) -> (r: Result<Ballot, ContractError>)
        requires
            old(self).wf(),
            previous is Some ==> previous->0.vote.option_id < old(self)@.choices.len(),
        ensures
            final(self).wf(),
            match vote_fault(old(self)@, id, *block, vote, power, previous) {
                Some(e) => r == Err::<Ballot, ContractError>(e) && final(self)@ == old(self)@,
                None => r == Ok::<Ballot, ContractError>(Ballot { power, vote }) && final(self)@
                    == voted(old(self)@, *block, vote, power, previous),
            },
    {
        if vote.option_id as usize >= self.choices.len() {
            return Err(ContractError::InvalidVote {});
        }
        if self.current_status(block) != Status::Open {
            return Err(ContractError::NotOpen { id });
        }
        if power == 0 {
            return Err(ContractError::NotRegistered {});
        }
        let total = self.votes.total();
        match previous {
            Some(b) => {
                if !self.allow_revoting {
                    return Err(ContractError::AlreadyVoted {});
                }
                if b.vote.option_id == vote.option_id {
                    return Err(ContractError::AlreadyCast {});
                }
                if b.power > self.votes.vote_weights[b.vote.option_id as usize] {
                    return Err(ContractError::Overflow {});
                }
                proof {
                    lemma_sum_bounds_each(self@.votes, b.vote.option_id as int);
                }
                if power > u128::MAX - (total - b.power) {
                    return Err(ContractError::Overflow {});
                }
                let removed = self.votes.remove_vote(b.vote, b.power);
                assert(removed is Ok);
            },
            None => {
                if power > u128::MAX - total {
                    return Err(ContractError::Overflow {});
                }
            },
        }
        let added = self.votes.add_vote(vote, power);
        assert(added is Ok);
        proof {
            lemma_tally_after_vote_sum(old(self)@.votes, vote, power, previous);
            assert(self@.votes =~= tally_after_vote(old(self)@.votes, vote, power, previous));
        }
        self.update_status(block);
        Ok(Ballot { power, vote })
    }

    /// Marks the proposal as executed and returns the index of the winning
    /// choice. A proposal that cannot be executed is left as it was.
    pub fn execute(&mut self, block: &BlockInfo) -> (r: Result<usize, ContractError>)
        requires
            old(self).wf(),
        ensures
            final(self).wf(),
            match execute_fault(old(self)@, *block) {
                Some(e) => r == Err::<usize, ContractError>(e) && final(self)@ == old(self)@,
                None => r is Ok && r->Ok_0 == crate::proposal::winner(old(self)@.votes) && final(self)@ == settled(old(self)@, Status::Executed, *block),
            },
    {
        let status = self.current_status(block);
        let leader = self.leader();
        match status {
            Status::Open => match leader {
                None => Err(ContractError::Tie {}),
                Some(_) => Err(ContractError::NotPassed {}),
            },
            Status::Passed => match leader {
                None => Err(ContractError::Tie {}),
                Some(i) => {
                    self.status = Status::Executed;
                    self.last_updated = block.time;
                    Ok(i)
                },
            },
            _ => Err(ContractError::NotPassed {}),
        }
    }

    /// Marks a rejected proposal as closed. A proposal that cannot be
    /// closed is left as it was.
    pub fn close(&mut self, block: &BlockInfo) -> (r: Result<(), ContractError>)
        requires
            old(self).wf(),
        ensures
            final(self).wf(),
            match close_fault(old(self)@, *block) {
                Some(e) => r == Err::<(), ContractError>(e) && final(self)@ == old(self)@,
                None => r is Ok && final(self)@ == settled(old(self)@, Status::Closed, *block),
            },
    {
        if self.current_status(block) != Status::Rejected {
            return Err(ContractError::WrongCloseStatus {});
        }
        self.status = Status::Closed;
        self.last_updated = block.time;
        Ok(())
    }

    /// Records that the DAO failed to run the messages of the proposal.
    pub fn fail_execution(&mut self, block: &BlockInfo)
        requires
            old(self).wf(),
        ensures
            final(self).wf(),
            final(self)@ == settled(old(self)@, Status::ExecutionFailed, *block),
    {
        self.status = Status::ExecutionFailed;
        self.last_updated = block.time;
    }
}

/// A proposal that has been executed, closed or found to have failed takes
/// no further vote: whoever votes, for whatever option and with whatever
/// power, at whatever time, the vote is refused.
pub proof fn lemma_no_vote_once_settled(
    p: ProposalView,
    id: u64,
    block: BlockInfo,
    vote: MultipleChoiceVote,
    power: u128,
    previous: Option<Ballot>,
)
    requires
        p.status.is_terminal(),
    ensures
        vote_fault(p, id, block, vote, power, previous) is Some,
        vote_fault(p, id, block, vote, power, previous) == Some(ContractError::InvalidVote {})
            || vote_fault(p, id, block, vote, power, previous) == Some(
            ContractError::NotOpen { id },
        ),
{
}

/// A proposal whose lead is tied is never executed, and no winner is ever
/// picked for it. While it is open and voting has not ended, it stays open
/// and every attempt to execute it is refused as a `Tie`; once voting has
/// ended it is rejected, and the attempt is refused as `NotPassed`. A
/// record that says that such a proposal passed is refused as a `Tie` too.
/// Whenever the attempt is made, the proposal stays as it was.
pub proof fn lemma_tie_is_never_executed(p: ProposalView, block: BlockInfo)
    requires
        !has_winner(p.votes),
    ensures
        execute_fault(p, block) is Some,
        !p.is_passed(block),
        p.status == Status::Open && !p.expired(block) ==> p.current_status(block) == Status::Open
            && execute_fault(p, block) == Some(ContractError::Tie {}),
        p.status == Status::Open && p.expired(block) ==> p.current_status(block)
            == Status::Rejected && execute_fault(p, block) == Some(ContractError::NotPassed {}),
        p.status == Status::Passed ==> execute_fault(p, block) == Some(ContractError::Tie {}),
        p.status != Status::Open && p.status != Status::Passed ==> execute_fault(p, block) == Some(
            ContractError::NotPassed {},
        ),
{
}

/// A proposal moves along its lifecycle and never back. Time alone takes
/// an open proposal to passed or rejected and changes no other status: a
/// status that was written stands. A vote is taken only while the proposal
/// is open, and leaves it open, passed or rejected. Execution takes a
/// passed proposal to executed, closing takes a rejected one to closed, and
/// a passed or executed proposal may be found to have failed.
pub proof fn lemma_lifecycle(
    p: ProposalView,
    id: u64,
    block: BlockInfo,
    vote: MultipleChoiceVote,
    power: u128,
    previous: Option<Ballot>,
)
    ensures
        p.status != Status::Open ==> p.current_status(block) == p.status,
        p.current_status(block) == p.status || p.status.may_become(p.current_status(block)),
        vote_fault(p, id, block, vote, power, previous) is None ==> p.status == Status::Open && (
        voted(p, block, vote, power, previous).status == Status::Open
            || Status::Open.may_become(voted(p, block, vote, power, previous).status)),
        execute_fault(p, block) is None ==> p.current_status(block).may_become(
            settled(p, Status::Executed, block).status,
        ),
        close_fault(p, block) is None ==> p.current_status(block).may_become(
            settled(p, Status::Closed, block).status,
        ),
        Status::Passed.may_become(Status::ExecutionFailed),
        Status::Executed.may_become(Status::ExecutionFailed),
        forall|next: Status| !Status::Closed.may_become(next) && !Status::ExecutionFailed.may_become(next),
{
}

} // verus!
