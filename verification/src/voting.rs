//! Votes, the tally of a proposal and the rules that a module's voting
//! configuration must meet.

use crate::expiration::Duration;
use crate::model::lemma_sum_bounds_each;
use crate::model::lemma_sum_prefix;
use crate::model::lemma_sum_prefix_bound;
use crate::model::lemma_sum_update;
use crate::model::lemma_sum_zeros;
use crate::model::sum;
use crate::threshold::PercentageThreshold;
use crate::threshold::ThresholdError;
use crate::threshold::quorum_is_valid;
use crate::threshold::validate_quorum;
use vstd::prelude::*;

verus! {

/// A vote: the index of the chosen option.
#[derive(Clone, Copy, Debug, PartialEq, Eq, Structural)]
pub struct MultipleChoiceVote {
    pub option_id: u32,
}

/// How the votes of a proposal are counted.
#[derive(Clone, Copy, Debug, PartialEq, Eq, Structural)]
pub enum VotingStrategy {
    /// Each voter backs one option; the proposal needs `quorum` of the
    /// voting power to take part.
    SingleChoice { quorum: PercentageThreshold },
}

impl VotingStrategy {
    pub open spec fn quorum(self) -> PercentageThreshold {
        match self {
            VotingStrategy::SingleChoice { quorum } => quorum,
        }
    }

    pub fn get_quorum(&self) -> (r: PercentageThreshold)
        ensures
            r == self.quorum(),
    {
        match self {
            VotingStrategy::SingleChoice { quorum } => *quorum,
        }
    }

    pub fn validate(&self) -> (r: Result<(), ThresholdError>)
        ensures
            r == if quorum_is_valid(self.quorum()) {
                Ok::<(), ThresholdError>(())
            } else {
                Err::<(), ThresholdError>(ThresholdError::UnreachableThreshold {})
            },
    {
        match self {
            VotingStrategy::SingleChoice { quorum } => validate_quorum(quorum),
        }
    }
}

#[derive(Clone, Copy, Debug, PartialEq, Eq, Structural)]
pub enum VotingError {
    /// The minimum voting period is longer than the maximum.
    InvalidMinVotingPeriod {},
    /// One period is counted in blocks, the other in seconds.
    DurationUnitsConflict {},
}

impl VotingError {
    pub open spec fn text(self) -> Seq<char> {
        match self {
            VotingError::InvalidMinVotingPeriod {} =>
                "Min voting period must be less than or equal to max voting period"@,
            VotingError::DurationUnitsConflict {} =>
                "min_voting_period and max_voting_period must have the same units (height or time)"@,
        }
    }

    pub fn message(&self) -> (r: String)
        ensures
            r@ == self.text(),
    {
        match self {
            VotingError::InvalidMinVotingPeriod {} => String::from_str(
                "Min voting period must be less than or equal to max voting period",
            ),
            VotingError::DurationUnitsConflict {} => String::from_str(
                "min_voting_period and max_voting_period must have the same units (height or time)",
            ),
        }
    }
}

/// What is wrong with a pair of voting periods, if anything: they must be
/// counted in the same unit, and the minimum must not exceed the maximum.
pub open spec fn voting_period_fault(min: Option<Duration>, max: Duration) -> Option<VotingError> {
    match min {
        None => None,
        Some(min) => match (min, max) {
            (Duration::Time(a), Duration::Time(b)) => if a <= b {
                None
            } else {
                Some(VotingError::InvalidMinVotingPeriod {})
            },
            (Duration::Height(a), Duration::Height(b)) => if a <= b {
                None
            } else {
                Some(VotingError::InvalidMinVotingPeriod {})
            },
            _ => Some(VotingError::DurationUnitsConflict {}),
        },
    }
}

/// Checks a pair of voting periods and hands them back where they are
/// valid.
pub fn validate_voting_period(min: Option<Duration>, max: Duration) -> (r: Result<
    (Option<Duration>, Duration),
    VotingError,
>)
    ensures
        r == match voting_period_fault(min, max) {
            None => Ok::<(Option<Duration>, Duration), VotingError>((min, max)),
            Some(e) => Err::<(Option<Duration>, Duration), VotingError>(e),
        },
{
    match min {
        None => Ok((min, max)),
        Some(m) => {
            let valid = match (m, max) {
                (Duration::Time(a), Duration::Time(b)) => a <= b,
                (Duration::Height(a), Duration::Height(b)) => a <= b,
                _ => {
                    return Err(VotingError::DurationUnitsConflict {});
                },
            };
            if valid {
                Ok((min, max))
            } else {
                Err(VotingError::InvalidMinVotingPeriod {})
            }
        },
    }
}

/// The tally overflowed, or a weight was withdrawn that had not been added.
#[derive(Clone, Copy, Debug, PartialEq, Eq, Structural)]
pub struct OverflowError {}

/// The weight behind each option of a proposal, by the option's index.
#[derive(Debug, PartialEq, Eq)]
pub struct MultipleChoiceVotes {
    pub vote_weights: Vec<u128>,
}

impl View for MultipleChoiceVotes {
    type V = Seq<u128>;

    open spec fn view(&self) -> Seq<u128> {
        self.vote_weights@
    }
}

impl Clone for MultipleChoiceVotes {
    fn clone(&self) -> (r: MultipleChoiceVotes)
        ensures
            r@ == self@,
    {
        MultipleChoiceVotes { vote_weights: self.vote_weights.clone() }
    }
}

impl MultipleChoiceVotes {
    /// The invariant of a tally: the total weight fits in 128 bits.
    pub open spec fn wf(&self) -> bool {
        sum(self@) <= u128::MAX
    }

    /// A tally of `num_choices` options with no votes yet.
    pub fn zero(num_choices: usize) -> (r: MultipleChoiceVotes)
        ensures
            r@.len() == num_choices,
            forall|i: int| 0 <= i < num_choices ==> r@[i] == 0,
            r.wf(),
    {
        let mut weights: Vec<u128> = Vec::new();
        let mut i: usize = 0;
        while i < num_choices
            invariant
                i <= num_choices,
                weights@.len() == i,
                forall|j: int| 0 <= j < i ==> weights@[j] == 0,
            decreases num_choices - i,
        {
            weights.push(0);
            i = i + 1;
        }
        proof {
            lemma_sum_zeros(weights@);
        }
        MultipleChoiceVotes { vote_weights: weights }
    }

    /// The total weight of all votes cast.
    pub fn total(&self) -> (r: u128)
        requires
            self.wf(),
        ensures
            r == sum(self@),
    {
        let mut total: u128 = 0;
        let mut i: usize = 0;
        let ghost w = self@;
        assert(w.subrange(0, 0) =~= Seq::<u128>::empty());
        while i < self.vote_weights.len()
            invariant
                i <= self.vote_weights.len(),
                w == self@,
                sum(w) <= u128::MAX,
                total == sum(w.subrange(0, i as int)),
            decreases self.vote_weights.len() - i,
        {
            proof {
                lemma_sum_prefix(w, i as int);
                lemma_sum_prefix_bound(w, i as int + 1);
            }
            total = total + self.vote_weights[i];
            i = i + 1;
        }
        assert(w.subrange(0, w.len() as int) =~= w);
        total
    }

    /// Adds `weight` to the option that `vote` names.
    pub fn add_vote(&mut self, vote: MultipleChoiceVote, weight: u128) -> (r: Result<
        (),
        OverflowError,
    >)
        requires
            old(self).wf(),
            vote.option_id < old(self)@.len(),
        ensures
            final(self).wf(),
            sum(old(self)@) + weight <= u128::MAX ==> r is Ok && final(self)@ == old(self)@.update(
                vote.option_id as int,
                (old(self)@[vote.option_id as int] + weight) as u128,
            ) && sum(final(self)@) == sum(old(self)@) + weight,
            sum(old(self)@) + weight > u128::MAX ==> r is Err && final(self)@ == old(self)@,
    {
        let total = self.total();
        if weight > u128::MAX - total {
            return Err(OverflowError {});
        }
        let at = vote.option_id as usize;
        proof {
            lemma_sum_bounds_each(self@, at as int);
        }
        let updated = self.vote_weights[at] + weight;
        proof {
            lemma_sum_update(self@, at as int, updated);
        }
        self.vote_weights.set(at, updated);
        Ok(())
    }

    /// Takes `weight` away from the option that `vote` names.
    pub fn remove_vote(&mut self, vote: MultipleChoiceVote, weight: u128) -> (r: Result<
        (),
        OverflowError,
    >)
        requires
            old(self).wf(),
            vote.option_id < old(self)@.len(),
        ensures
            final(self).wf(),
            weight <= old(self)@[vote.option_id as int] ==> r is Ok && final(self)@ == old(self)@.update(
                vote.option_id as int,
                (old(self)@[vote.option_id as int] - weight) as u128,
            ) && sum(final(self)@) == sum(old(self)@) - weight,
            weight > old(self)@[vote.option_id as int] ==> r is Err && final(self)@ == old(self)@,
    {
        let at = vote.option_id as usize;
        if weight > self.vote_weights[at] {
            return Err(OverflowError {});
        }
        let updated = self.vote_weights[at] - weight;
        proof {
            lemma_sum_update(self@, at as int, updated);
        }
        self.vote_weights.set(at, updated);
        Ok(())
    }
}

} // verus!
