//! Checks by which data that comes from outside, say from the host's
//! store, is admitted: each decides one of the invariants on which the
//! operations rely.

use crate::addr::addr_lt;
use crate::addr::lemma_addr_lt_transitive;
use crate::ballots::Ballots;
use crate::ballots::VoteInfoView;
use crate::ballots::tallies;
use crate::ballots::tally_of;
use crate::ballots::weight_for;
use crate::hooks::Hooks;
use crate::model::lemma_sum_prefix;
use crate::model::lemma_sum_prefix_bound;
use crate::model::sum;
use crate::proposal::MultipleChoiceOptionType;
use crate::proposal::MultipleChoiceProposal;
use crate::proposal::valid_choices;
use crate::state::Config;
use crate::state::State;
use crate::state::consistent;
use crate::status::Status;
use crate::voting::MultipleChoiceVotes;
use crate::voting::validate_voting_period;
use vstd::prelude::*;

verus! {

impl Config {
    /// Whether the settings are such as the module accepts.
    pub fn is_valid(&self) -> (r: bool)
        ensures
            r == self@.valid(),
    {
        if self.voting_strategy.validate().is_err() {
            return false;
        }
        if validate_voting_period(self.min_voting_period, self.max_voting_period).is_err() {
            return false;
        }
        match &self.deposit_info {
            Some(d) => d.amount != 0,
            None => true,
        }
    }
}

impl MultipleChoiceVotes {
    /// Whether the total weight fits in 128 bits.
    pub fn is_well_formed(&self) -> (r: bool)
        ensures
            r == self.wf(),
    {
        let mut total: u128 = 0;
        let mut i: usize = 0;
        let ghost w = self@;
        assert(w.subrange(0, 0) =~= Seq::<u128>::empty());
        while i < self.vote_weights.len()
            invariant
                i <= self.vote_weights.len(),
                w == self@,
                total == sum(w.subrange(0, i as int)),
            decreases self.vote_weights.len() - i,
        {
            proof {
                lemma_sum_prefix(w, i as int);
                lemma_sum_prefix_bound(w, i as int + 1);
            }
            if self.vote_weights[i] > u128::MAX - total {
                return false;
            }
            total = total + self.vote_weights[i];
            i = i + 1;
        }
        assert(w.subrange(0, w.len() as int) =~= w);
        true
    }
}

impl MultipleChoiceProposal {
    /// Whether the proposal is well formed.
    pub fn is_well_formed(&self) -> (r: bool)
        ensures
            r == self.wf(),
    {
        let n = self.choices.len();
        if n < 3 || n as u64 > u32::MAX as u64 {
            return false;
        }
        if self.votes.vote_weights.len() != n {
            return false;
        }
        let ghost choices = self@.choices;
        let mut i: usize = 0;
        while i < n
            invariant
                i <= n,
                n == self.choices.len(),
                3 <= n <= u32::MAX,
                choices == self@.choices,
                forall|j: int| 0 <= j < i ==> (#[trigger] choices[j]).index == j,
                forall|j: int|
                    0 <= j < i && j < n - 1 ==> (#[trigger] choices[j]).option_type
                        == MultipleChoiceOptionType::Standard,
                i == n ==> choices[n - 1].option_type == MultipleChoiceOptionType::NoneOfTheAbove,
            decreases n - i,
        {
            let choice = &self.choices[i];
            assert(choices[i as int] == choice@);
            if choice.index as u64 != i as u64 {
                return false;
            }
            let standard = match choice.option_type {
                MultipleChoiceOptionType::Standard => true,
                MultipleChoiceOptionType::NoneOfTheAbove => false,
            };
            if standard != (i < n - 1) {
                return false;
            }
            i = i + 1;
        }
        assert(valid_choices(choices));
        self.votes.is_well_formed()
    }
}

/// Whether each ballot comes before the next.
pub open spec fn stepwise_sorted(b: Seq<VoteInfoView>) -> bool {
    forall|i: int| 0 <= i < b.len() - 1 ==> addr_lt(#[trigger] b[i].voter, b[i + 1].voter)
}

/// Ballots of which each comes before the next are in order.
pub proof fn lemma_stepwise_sorted(b: Seq<VoteInfoView>, i: int, j: int)
    requires
        stepwise_sorted(b),
        0 <= i < j < b.len(),
    ensures
        addr_lt(b[i].voter, b[j].voter),
    decreases j - i,
{
    if j > i + 1 {
        lemma_stepwise_sorted(b, i, j - 1);
        assert(addr_lt(b[j - 1].voter, b[j - 1 + 1].voter));
        lemma_addr_lt_transitive(b[i].voter, b[j - 1].voter, b[j].voter);
    } else {
        assert(addr_lt(b[i].voter, b[i + 1].voter));
    }
}

/// The weight that the first `k + 1` ballots put behind an option is that
/// of the first `k` and of the next.
pub proof fn lemma_tally_prefix(b: Seq<VoteInfoView>, k: int, option: int)
    requires
        0 <= k < b.len(),
    ensures
        tally_of(b.subrange(0, k + 1), option) == tally_of(b.subrange(0, k), option) + weight_for(
            b[k],
            option,
        ),
{
    assert(b.subrange(0, k + 1).drop_last() =~= b.subrange(0, k));
}

/// The first ballots never put more behind an option than all of them.
pub proof fn lemma_tally_prefix_bound(b: Seq<VoteInfoView>, k: int, option: int)
    requires
        0 <= k <= b.len(),
    ensures
        tally_of(b.subrange(0, k), option) <= tally_of(b, option),
    decreases b.len(),
{
    if k == b.len() {
        assert(b.subrange(0, k) =~= b);
    } else {
        assert(b.subrange(0, k) =~= b.drop_last().subrange(0, k));
        lemma_tally_prefix_bound(b.drop_last(), k, option);
    }
}

impl Ballots {
    /// Whether the ballots are in the order of their voters.
    pub fn is_sorted(&self) -> (r: bool)
        ensures
            r == self.wf(),
    {
        let n = self.votes.len();
        if n == 0 {
            return true;
        }
        let mut i: usize = 0;
        while i < n - 1
            invariant
                n >= 1,
                n == self.votes.len(),
                forall|j: int| 0 <= j < i && j < n - 1 ==> addr_lt(
                    #[trigger] self@[j].voter,
                    self@[j + 1].voter,
                ),
            decreases n - i,
        {
            if !self.votes[i].voter.lt(&self.votes[i + 1].voter) {
                assert(!addr_lt(self@[i as int].voter, self@[i as int + 1].voter));
                return false;
            }
            i = i + 1;
        }
        proof {
            assert(stepwise_sorted(self@));
            assert forall|a: int, c: int| 0 <= a < c < self@.len() implies addr_lt(
                self@[a].voter,
                self@[c].voter,
            ) by {
                lemma_stepwise_sorted(self@, a, c);
            }
        }
        true
    }

    /// Whether `votes` is the tally of the ballots.
    pub fn tally_is(&self, votes: &MultipleChoiceVotes) -> (r: bool)
        ensures
            r == tallies(votes@, self@),
    {
        let n = votes.vote_weights.len();
        let m = self.votes.len();
        let mut k: usize = 0;
        while k < m
            invariant
                k <= m,
                m == self.votes.len(),
                n == votes@.len(),
                forall|j: int| 0 <= j < k ==> (#[trigger] self@[j]).vote.option_id < n,
            decreases m - k,
        {
            if self.votes[k].vote.option_id as u64 >= n as u64 {
                assert(!(self@[k as int].vote.option_id < votes@.len()));
                return false;
            }
            k = k + 1;
        }
        let mut c: usize = 0;
        while c < n
            invariant
                c <= n,
                m == self.votes.len(),
                n == votes@.len(),
                n == votes.vote_weights.len(),
                forall|j: int| 0 <= j < m ==> (#[trigger] self@[j]).vote.option_id < n,
                forall|o: int| 0 <= o < c ==> #[trigger] votes@[o] == tally_of(self@, o),
            decreases n - c,
        {
            let target = votes.vote_weights[c];
            let mut running: u128 = 0;
            let mut k: usize = 0;
            assert(self@.subrange(0, 0) =~= Seq::<VoteInfoView>::empty());
            while k < m
                invariant
                    k <= m,
                    m == self.votes.len(),
                    c < n,
                    target == votes@[c as int],
                    running == tally_of(self@.subrange(0, k as int), c as int),
                    running <= target,
                decreases m - k,
            {
                proof {
                    lemma_tally_prefix(self@, k as int, c as int);
                    lemma_tally_prefix_bound(self@, k as int + 1, c as int);
                }
                if self.votes[k].vote.option_id as u64 == c as u64 {
                    if self.votes[k].power > target - running {
                        assert(votes@[c as int] != tally_of(self@, c as int));
                        return false;
                    }
                    running = running + self.votes[k].power;
                }
                k = k + 1;
            }
            assert(self@.subrange(0, m as int) =~= self@);
            if running != target {
                assert(votes@[c as int] != tally_of(self@, c as int));
                return false;
            }
            c = c + 1;
        }
        true
    }
}

impl Hooks {
    /// Whether no subscriber is listed twice.
    pub fn is_distinct(&self) -> (r: bool)
        ensures
            r == self.wf(),
    {
        let n = self.hooks.len();
        let mut j: usize = 0;
        while j < n
            invariant
                j <= n,
                n == self.hooks.len(),
                forall|a: int, b: int| 0 <= a < b < j ==> self@[a] != self@[b],
            decreases n - j,
        {
            let mut i: usize = 0;
            while i < j
                invariant
                    i <= j < n,
                    n == self.hooks.len(),
                    forall|a: int| 0 <= a < i ==> self@[a] != self@[j as int],
                decreases j - i,
            {
                if self.hooks[i].same(&self.hooks[j]) {
                    assert(self@[i as int] == self@[j as int]);
                    return false;
                }
                i = i + 1;
            }
            j = j + 1;
        }
        true
    }
}

/// Whether a proposal and its ballots agree.
pub fn is_consistent(proposal: &MultipleChoiceProposal, ballots: &Ballots) -> (r: bool)
    ensures
        r == consistent(proposal@, ballots@),
{
    if !proposal.is_well_formed() {
        return false;
    }
    if !ballots.is_sorted() {
        return false;
    }
    if !ballots.tally_is(&proposal.votes) {
        return false;
    }
    match proposal.status {
        Status::Passed | Status::Executed => proposal.leader().is_some(),
        _ => true,
    }
}

impl State {
    /// Whether the data is well formed, and so fit for the operations of
    /// the module.
    pub fn is_well_formed(&self) -> (r: bool)
        ensures
            r == self.wf(),
    {
        if !self.config.is_valid() {
            return false;
        }
        let n = self.proposals.len();
        if self.ballots.len() != n {
            return false;
        }
        let mut i: usize = 0;
        while i < n
            invariant
                i <= n,
                n == self.proposals.len(),
                n == self.ballots.len(),
                forall|j: int|
                    0 <= j < i ==> consistent(#[trigger] self@.proposals[j], self@.ballots[j]),
            decreases n - i,
        {
            if !is_consistent(&self.proposals[i], &self.ballots[i]) {
                assert(!consistent(self@.proposals[i as int], self@.ballots[i as int]));
                return false;
            }
            i = i + 1;
        }
        self.proposal_hooks.is_distinct() && self.vote_hooks.is_distinct()
    }
}

} // verus!
