//! The ballots cast on one proposal: one for each voter, kept in the order
//! of the voters' addresses.

use crate::addr::Addr;
use crate::addr::addr_lt;
use crate::addr::lemma_addr_lt_transitive;
use crate::addr::lemma_addr_order;
use crate::lifecycle::Ballot;
use crate::model::lemma_sum_update;
use crate::model::lemma_sum_zeros;
use crate::model::lemma_views_insert;
use crate::model::lemma_views_update;
use crate::model::sum;
use crate::model::views;
use crate::voting::MultipleChoiceVote;
use vstd::prelude::*;

verus! {

/// The ballot of one voter.
#[derive(Debug, PartialEq, Eq)]
pub struct VoteInfo {
    pub voter: Addr,
    pub vote: MultipleChoiceVote,
    pub power: u128,
}

pub struct VoteInfoView {
    pub voter: Seq<char>,
    pub vote: MultipleChoiceVote,
    pub power: u128,
}

impl View for VoteInfo {
    type V = VoteInfoView;

    open spec fn view(&self) -> VoteInfoView {
        VoteInfoView { voter: self.voter@, vote: self.vote, power: self.power }
    }
}

impl Clone for VoteInfo {
    fn clone(&self) -> (r: VoteInfo)
        ensures
            r@ == self@,
    {
        VoteInfo { voter: self.voter.clone(), vote: self.vote, power: self.power }
    }
}

/// Whether the ballots stand in the strict order of their voters'
/// addresses. No voter then has two.
pub open spec fn sorted(b: Seq<VoteInfoView>) -> bool {
    forall|i: int, j: int| 0 <= i < j < b.len() ==> addr_lt(b[i].voter, b[j].voter)
}

/// The least index from `i` on at which the ballot of `voter` stands, or
/// the number of ballots where the voter has none.
pub open spec fn find_from(b: Seq<VoteInfoView>, voter: Seq<char>, i: int) -> int
    decreases b.len() - i,
{
    if i < 0 || i >= b.len() {
        b.len() as int
    } else if b[i].voter == voter {
        i
    } else {
        find_from(b, voter, i + 1)
    }
}

/// The index of the ballot of `voter`, or the number of ballots.
pub open spec fn find(b: Seq<VoteInfoView>, voter: Seq<char>) -> int {
    find_from(b, voter, 0)
}

/// The ballot of `voter`, if the voter has cast one.
pub open spec fn ballot_of(b: Seq<VoteInfoView>, voter: Seq<char>) -> Option<Ballot> {
    if find(b, voter) < b.len() {
        Some(Ballot { power: b[find(b, voter)].power, vote: b[find(b, voter)].vote })
    } else {
        None
    }
}

/// The least index from `i` on whose voter does not come before `voter`, or
/// the number of ballots.
pub open spec fn rank_from(b: Seq<VoteInfoView>, voter: Seq<char>, i: int) -> int
    decreases b.len() - i,
{
    if i < 0 || i >= b.len() {
        b.len() as int
    } else if !addr_lt(b[i].voter, voter) {
        i
    } else {
        rank_from(b, voter, i + 1)
    }
}

/// The number of ballots whose voters come before `voter`.
pub open spec fn rank(b: Seq<VoteInfoView>, voter: Seq<char>) -> int {
    rank_from(b, voter, 0)
}

/// The ballots once `info` is recorded: it replaces the ballot of its
/// voter, or takes its place in the order where the voter had none.
pub open spec fn recorded(b: Seq<VoteInfoView>, info: VoteInfoView) -> Seq<VoteInfoView> {
    if find(b, info.voter) < b.len() {
        b.update(find(b, info.voter), info)
    } else {
        b.insert(rank(b, info.voter), info)
    }
}

/// What a ballot adds to the weight of `option`.
pub open spec fn weight_for(info: VoteInfoView, option: int) -> int {
    if info.vote.option_id == option {
        info.power as int
    } else {
        0
    }
}

/// The weight that the ballots put behind `option`.
pub open spec fn tally_of(b: Seq<VoteInfoView>, option: int) -> int
    decreases b.len(),
{
    if b.len() == 0 {
        0
    } else {
        tally_of(b.drop_last(), option) + weight_for(b.last(), option)
    }
}

/// The weight of all ballots together.
pub open spec fn ballots_total(b: Seq<VoteInfoView>) -> int
    decreases b.len(),
{
    if b.len() == 0 {
        0
    } else {
        ballots_total(b.drop_last()) + b.last().power
    }
}

/// Whether `votes` is the tally of the ballots `b`: each option has exactly
/// the weight of the ballots that back it, and every ballot backs an option
/// that exists.
pub open spec fn tallies(votes: Seq<u128>, b: Seq<VoteInfoView>) -> bool {
    &&& forall|i: int| 0 <= i < b.len() ==> (#[trigger] b[i]).vote.option_id < votes.len()
    &&& forall|c: int| 0 <= c < votes.len() ==> #[trigger] votes[c] == tally_of(b, c)
}

pub proof fn lemma_find_from(b: Seq<VoteInfoView>, voter: Seq<char>, i: int)
    requires
        0 <= i <= b.len(),
    ensures
        i <= find_from(b, voter, i) <= b.len(),
        find_from(b, voter, i) < b.len() ==> b[find_from(b, voter, i)].voter == voter,
        forall|j: int| i <= j < find_from(b, voter, i) ==> b[j].voter != voter,
    decreases b.len() - i,
{
    if i < b.len() && b[i].voter != voter {
        lemma_find_from(b, voter, i + 1);
    }
}

pub proof fn lemma_rank_from(b: Seq<VoteInfoView>, voter: Seq<char>, i: int)
    requires
        0 <= i <= b.len(),
    ensures
        i <= rank_from(b, voter, i) <= b.len(),
        rank_from(b, voter, i) < b.len() ==> !addr_lt(b[rank_from(b, voter, i)].voter, voter),
        forall|j: int| i <= j < rank_from(b, voter, i) ==> addr_lt(b[j].voter, voter),
    decreases b.len() - i,
{
    if i < b.len() && addr_lt(b[i].voter, voter) {
        lemma_rank_from(b, voter, i + 1);
    }
}

/// In sorted ballots, those in front of the rank of `voter` come before
/// `voter` and the others do not.
pub proof fn lemma_rank_splits(b: Seq<VoteInfoView>, voter: Seq<char>)
    requires
        sorted(b),
    ensures
        0 <= rank(b, voter) <= b.len(),
        forall|j: int| 0 <= j < rank(b, voter) ==> addr_lt(b[j].voter, voter),
        forall|j: int| rank(b, voter) <= j < b.len() ==> !addr_lt(b[j].voter, voter),
{
    lemma_rank_from(b, voter, 0);
    let r = rank(b, voter);
    assert forall|j: int| r <= j < b.len() implies !addr_lt(b[j].voter, voter) by {
        if j > r && addr_lt(b[j].voter, voter) {
            lemma_addr_lt_transitive(b[r].voter, b[j].voter, voter);
        }
    }
}

/// Recording a ballot keeps the ballots in order and changes nothing but
/// the ballot of its voter.
pub proof fn lemma_recorded(b: Seq<VoteInfoView>, info: VoteInfoView)
    requires
        sorted(b),
    ensures
        sorted(recorded(b, info)),
        ballot_of(recorded(b, info), info.voter) == Some(
            Ballot { power: info.power, vote: info.vote },
        ),
        forall|other: Seq<char>|
            other != info.voter ==> #[trigger] ballot_of(recorded(b, info), other) == ballot_of(
                b,
                other,
            ),
{
    let r2 = recorded(b, info);
    let at = find(b, info.voter);
    lemma_find_from(b, info.voter, 0);
    lemma_rank_splits(b, info.voter);
    let k = rank(b, info.voter);
    if at >= b.len() {
        assert forall|i: int, j: int| 0 <= i < j < r2.len() implies addr_lt(
            r2[i].voter,
            r2[j].voter,
        ) by {
            if j == k {
                assert(r2[i] == b[i]);
            } else if i == k {
                assert(r2[j] == b[j - 1]);
                lemma_addr_order(b[j - 1].voter, info.voter);
            } else if j < k {
                assert(r2[i] == b[i] && r2[j] == b[j]);
            } else if i > k {
                assert(r2[i] == b[i - 1] && r2[j] == b[j - 1]);
            } else {
                assert(r2[i] == b[i] && r2[j] == b[j - 1]);
            }
        }
    }
    lemma_find_from(r2, info.voter, 0);
    let at2 = find(r2, info.voter);
    assert(r2[if at < b.len() {
        at
    } else {
        k
    }].voter == info.voter);
    assert(at2 < r2.len());
    if at2 != (if at < b.len() {
        at
    } else {
        k
    }) {
        lemma_addr_order(info.voter, info.voter);
        let x = if at < b.len() {
            at
        } else {
            k
        };
        if at2 < x {
            assert(addr_lt(r2[at2].voter, r2[x].voter));
        } else {
            assert(addr_lt(r2[x].voter, r2[at2].voter));
        }
    }
    assert forall|other: Seq<char>| other != info.voter implies #[trigger] ballot_of(
        r2,
        other,
    ) == ballot_of(b, other) by {
        lemma_find_from(b, other, 0);
        lemma_find_from(r2, other, 0);
        let fo = find(b, other);
        let fn2 = find(r2, other);
        if at < b.len() {
            // An update in place: every other voter stays where they were.
            if fo < b.len() {
                assert(r2[fo].voter == other);
                assert(fn2 <= fo);
                if fn2 < fo {
                    assert(r2[fn2].voter == other);
                    assert(b[fn2].voter == other);
                }
            } else {
                if fn2 < r2.len() {
                    assert(b[fn2].voter == other);
                }
            }
        } else {
            // An insertion at `k`: the ballots from `k` on move up by one.
            if fo < b.len() {
                let moved = if fo < k {
                    fo
                } else {
                    fo + 1
                };
                assert(r2[moved] == b[fo]);
                if fn2 < moved {
                    let back = if fn2 < k {
                        fn2
                    } else {
                        fn2 - 1
                    };
                    assert(fn2 != k);
                    assert(r2[fn2] == b[back]);
                    assert(b[back].voter == other);
                    assert(back < fo);
                } else if fn2 > moved {
                    assert(false);
                }
            } else {
                if fn2 < r2.len() {
                    assert(fn2 != k);
                    let back = if fn2 < k {
                        fn2
                    } else {
                        fn2 - 1
                    };
                    assert(r2[fn2] == b[back]);
                }
            }
        }
    }
}

pub proof fn lemma_tally_insert(b: Seq<VoteInfoView>, i: int, info: VoteInfoView, option: int)
    requires
        0 <= i <= b.len(),
    ensures
        tally_of(b.insert(i, info), option) == tally_of(b, option) + weight_for(info, option),
        ballots_total(b.insert(i, info)) == ballots_total(b) + info.power,
    decreases b.len(),
{
    let b2 = b.insert(i, info);
    if i == b.len() {
        assert(b2.drop_last() =~= b);
    } else {
        assert(b2.drop_last() =~= b.drop_last().insert(i, info));
        assert(b2.last() == b.last());
        lemma_tally_insert(b.drop_last(), i, info, option);
    }
}

pub proof fn lemma_tally_update(b: Seq<VoteInfoView>, i: int, info: VoteInfoView, option: int)
    requires
        0 <= i < b.len(),
    ensures
        tally_of(b.update(i, info), option) == tally_of(b, option) - weight_for(b[i], option)
            + weight_for(info, option),
        ballots_total(b.update(i, info)) == ballots_total(b) - b[i].power + info.power,
        weight_for(b[i], option) <= tally_of(b, option),
    decreases b.len(),
{
    let b2 = b.update(i, info);
    lemma_tally_nonnegative(b.drop_last(), option);
    if i == b.len() - 1 {
        assert(b2.drop_last() =~= b.drop_last());
    } else {
        assert(b2.drop_last() =~= b.drop_last().update(i, info));
        assert(b2.last() == b.last());
        lemma_tally_update(b.drop_last(), i, info, option);
    }
}

pub proof fn lemma_tally_nonnegative(b: Seq<VoteInfoView>, option: int)
    ensures
        0 <= tally_of(b, option),
        0 <= ballots_total(b),
    decreases b.len(),
{
    if b.len() > 0 {
        lemma_tally_nonnegative(b.drop_last(), option);
    }
}

/// No weight is counted twice and none is lost: where `votes` is the tally
/// of the ballots, the weights of all options together are the weights of
/// all ballots together.
pub proof fn lemma_tally_conserved(votes: Seq<u128>, b: Seq<VoteInfoView>)
    requires
        tallies(votes, b),
    ensures
        sum(votes) == ballots_total(b),
    decreases b.len(),
{
    if b.len() == 0 {
        lemma_sum_zeros(votes);
    } else {
        let last = b.last();
        let k = last.vote.option_id as int;
        assert(b[b.len() - 1].vote.option_id < votes.len());
        lemma_tally_nonnegative(b.drop_last(), k);
        let less = (votes[k] - last.power) as u128;
        let before = votes.update(k, less);
        assert forall|i: int| 0 <= i < b.drop_last().len() implies (#[trigger] b.drop_last()[i]).vote.option_id
            < before.len() by {
            assert(b.drop_last()[i] == b[i]);
        }
        assert(tallies(before, b.drop_last()));
        lemma_tally_conserved(before, b.drop_last());
        lemma_sum_update(votes, k, less);
    }
}

/// The ballot that a voter has cast backs an option that exists, with no
/// more weight than that option has.
pub proof fn lemma_ballot_is_counted(votes: Seq<u128>, b: Seq<VoteInfoView>, voter: Seq<char>)
    requires
        tallies(votes, b),
    ensures
        ballot_of(b, voter) matches Some(cast) ==> cast.vote.option_id < votes.len() && cast.power
            <= votes[cast.vote.option_id as int],
{
    lemma_find_from(b, voter, 0);
    let at = find(b, voter);
    if at < b.len() {
        assert(b[at].vote.option_id < votes.len());
        let c = b[at].vote.option_id as int;
        lemma_member_weight(b, at, c);
    }
}

proof fn lemma_member_weight(b: Seq<VoteInfoView>, i: int, option: int)
    requires
        0 <= i < b.len(),
    ensures
        weight_for(b[i], option) <= tally_of(b, option),
    decreases b.len(),
{
    lemma_tally_nonnegative(b.drop_last(), option);
    if i < b.len() - 1 {
        lemma_member_weight(b.drop_last(), i, option);
    }
}

/// Taking a vote keeps the tally in step with the ballots: where `votes`
/// is the tally of `b`, the tally after the vote is the tally of the
/// ballots with the new one recorded.
pub proof fn lemma_vote_keeps_tally(
    votes: Seq<u128>,
    b: Seq<VoteInfoView>,
    info: VoteInfoView,
)
    requires
        tallies(votes, b),
        info.vote.option_id < votes.len(),
        ballot_of(b, info.voter) matches Some(cast) ==> cast.vote != info.vote,
        sum(votes) - crate::lifecycle::withdrawn(ballot_of(b, info.voter)) + info.power
            <= u128::MAX,
    ensures
        tallies(
            crate::lifecycle::tally_after_vote(
                votes,
                info.vote,
                info.power,
                ballot_of(b, info.voter),
            ),
            recorded(b, info),
        ),
{
    let previous = ballot_of(b, info.voter);
    let after = crate::lifecycle::tally_after_vote(votes, info.vote, info.power, previous);
    let b2 = recorded(b, info);
    lemma_find_from(b, info.voter, 0);
    lemma_rank_from(b, info.voter, 0);
    lemma_ballot_is_counted(votes, b, info.voter);
    crate::lifecycle::lemma_tally_after_vote_sum(votes, info.vote, info.power, previous);
    let at = find(b, info.voter);
    let base = crate::lifecycle::tally_without(votes, previous);
    let vo = info.vote.option_id as int;
    crate::model::lemma_sum_bounds_each(base, vo);
    assert(base[vo] + info.power <= u128::MAX);
    assert forall|c: int| 0 <= c < after.len() implies #[trigger] after[c] == tally_of(b2, c) by {
        assert(votes[c] == tally_of(b, c));
        if at < b.len() {
            let po = b[at].vote.option_id as int;
            assert(previous == Some(Ballot { power: b[at].power, vote: b[at].vote }));
            assert(po != vo);
            assert(b[at].power <= votes[po]);
            lemma_tally_update(b, at, info, c);
            assert(b2 == b.update(at, info));
            if c == vo {
                assert(after[c] == base[vo] + info.power);
                assert(base[vo] == votes[vo]);
            } else if c == po {
                assert(after[c] == base[c]);
                assert(base[c] == votes[po] - b[at].power);
            } else {
                assert(after[c] == votes[c]);
            }
        } else {
            assert(previous is None);
            lemma_tally_insert(b, rank(b, info.voter), info, c);
            assert(b2 == b.insert(rank(b, info.voter), info));
            if c == vo {
                assert(after[c] == votes[vo] + info.power);
            } else {
                assert(after[c] == votes[c]);
            }
        }
    }
    assert forall|i: int| 0 <= i < b2.len() implies (#[trigger] b2[i]).vote.option_id
        < after.len() by {
        if at < b.len() {
            if i != at {
                assert(b2[i] == b[i]);
            }
        } else {
            let k = rank(b, info.voter);
            if i < k {
                assert(b2[i] == b[i]);
            } else if i > k {
                assert(b2[i] == b[i - 1]);
            }
        }
    }
}

/// The ballots of one proposal.
#[derive(Debug, PartialEq, Eq)]
pub struct Ballots {
    pub votes: Vec<VoteInfo>,
}

impl View for Ballots {
    type V = Seq<VoteInfoView>;

    open spec fn view(&self) -> Seq<VoteInfoView> {
        views(self.votes@)
    }
}

impl Ballots {
    pub open spec fn wf(&self) -> bool {
        sorted(self@)
    }

    pub fn new() -> (r: Ballots)
        ensures
            r@ == Seq::<VoteInfoView>::empty(),
            r.wf(),
    {
        let r = Ballots { votes: Vec::new() };
        assert(r@ =~= Seq::<VoteInfoView>::empty());
        r
    }

    /// The index of the ballot of `voter`, or the number of ballots where
    /// the voter has none.
    pub fn position(&self, voter: &Addr) -> (r: usize)
        ensures
            r == find(self@, voter@),
    {
        let mut i: usize = 0;
        while i < self.votes.len()
            invariant
                i <= self.votes.len(),
                find(self@, voter@) == find_from(self@, voter@, i as int),
            decreases self.votes.len() - i,
        {
            if self.votes[i].voter.same(voter) {
                return i;
            }
            i = i + 1;
        }
        i
    }

    /// The number of ballots whose voters come before `voter`.
    pub fn rank(&self, voter: &Addr) -> (r: usize)
        ensures
            r == rank(self@, voter@),
    {
        let mut i: usize = 0;
        while i < self.votes.len()
            invariant
                i <= self.votes.len(),
                rank(self@, voter@) == rank_from(self@, voter@, i as int),
            decreases self.votes.len() - i,
        {
            if !self.votes[i].voter.lt(voter) {
                return i;
            }
            i = i + 1;
        }
        i
    }

    /// The ballot of `voter`, if the voter has cast one.
    pub fn get(&self, voter: &Addr) -> (r: Option<Ballot>)
        ensures
            r == ballot_of(self@, voter@),
    {
        let at = self.position(voter);
        if at < self.votes.len() {
            Some(Ballot { power: self.votes[at].power, vote: self.votes[at].vote })
        } else {
            None
        }
    }

    /// Records a ballot, in place of the one that its voter cast before or
    /// at the voter's place in the order.
    pub fn record(&mut self, info: VoteInfo)
        requires
            old(self).wf(),
        ensures
            final(self).wf(),
            final(self)@ == recorded(old(self)@, info@),
    {
        proof {
            lemma_recorded(self@, info@);
            lemma_find_from(self@, info@.voter, 0);
            lemma_rank_from(self@, info@.voter, 0);
        }
        let at = self.position(&info.voter);
        if at < self.votes.len() {
            proof {
                lemma_views_update(self.votes@, at as int, info);
            }
            self.votes.set(at, info);
        } else {
            let k = self.rank(&info.voter);
            proof {
                lemma_views_insert(self.votes@, k as int, info);
            }
            self.votes.insert(k, info);
        }
    }
}

impl Clone for Ballots {
    fn clone(&self) -> (r: Ballots)
        ensures
            r@ == self@,
    {
        let mut out: Vec<VoteInfo> = Vec::new();
        let mut i: usize = 0;
        while i < self.votes.len()
            invariant
                i <= self.votes.len(),
                out@.len() == i,
                forall|j: int| 0 <= j < i ==> out@[j]@ == self.votes@[j]@,
            decreases self.votes.len() - i,
        {
            out.push(self.votes[i].clone());
            i = i + 1;
        }
        let r = Ballots { votes: out };
        assert(r@ =~= self@);
        r
    }
}

} // verus!
