//! The questions that the module answers. None changes anything; what is
//! said of a proposal is its status as of the block in which the question
//! is asked.

use crate::addr::Addr;
use crate::addr::addr_lt;
use crate::addr::lemma_addr_lt_transitive;
use crate::ballots::VoteInfo;
use crate::ballots::VoteInfoView;
use crate::ballots::ballot_of;
use crate::ballots::sorted;
use crate::expiration::BlockInfo;
use crate::hooks::HooksResponse;
use crate::model::views;
use crate::proposal::DEFAULT_LIMIT;
use crate::proposal::MultipleChoiceProposal;
use crate::proposal::ProposalView;
use crate::state::Config;
use crate::state::Env;
use crate::state::State;
use crate::state::StateView;
use vstd::prelude::*;

verus! {

/// A proposal with its id.
#[derive(Debug, PartialEq)]
pub struct ProposalResponse {
    pub id: u64,
    pub proposal: MultipleChoiceProposal,
}

pub struct ProposalResponseView {
    pub id: u64,
    pub proposal: ProposalView,
}

impl View for ProposalResponse {
    type V = ProposalResponseView;

    open spec fn view(&self) -> ProposalResponseView {
        ProposalResponseView { id: self.id, proposal: self.proposal@ }
    }
}

/// A page of proposals.
#[derive(Debug, PartialEq)]
pub struct ProposalListResponse {
    pub proposals: Vec<ProposalResponse>,
}

impl View for ProposalListResponse {
    type V = Seq<ProposalResponseView>;

    open spec fn view(&self) -> Seq<ProposalResponseView> {
        views(self.proposals@)
    }
}

/// The ballot of a voter, if the voter has cast one.
#[derive(Debug, PartialEq, Eq)]
pub struct VoteResponse {
    pub vote: Option<VoteInfo>,
}

impl View for VoteResponse {
    type V = Option<VoteInfoView>;

    open spec fn view(&self) -> Option<VoteInfoView> {
        match self.vote {
            Some(v) => Some(v@),
            None => None,
        }
    }
}

/// A page of ballots.
#[derive(Debug, PartialEq, Eq)]
pub struct VoteListResponse {
    pub votes: Vec<VoteInfo>,
}

impl View for VoteListResponse {
    type V = Seq<VoteInfoView>;

    open spec fn view(&self) -> Seq<VoteInfoView> {
        views(self.votes@)
    }
}

/// The number of items on a full page: what is asked for, but no more than
/// the default, which also applies where nothing is asked for.
pub open spec fn page_size(limit: Option<u64>) -> int {
    match limit {
        Some(l) => if l < DEFAULT_LIMIT {
            l as int
        } else {
            DEFAULT_LIMIT as int
        },
        None => DEFAULT_LIMIT as int,
    }
}

/// The number of items on a full page.
pub fn effective_limit(limit: Option<u64>) -> (r: u64)
    ensures
        r == page_size(limit),
        r <= DEFAULT_LIMIT,
{
    match limit {
        Some(l) => if l < DEFAULT_LIMIT {
            l
        } else {
            DEFAULT_LIMIT
        },
        None => DEFAULT_LIMIT,
    }
}

/// The ids of all proposals where `count` have been made: one to `count`,
/// ascending.
pub open spec fn all_ids(count: int) -> Seq<u64> {
    Seq::new(count as nat, |i: int| (i + 1) as u64)
}

/// The number of ids that a listing after `start_after` passes over.
pub open spec fn skipped(count: int, start_after: Option<u64>) -> int {
    match start_after {
        Some(x) => if x < count {
            x as int
        } else {
            count
        },
        None => 0,
    }
}

/// The ids on the page that follows `start_after`: the ids above it,
/// ascending, as many as a page holds or as there are.
pub open spec fn ids_after(count: int, start_after: Option<u64>, limit: Option<u64>) -> Seq<u64> {
    let from = skipped(count, start_after);
    let n = if page_size(limit) < count - from {
        page_size(limit)
    } else {
        count - from
    };
    Seq::new(n as nat, |i: int| (from + 1 + i) as u64)
}

/// The highest id that a listing before `start_before` holds, or zero
/// where it holds none.
pub open spec fn highest_before(count: int, start_before: Option<u64>) -> int {
    match start_before {
        Some(x) => if x == 0 {
            0
        } else if x - 1 < count {
            x - 1
        } else {
            count
        },
        None => count,
    }
}

/// The ids on the page that precedes `start_before`: the ids below it,
/// descending, as many as a page holds or as there are.
pub open spec fn ids_before(count: int, start_before: Option<u64>, limit: Option<u64>) -> Seq<
    u64,
> {
    let top = highest_before(count, start_before);
    let n = if page_size(limit) < top {
        page_size(limit)
    } else {
        top
    };
    Seq::new(n as nat, |i: int| (top - i) as u64)
}

/// What is said of the proposal `id` at `block`.
pub open spec fn proposal_response(s: StateView, block: BlockInfo, id: u64) -> ProposalResponseView {
    ProposalResponseView { id, proposal: s.proposal(id).updated(block) }
}

/// What is said of the proposals `ids` at `block`, in that order.
pub open spec fn proposal_responses(s: StateView, block: BlockInfo, ids: Seq<u64>) -> Seq<
    ProposalResponseView,
> {
    Seq::new(ids.len(), |i: int| proposal_response(s, block, ids[i]))
}

/// Pages follow one another without overlap and without gap. The page
/// after `start_after` holds the ids that come next in the ascending list
/// of all ids, a full page of them unless the list ends first; and the
/// page asked for after the last id of that page continues where it
/// stopped, so that the two pages together are one slice of the list of
/// all ids.
pub proof fn lemma_pagination_consistent(count: int, start_after: Option<u64>, limit: Option<u64>)
    requires
        0 <= count <= u64::MAX,
    ensures
        ({
            let first = ids_after(count, start_after, limit);
            let from = skipped(count, start_after);
            &&& first == all_ids(count).subrange(from, from + first.len())
            &&& first.len() == page_size(limit) || from + first.len() == count
            &&& forall|i: int| 0 <= i < first.len() ==> first[i] == from + 1 + i
            &&& first.len() > 0 ==> {
                let second = ids_after(count, Some(first.last()), limit);
                &&& first + second == all_ids(count).subrange(
                    from,
                    from + first.len() + second.len(),
                )
                &&& forall|i: int, j: int|
                    0 <= i < first.len() && 0 <= j < second.len() ==> first[i] < second[j]
                &&& second.len() > 0 ==> second[0] == first.last() + 1
                &&& second.len() == page_size(limit) || from + first.len() + second.len() == count
            }
        }),
{
    let first = ids_after(count, start_after, limit);
    let from = skipped(count, start_after);
    assert(first =~= all_ids(count).subrange(from, from + first.len()));
    if first.len() > 0 {
        let second = ids_after(count, Some(first.last()), limit);
        assert(first.last() == from + first.len());
        assert(skipped(count, Some(first.last())) == from + first.len());
        assert(first + second =~= all_ids(count).subrange(
            from,
            from + first.len() + second.len(),
        ));
    }
}

/// The least index from `i` on whose voter comes after `voter`, or the
/// number of ballots.
pub open spec fn first_after_from(b: Seq<VoteInfoView>, voter: Seq<char>, i: int) -> int
    decreases b.len() - i,
{
    if i < 0 || i >= b.len() {
        b.len() as int
    } else if addr_lt(voter, b[i].voter) {
        i
    } else {
        first_after_from(b, voter, i + 1)
    }
}

/// The number of ballots that a listing after `start_after` passes over.
pub open spec fn votes_skipped(b: Seq<VoteInfoView>, start_after: Option<Seq<char>>) -> int {
    match start_after {
        Some(v) => first_after_from(b, v, 0),
        None => 0,
    }
}

/// The ballots on the page that follows `start_after`: those of the voters
/// whose addresses come after it, in the order of the addresses, as many
/// as a page holds or as there are.
pub open spec fn votes_after(
    b: Seq<VoteInfoView>,
    start_after: Option<Seq<char>>,
    limit: Option<u64>,
) -> Seq<VoteInfoView> {
    let from = votes_skipped(b, start_after);
    let n = if page_size(limit) < b.len() - from {
        page_size(limit)
    } else {
        b.len() - from
    };
    b.subrange(from, from + n)
}

pub proof fn lemma_first_after_from(b: Seq<VoteInfoView>, voter: Seq<char>, i: int)
    requires
        0 <= i <= b.len(),
    ensures
        i <= first_after_from(b, voter, i) <= b.len(),
        first_after_from(b, voter, i) < b.len() ==> addr_lt(
            voter,
            b[first_after_from(b, voter, i)].voter,
        ),
        forall|j: int| i <= j < first_after_from(b, voter, i) ==> !addr_lt(voter, b[j].voter),
    decreases b.len() - i,
{
    if i < b.len() && !addr_lt(voter, b[i].voter) {
        lemma_first_after_from(b, voter, i + 1);
    }
}

/// A page of ballots holds voters after `start_after` only, and passes
/// over none of them: the ballots in front of the page are those of the
/// voters that do not come after `start_after`.
pub proof fn lemma_votes_after(b: Seq<VoteInfoView>, start_after: Seq<char>, limit: Option<u64>)
    requires
        sorted(b),
    ensures
        ({
            let from = votes_skipped(b, Some(start_after));
            let page = votes_after(b, Some(start_after), limit);
            &&& 0 <= from <= b.len()
            &&& forall|j: int| 0 <= j < from ==> !addr_lt(start_after, b[j].voter)
            &&& forall|j: int| from <= j < b.len() ==> addr_lt(start_after, b[j].voter)
            &&& forall|j: int| 0 <= j < page.len() ==> addr_lt(start_after, page[j].voter)
            &&& sorted(page)
        }),
{
    lemma_first_after_from(b, start_after, 0);
    let from = votes_skipped(b, Some(start_after));
    assert forall|j: int| from <= j < b.len() implies addr_lt(start_after, b[j].voter) by {
        if j > from {
            lemma_addr_lt_transitive(start_after, b[from].voter, b[j].voter);
        }
    }
}

/// The view of an optional address.
pub open spec fn optional_addr(a: Option<Addr>) -> Option<Seq<char>> {
    match a {
        Some(a) => Some(a@),
        None => None,
    }
}

/// The settings.
pub fn query_config(state: &State) -> (r: Config)
    ensures
        r@ == state@.config,
{
    state.config.clone()
}

/// The proposal `id` as of the present block, or `None` where there is no
/// such proposal.
pub fn query_proposal(state: &State, env: &Env, id: u64) -> (r: Option<ProposalResponse>)
    requires
        state.wf(),
    ensures
        match r {
            Some(p) => state@.has_proposal(id) && p@ == proposal_response(state@, env.block, id),
            None => !state@.has_proposal(id),
        },
{
    match state.index_of(id) {
        Some(i) => {
            assert(crate::state::consistent(state@.proposals[i as int], state@.ballots[i as int]));
            let mut proposal = state.proposals[i].clone();
            proposal.update_status(&env.block);
            Some(ProposalResponse { id, proposal })
        },
        None => None,
    }
}

/// The proposals with ids above `start_after`, by ascending id.
pub fn query_list_proposals(
    state: &State,
    env: &Env,
    start_after: Option<u64>,
    limit: Option<u64>,
) -> (r: ProposalListResponse)
    requires
        state.wf(),
    ensures
        r@ == proposal_responses(
            state@,
            env.block,
            ids_after(state@.proposal_count(), start_after, limit),
        ),
{
    let count = state.proposals.len();
    let from: usize = match start_after {
        Some(x) => if x < count as u64 {
            x as usize
        } else {
            count
        },
        None => 0,
    };
    let page = effective_limit(limit);
    let n: usize = if page < (count - from) as u64 {
        page as usize
    } else {
        count - from
    };
    let mut out: Vec<ProposalResponse> = Vec::new();
    let mut i: usize = 0;
    while i < n
        invariant
            i <= n,
            from + n <= count,
            count == state.proposals.len(),
            state.wf(),
            out@.len() == i,
            forall|j: int|
                0 <= j < i ==> out@[j]@ == proposal_response(
                    state@,
                    env.block,
                    (from + 1 + j) as u64,
                ),
        decreases n - i,
    {
        assert(crate::state::consistent(
            state@.proposals[from + i as int],
            state@.ballots[from + i as int],
        ));
        let mut proposal = state.proposals[from + i].clone();
        proposal.update_status(&env.block);
        out.push(ProposalResponse { id: (from + i) as u64 + 1, proposal });
        i = i + 1;
    }
    let r = ProposalListResponse { proposals: out };
    assert(r@ =~= proposal_responses(
        state@,
        env.block,
        ids_after(state@.proposal_count(), start_after, limit),
    ));
    r
}

/// The proposals with ids below `start_before`, by descending id.
pub fn query_reverse_proposals(
    state: &State,
    env: &Env,
    start_before: Option<u64>,
    limit: Option<u64>,
) -> (r: ProposalListResponse)
    requires
        state.wf(),
    ensures
        r@ == proposal_responses(
            state@,
            env.block,
            ids_before(state@.proposal_count(), start_before, limit),
        ),
{
    let count = state.proposals.len();
    let top: usize = match start_before {
        Some(x) => if x == 0 {
            0
        } else if x - 1 < count as u64 {
            (x - 1) as usize
        } else {
            count
        },
        None => count,
    };
    let page = effective_limit(limit);
    let n: usize = if page < top as u64 {
        page as usize
    } else {
        top
    };
    let mut out: Vec<ProposalResponse> = Vec::new();
    let mut i: usize = 0;
    while i < n
        invariant
            i <= n,
            n <= top <= count,
            count == state.proposals.len(),
            state.wf(),
            out@.len() == i,
            forall|j: int|
                0 <= j < i ==> out@[j]@ == proposal_response(
                    state@,
                    env.block,
                    (top - j) as u64,
                ),
        decreases n - i,
    {
        assert(crate::state::consistent(
            state@.proposals[top - 1 - i as int],
            state@.ballots[top - 1 - i as int],
        ));
        let mut proposal = state.proposals[top - 1 - i].clone();
        proposal.update_status(&env.block);
        out.push(ProposalResponse { id: (top - i) as u64, proposal });
        i = i + 1;
    }
    let r = ProposalListResponse { proposals: out };
    assert(r@ =~= proposal_responses(
        state@,
        env.block,
        ids_before(state@.proposal_count(), start_before, limit),
    ));
    r
}

/// The number of proposals made so far.
pub fn query_proposal_count(state: &State) -> (r: u64)
    ensures
        r == state@.proposal_count(),
{
    state.proposals.len() as u64
}

/// The ballot of `voter` on the proposal `proposal_id`. There is none
/// where there is no such proposal.
pub fn query_vote(state: &State, proposal_id: u64, voter: &Addr) -> (r: VoteResponse)
    requires
        state.wf(),
    ensures
        r@ == vote_answer(state@, proposal_id, voter@),
{
    match state.index_of(proposal_id) {
        Some(i) => match state.ballots[i].get(voter) {
            Some(b) => VoteResponse {
                vote: Some(VoteInfo { voter: voter.clone(), vote: b.vote, power: b.power }),
            },
            None => VoteResponse { vote: None },
        },
        None => VoteResponse { vote: None },
    }
}

/// The ballots on the proposal `proposal_id` of the voters after
/// `start_after`, by ascending address. There are none where there is no
/// such proposal.
pub fn query_list_votes(
    state: &State,
    proposal_id: u64,
    start_after: Option<Addr>,
    limit: Option<u64>,
) -> (r: VoteListResponse)
    requires
        state.wf(),
    ensures
        r@ == votes_answer(state@, proposal_id, optional_addr(start_after), limit),
{
    let at = match state.index_of(proposal_id) {
        Some(i) => i,
        None => {
            let r = VoteListResponse { votes: Vec::new() };
            assert(r@ =~= Seq::empty());
            return r;
        },
    };
    let ballots = &state.ballots[at];
    let total = ballots.votes.len();
    let ghost after = optional_addr(start_after);
    let from: usize = match &start_after {
        Some(a) => {
            let mut k: usize = 0;
            while k < total && !a.lt(&ballots.votes[k].voter)
                invariant
                    k <= total,
                    total == ballots.votes.len(),
                    first_after_from(ballots@, a@, 0) == first_after_from(ballots@, a@, k as int),
                decreases total - k,
            {
                k = k + 1;
            }
            k
        },
        None => 0,
    };
    let page = effective_limit(limit);
    let n: usize = if page < (total - from) as u64 {
        page as usize
    } else {
        total - from
    };
    let mut out: Vec<VoteInfo> = Vec::new();
    let mut i: usize = 0;
    while i < n
        invariant
            i <= n,
            from + n <= total,
            total == ballots.votes.len(),
            out@.len() == i,
            forall|j: int| 0 <= j < i ==> out@[j]@ == ballots@[from + j],
        decreases n - i,
    {
        out.push(ballots.votes[from + i].clone());
        i = i + 1;
    }
    let r = VoteListResponse { votes: out };
    assert(r@ =~= votes_after(ballots@, after, limit));
    r
}

/// The subscribers to proposal hooks.
pub fn query_proposal_hooks(state: &State) -> (r: HooksResponse)
    ensures
        r@ == state@.proposal_hooks,
{
    state.proposal_hooks.query_hooks()
}

/// The subscribers to vote hooks.
pub fn query_vote_hooks(state: &State) -> (r: HooksResponse)
    ensures
        r@ == state@.vote_hooks,
{
    state.vote_hooks.query_hooks()
}

/// An answer to a question.
#[derive(Debug, PartialEq)]
pub enum QueryResponse {
    Config(Config),
    Proposal(ProposalResponse),
    Proposals(ProposalListResponse),
    ProposalCount(u64),
    Vote(VoteResponse),
    Votes(VoteListResponse),
    Hooks(HooksResponse),
}

pub enum QueryResponseView {
    Config(crate::state::ConfigView),
    Proposal(ProposalResponseView),
    Proposals(Seq<ProposalResponseView>),
    ProposalCount(u64),
    Vote(Option<VoteInfoView>),
    Votes(Seq<VoteInfoView>),
    Hooks(Seq<Seq<char>>),
}

impl View for QueryResponse {
    type V = QueryResponseView;

    open spec fn view(&self) -> QueryResponseView {
        match self {
            QueryResponse::Config(c) => QueryResponseView::Config(c@),
            QueryResponse::Proposal(p) => QueryResponseView::Proposal(p@),
            QueryResponse::Proposals(l) => QueryResponseView::Proposals(l@),
            QueryResponse::ProposalCount(n) => QueryResponseView::ProposalCount(*n),
            QueryResponse::Vote(v) => QueryResponseView::Vote(v@),
            QueryResponse::Votes(l) => QueryResponseView::Votes(l@),
            QueryResponse::Hooks(h) => QueryResponseView::Hooks(h@),
        }
    }
}

/// The ballot of `voter` on the proposal `id`, as a query reports it.
pub open spec fn vote_answer(s: StateView, id: u64, voter: Seq<char>) -> Option<VoteInfoView> {
    if s.has_proposal(id) {
        match ballot_of(s.ballots_on(id), voter) {
            Some(b) => Some(VoteInfoView { voter, vote: b.vote, power: b.power }),
            None => None,
        }
    } else {
        None
    }
}

/// The ballots on the proposal `id`, as a query lists them.
pub open spec fn votes_answer(
    s: StateView,
    id: u64,
    start_after: Option<Seq<char>>,
    limit: Option<u64>,
) -> Seq<VoteInfoView> {
    if s.has_proposal(id) {
        votes_after(s.ballots_on(id), start_after, limit)
    } else {
        Seq::empty()
    }
}

/// The answer to a question, or why there is none: the proposal asked for
/// does not exist, or the host did not accept the address that the
/// question names. `address` is that address as the host validated it.
pub open spec fn answer(
    s: StateView,
    block: BlockInfo,
    msg: crate::msg::QueryMsg,
    address: Option<Addr>,
) -> Result<QueryResponseView, crate::error::ContractError> {
    match msg {
        crate::msg::QueryMsg::Config {} => Ok(QueryResponseView::Config(s.config)),
        crate::msg::QueryMsg::Proposal { proposal_id } => if s.has_proposal(proposal_id) {
            Ok(QueryResponseView::Proposal(proposal_response(s, block, proposal_id)))
        } else {
            Err(crate::error::ContractError::NoSuchProposal { id: proposal_id })
        },
        crate::msg::QueryMsg::ListProposals { start_after, limit } => Ok(
            QueryResponseView::Proposals(
                proposal_responses(s, block, ids_after(s.proposal_count(), start_after, limit)),
            ),
        ),
        crate::msg::QueryMsg::ReverseProposals { start_before, limit } => Ok(
            QueryResponseView::Proposals(
                proposal_responses(s, block, ids_before(s.proposal_count(), start_before, limit)),
            ),
        ),
        crate::msg::QueryMsg::ProposalCount {} => Ok(
            QueryResponseView::ProposalCount(s.proposal_count() as u64),
        ),
        crate::msg::QueryMsg::GetVote { proposal_id, voter } => match address {
            Some(a) => Ok(QueryResponseView::Vote(vote_answer(s, proposal_id, a@))),
            None => Err(crate::error::ContractError::InvalidAddress {}),
        },
        crate::msg::QueryMsg::ListVotes { proposal_id, start_after, limit } => if start_after
            is Some && address is None {
            Err(crate::error::ContractError::InvalidAddress {})
        } else {
            Ok(
                QueryResponseView::Votes(
                    votes_answer(
                        s,
                        proposal_id,
                        if start_after is Some {
                            optional_addr(address)
                        } else {
                            None
                        },
                        limit,
                    ),
                ),
            )
        },
        crate::msg::QueryMsg::ProposalHooks {} => Ok(QueryResponseView::Hooks(s.proposal_hooks)),
        crate::msg::QueryMsg::VoteHooks {} => Ok(QueryResponseView::Hooks(s.vote_hooks)),
    }
}

/// Answers a question. `address` is the address that the question names,
/// if it names one, as the host validated it, or `None` where the host did
/// not accept it.
pub fn query(state: &State, env: &Env, msg: crate::msg::QueryMsg, address: Option<Addr>) -> (r:
    Result<QueryResponse, crate::error::ContractError>)
    requires
        state.wf(),
    ensures
        match answer(state@, env.block, msg, address) {
            Ok(a) => r is Ok && r->Ok_0@ == a,
            Err(e) => r is Err && r->Err_0 == e,
        },
{
    match msg {
        crate::msg::QueryMsg::Config {} => Ok(QueryResponse::Config(query_config(state))),
        crate::msg::QueryMsg::Proposal { proposal_id } => match query_proposal(
            state,
            env,
            proposal_id,
        ) {
            Some(p) => Ok(QueryResponse::Proposal(p)),
            None => Err(crate::error::ContractError::NoSuchProposal { id: proposal_id }),
        },
        crate::msg::QueryMsg::ListProposals { start_after, limit } => Ok(
            QueryResponse::Proposals(query_list_proposals(state, env, start_after, limit)),
        ),
        crate::msg::QueryMsg::ReverseProposals { start_before, limit } => Ok(
            QueryResponse::Proposals(query_reverse_proposals(state, env, start_before, limit)),
        ),
        crate::msg::QueryMsg::ProposalCount {} => Ok(
            QueryResponse::ProposalCount(query_proposal_count(state)),
        ),
        crate::msg::QueryMsg::GetVote { proposal_id, voter } => match address {
            Some(a) => Ok(QueryResponse::Vote(query_vote(state, proposal_id, &a))),
            None => Err(crate::error::ContractError::InvalidAddress {}),
        },
        crate::msg::QueryMsg::ListVotes { proposal_id, start_after, limit } => {
            match start_after {
                Some(_) => match address {
                    Some(a) => Ok(
                        QueryResponse::Votes(query_list_votes(state, proposal_id, Some(a), limit)),
                    ),
                    None => Err(crate::error::ContractError::InvalidAddress {}),
                },
                None => Ok(QueryResponse::Votes(query_list_votes(state, proposal_id, None, limit))),
            }
        },
        crate::msg::QueryMsg::ProposalHooks {} => Ok(
            QueryResponse::Hooks(query_proposal_hooks(state)),
        ),
        crate::msg::QueryMsg::VoteHooks {} => Ok(QueryResponse::Hooks(query_vote_hooks(state))),
    }
}

} // verus!
