//! The operations of the proposal module.

use crate::addr::Addr;
use crate::ballots::Ballots;
use crate::ballots::VoteInfo;
use crate::ballots::VoteInfoView;
use crate::ballots::ballot_of;
use crate::ballots::lemma_ballot_is_counted;
use crate::ballots::lemma_recorded;
use crate::ballots::lemma_vote_keeps_tally;
use crate::ballots::recorded;
use crate::deposit::deposit_msgs;
use crate::deposit::get_deposit_msg;
use crate::deposit::get_settlement_msg;
use crate::deposit::settlement_msgs;
use crate::error::ContractError;
use crate::expiration::BlockInfo;
use crate::expiration::Duration;
use crate::hooks::ProposalHookMsgView;
use crate::hooks::VoteHookMsgView;
use crate::hooks::new_proposal_hooks;
use crate::hooks::new_vote_hooks;
use crate::hooks::proposal_dispatches;
use crate::hooks::proposal_status_changed_hooks;
use crate::hooks::status_changed_dispatches;
use crate::hooks::vote_dispatches;
use crate::lifecycle::close_fault;
use crate::lifecycle::execute_fault;
use crate::lifecycle::settled;
use crate::lifecycle::vote_fault;
use crate::lifecycle::voted;
use crate::proposal::MAX_PROPOSAL_SIZE;
use crate::proposal::MultipleChoiceOptions;
use crate::proposal::MultipleChoiceProposal;
use crate::proposal::OptionView;
use crate::proposal::ProposalView;
use crate::proposal::checked_options;
use crate::proposal::options_fault;
use crate::proposal::winner;
use crate::reply::FAILED_PROPOSAL_EXECUTION_MASK;
use crate::reply::mask_proposal_execution_proposal_id;
use crate::reply::tagged;
use crate::response::Event;
use crate::response::EventView;
use crate::response::Response;
use crate::response::ResponseView;
use crate::response::SubMsgView;
use crate::response::deposit_requests;
use crate::response::proposal_hook_requests;
use crate::response::vote_hook_requests;
use crate::state::Config;
use crate::state::ConfigView;
use crate::state::Env;
use crate::state::MessageInfo;
use crate::state::State;
use crate::state::StateView;
use crate::status::Status;
use crate::voting::MultipleChoiceVote;
use crate::voting::MultipleChoiceVotes;
use vstd::prelude::*;

verus! {

/// A tally of `n` options without votes.
pub open spec fn zero_tally(n: nat) -> Seq<u128> {
    Seq::new(n, |i: int| 0u128)
}

/// The end of an optional duration, counted from `block`.
pub open spec fn optional_end(d: Option<Duration>, block: BlockInfo) -> Option<
    crate::expiration::Expiration,
> {
    match d {
        Some(d) => Some(d.end_after(block)),
        None => None,
    }
}

/// The proposal that `sender` makes at `block` under the configuration
/// `config`. It takes the voting rules and the deposit policy from the
/// configuration as it is then, starts without votes, and has the status
/// that follows from that at once.
pub open spec fn drafted(
    config: ConfigView,
    block: BlockInfo,
    sender: Seq<char>,
    title: Seq<char>,
    description: Seq<char>,
    options: Seq<OptionView>,
    total_power: u128,
) -> ProposalView {
    ProposalView {
        title,
        description,
        proposer: sender,
        start_height: block.height,
        min_voting_period: optional_end(config.min_voting_period, block),
        expiration: config.max_voting_period.end_after(block),
        choices: checked_options(options),
        status: Status::Open,
        voting_strategy: config.voting_strategy,
        total_power,
        votes: zero_tally(options.len() + 1),
        allow_revoting: config.allow_revoting,
        deposit_info: config.deposit_info,
        created: block.time,
        last_updated: block.time,
    }.updated(block)
}

/// Why no proposal can be drafted, if none can: the choices are at fault,
/// or a voting period ends beyond what can be represented.
pub open spec fn draft_fault(config: ConfigView, block: BlockInfo, options: Seq<OptionView>) -> Option<
    ContractError,
> {
    if options_fault(options) is Some {
        options_fault(options)
    } else if !config.max_voting_period.fits_after(block) || (config.min_voting_period matches Some(
        min,
    ) && !min.fits_after(block)) {
        Some(ContractError::Overflow {})
    } else {
        None
    }
}

/// Drafts the proposal that `sender` would make at `block`. Nothing is
/// stored.
pub fn draft_proposal(
    config: &Config,
    block: &BlockInfo,
    sender: &Addr,
    title: String,
    description: String,
    options: MultipleChoiceOptions,
    total_power: u128,
) -> (r: Result<MultipleChoiceProposal, ContractError>)
    ensures
        match draft_fault(config@, *block, options@) {
            Some(e) => r is Err && r->Err_0 == e,
            None => r is Ok && r->Ok_0.wf() && r->Ok_0@ == drafted(
                config@,
                *block,
                sender@,
                title@,
                description@,
                options@,
                total_power,
            ),
        },
{
    let ghost submitted = options@;
    let checked = match options.into_checked() {
        Ok(c) => c,
        Err(e) => {
            return Err(e);
        },
    };
    let expiration = match config.max_voting_period.checked_after(block) {
        Some(e) => e,
        None => {
            return Err(ContractError::Overflow {});
        },
    };
    let min_voting_period = match config.min_voting_period {
        Some(min) => match min.checked_after(block) {
            Some(e) => Some(e),
            None => {
                return Err(ContractError::Overflow {});
            },
        },
        None => None,
    };
    let votes = MultipleChoiceVotes::zero(checked.options.len());
    let mut proposal = MultipleChoiceProposal {
        title,
        description,
        proposer: sender.clone(),
        start_height: block.height,
        min_voting_period,
        expiration,
        voting_strategy: config.voting_strategy,
        total_power,
        status: Status::Open,
        votes,
        allow_revoting: config.allow_revoting,
        deposit_info: crate::deposit::clone_deposit(&config.deposit_info),
        choices: checked.options,
        created: block.time,
        last_updated: block.time,
    };
    proof {
        crate::proposal::lemma_checked_options_valid(submitted);
        assert(proposal@.votes =~= zero_tally(submitted.len() + 1));
    }
    proposal.update_status(block);
    Ok(proposal)
}

/// Why no proposal is made, if none is. The reasons are tried in this
/// order: the DAO is not active, which it is unless its voting module says
/// so; only members may propose and the sender has no voting power; no
/// proposal can be drafted; the proposals cannot be numbered any further;
/// the encoded proposal is too large.
pub open spec fn propose_refusal(
    s: StateView,
    block: BlockInfo,
    options: Seq<OptionView>,
    dao_active: Option<bool>,
    sender_power: u128,
    proposal_size: u64,
) -> Option<ContractError> {
    if dao_active == Some(false) {
        Some(ContractError::InactiveDao {})
    } else if !s.config.open_proposal_submission && sender_power == 0 {
        Some(ContractError::MustHaveVotingPower {})
    } else if draft_fault(s.config, block, options) is Some {
        draft_fault(s.config, block, options)
    } else if s.proposals.len() >= u64::MAX {
        Some(ContractError::Overflow {})
    } else if proposal_size > MAX_PROPOSAL_SIZE {
        Some(ContractError::ProposalTooLarge { size: proposal_size, max: MAX_PROPOSAL_SIZE })
    } else {
        None
    }
}

/// The module's data once `p` is stored as the next proposal, without
/// ballots.
pub open spec fn state_with_new(s: StateView, p: ProposalView) -> StateView {
    StateView {
        proposals: s.proposals.push(p),
        ballots: s.ballots.push(Seq::<VoteInfoView>::empty()),
        ..s
    }
}

/// The answer to a proposal that is made: the deposit is taken, and the
/// proposal hook subscribers are told of the proposal, which has the next
/// id.
pub open spec fn propose_response(
    s: StateView,
    contract: Seq<char>,
    sender: Seq<char>,
    p: ProposalView,
) -> ResponseView {
    let id = (s.proposals.len() + 1) as u64;
    ResponseView {
        messages: deposit_requests(deposit_msgs(s.config.deposit_info, contract, sender))
            + proposal_hook_requests(
            proposal_dispatches(
                s.proposal_hooks,
                ProposalHookMsgView::NewProposal { id, proposer: sender },
            ),
        ),
        event: EventView::Propose { sender, proposal_id: id, status: p.status },
    }
}

/// What an attempt to propose comes to: it is refused and nothing changes,
/// or the drafted proposal is stored under the next id and the answer is
/// that of `propose_response`.
pub open spec fn propose_outcome(
    pre: StateView,
    post: StateView,
    r: Result<Response, ContractError>,
    block: BlockInfo,
    contract: Seq<char>,
    sender: Seq<char>,
    title: Seq<char>,
    description: Seq<char>,
    options: Seq<OptionView>,
    dao_active: Option<bool>,
    sender_power: u128,
    total_power: u128,
    proposal_size: u64,
) -> bool {
    match propose_refusal(pre, block, options, dao_active, sender_power, proposal_size) {
        Some(e) => r is Err && r->Err_0 == e && post == pre,
        None => {
            let p = drafted(pre.config, block, sender, title, description, options, total_power);
            r is Ok && r->Ok_0@ == propose_response(pre, contract, sender, p) && post
                == state_with_new(pre, p)
        },
    }
}

/// Storing a drafted proposal leaves the module's data well formed.
pub proof fn lemma_propose_keeps_wf(
    s: StateView,
    block: BlockInfo,
    sender: Seq<char>,
    title: Seq<char>,
    description: Seq<char>,
    options: Seq<OptionView>,
    total_power: u128,
)
    requires
        s.wf(),
        options_fault(options) is None,
    ensures
        state_with_new(
            s,
            drafted(s.config, block, sender, title, description, options, total_power),
        ).wf(),
{
    let p = drafted(s.config, block, sender, title, description, options, total_power);
    let s2 = state_with_new(s, p);
    crate::proposal::lemma_checked_options_valid(options);
    crate::model::lemma_sum_zeros(p.votes);
    let none = Seq::<VoteInfoView>::empty();
    assert(crate::state::consistent(p, none));
    assert forall|i: int| 0 <= i < s2.proposals.len() implies crate::state::consistent(
        #[trigger] s2.proposals[i],
        s2.ballots[i],
    ) by {
        if i < s.proposals.len() {
            assert(crate::state::consistent(s.proposals[i], s.ballots[i]));
        }
    }
}

/// Makes a proposal for `sender`. The host has asked the DAO's voting
/// module whether the DAO is active (`dao_active`; `None` where the voting
/// module has no answer to that), and has found the voting power of the sender and of the whole
/// DAO at the present height (`sender_power`, `total_power`), and the size
/// in bytes of the drafted proposal as it encodes it (`proposal_size`).
pub fn execute_propose(
    state: &mut State,
    env: &Env,
    sender: Addr,
    title: String,
    description: String,
    options: MultipleChoiceOptions,
    dao_active: Option<bool>,
    sender_power: u128,
    total_power: u128,
    proposal_size: u64,
) -> (r: Result<Response, ContractError>)
    requires
        old(state).wf(),
    ensures
        final(state).wf(),
        propose_outcome(
            old(state)@,
            final(state)@,
            r,
            env.block,
            env.contract.address@,
            sender@,
            title@,
            description@,
            options@,
            dao_active,
            sender_power,
            total_power,
            proposal_size,
        ),
{
    match dao_active {
        Some(active) => {
            if !active {
                return Err(ContractError::InactiveDao {});
            }
        },
        None => {},
    }
    if !state.config.open_proposal_submission && sender_power == 0 {
        return Err(ContractError::MustHaveVotingPower {});
    }
    let ghost submitted = options@;
    let ghost heading = title@;
    let ghost text = description@;
    let proposal = match draft_proposal(
        &state.config,
        &env.block,
        &sender,
        title,
        description,
        options,
        total_power,
    ) {
        Ok(p) => p,
        Err(e) => {
            return Err(e);
        },
    };
    if state.proposals.len() as u64 >= u64::MAX {
        return Err(ContractError::Overflow {});
    }
    let id = state.proposals.len() as u64 + 1;
    if proposal_size > MAX_PROPOSAL_SIZE {
        return Err(
            ContractError::ProposalTooLarge { size: proposal_size, max: MAX_PROPOSAL_SIZE },
        );
    }
    let status = proposal.status;
    let fresh = Ballots::new();
    proof {
        lemma_propose_keeps_wf(
            state@,
            env.block,
            sender@,
            heading,
            text,
            submitted,
            total_power,
        );
        crate::model::lemma_views_push(state.proposals@, proposal);
        crate::model::lemma_views_push(state.ballots@, fresh);
    }
    state.proposals.push(proposal);
    state.ballots.push(fresh);
    let deposit_msg = get_deposit_msg(&state.config.deposit_info, &env.contract.address, &sender);
    let hooks = new_proposal_hooks(&state.proposal_hooks, id, &sender);
    let mut response = Response::new(Event::Propose { sender, proposal_id: id, status });
    response.add_deposit_messages(&deposit_msg);
    response.add_proposal_hooks(&hooks);
    proof {
        let p = drafted(
            old(state)@.config,
            env.block,
            sender@,
            heading,
            text,
            submitted,
            total_power,
        );
        assert(state@.proposals =~= state_with_new(old(state)@, p).proposals);
        assert(state@.ballots =~= state_with_new(old(state)@, p).ballots);
        assert(response@.messages =~= propose_response(
            old(state)@,
            env.contract.address@,
            sender@,
            p,
        ).messages);
    }
    Ok(response)
}

/// Why the vote of `sender` on the proposal `id` is not taken, if it is
/// not: there is no such proposal, or the proposal does not take the vote.
pub open spec fn vote_refusal(
    s: StateView,
    block: BlockInfo,
    sender: Seq<char>,
    id: u64,
    vote: MultipleChoiceVote,
    power: u128,
) -> Option<ContractError> {
    if !s.has_proposal(id) {
        Some(ContractError::NoSuchProposal { id })
    } else {
        vote_fault(s.proposal(id), id, block, vote, power, ballot_of(s.ballots_on(id), sender))
    }
}

/// The module's data after a vote that is taken.
pub open spec fn state_after_vote(
    s: StateView,
    block: BlockInfo,
    sender: Seq<char>,
    id: u64,
    vote: MultipleChoiceVote,
    power: u128,
) -> StateView {
    s.with_proposal(
        id,
        voted(s.proposal(id), block, vote, power, ballot_of(s.ballots_on(id), sender)),
        recorded(s.ballots_on(id), VoteInfoView { voter: sender, vote, power }),
    )
}

/// The answer to a vote that is taken: the proposal hook subscribers are
/// told of a change of status, if there is one; the vote hook subscribers
/// are told of the vote.
pub open spec fn vote_response(
    s: StateView,
    block: BlockInfo,
    sender: Seq<char>,
    id: u64,
    vote: MultipleChoiceVote,
    power: u128,
) -> ResponseView {
    let status = state_after_vote(s, block, sender, id, vote, power).proposal(id).status;
    ResponseView {
        messages: proposal_hook_requests(
            status_changed_dispatches(s.proposal_hooks, id, s.proposal(id).status, status),
        ) + vote_hook_requests(
            vote_dispatches(
                s.vote_hooks,
                VoteHookMsgView::NewVote { proposal_id: id, voter: sender, vote },
            ),
        ),
        event: EventView::Vote { sender, proposal_id: id, position: vote, status },
    }
}

/// What a vote comes to: it is refused and nothing changes, or it is taken,
/// the data is brought up to date and the answer is that of
/// `vote_response`.
pub open spec fn vote_outcome(
    pre: StateView,
    post: StateView,
    r: Result<Response, ContractError>,
    block: BlockInfo,
    sender: Seq<char>,
    id: u64,
    vote: MultipleChoiceVote,
    power: u128,
) -> bool {
    match vote_refusal(pre, block, sender, id, vote, power) {
        Some(e) => r is Err && r->Err_0 == e && post == pre,
        None => r is Ok && r->Ok_0@ == vote_response(pre, block, sender, id, vote, power) && post
            == state_after_vote(pre, block, sender, id, vote, power),
    }
}

/// A vote that is taken leaves the module's data well formed.
pub proof fn lemma_vote_keeps_wf(
    s: StateView,
    block: BlockInfo,
    sender: Seq<char>,
    id: u64,
    vote: MultipleChoiceVote,
    power: u128,
)
    requires
        s.wf(),
        vote_refusal(s, block, sender, id, vote, power) is None,
    ensures
        state_after_vote(s, block, sender, id, vote, power).wf(),
{
    let s2 = state_after_vote(s, block, sender, id, vote, power);
    let p = s.proposal(id);
    let b = s.ballots_on(id);
    let info = VoteInfoView { voter: sender, vote, power };
    assert(crate::state::consistent(s.proposals[id - 1], s.ballots[id - 1]));
    lemma_recorded(b, info);
    lemma_ballot_is_counted(p.votes, b, sender);
    lemma_vote_keeps_tally(p.votes, b, info);
    crate::lifecycle::lemma_tally_after_vote_sum(p.votes, vote, power, ballot_of(b, sender));
    assert forall|i: int| 0 <= i < s2.proposals.len() implies crate::state::consistent(
        #[trigger] s2.proposals[i],
        s2.ballots[i],
    ) by {
        if i != id - 1 {
            assert(crate::state::consistent(s.proposals[i], s.ballots[i]));
        }
    }
}

/// Takes the vote of `info.sender`, whose voting power at the height at
/// which the proposal was made is `vote_power`, on the proposal
/// `proposal_id`.
pub fn execute_vote(
    state: &mut State,
    env: &Env,
    info: &MessageInfo,
    proposal_id: u64,
    vote: MultipleChoiceVote,
    vote_power: u128,
) -> (r: Result<Response, ContractError>)
    requires
        old(state).wf(),
    ensures
        final(state).wf(),
        vote_outcome(
            old(state)@,
            final(state)@,
            r,
            env.block,
            info.sender@,
            proposal_id,
            vote,
            vote_power,
        ),
{
    let i = match state.index_of(proposal_id) {
        Some(i) => i,
        None => {
            return Err(ContractError::NoSuchProposal { id: proposal_id });
        },
    };
    let previous = state.ballots[i].get(&info.sender);
    let old_status = state.proposals[i].status;
    proof {
        assert(crate::state::consistent(state@.proposals[i as int], state@.ballots[i as int]));
        lemma_ballot_is_counted(state@.proposals[i as int].votes, state@.ballots[i as int], info.sender@);
    }
    let cast = state.proposals[i].cast_vote(proposal_id, &env.block, vote, vote_power, previous);
    match cast {
        Err(e) => {
            assert(state@.proposals =~= old(state)@.proposals);
            return Err(e);
        },
        Ok(_) => {},
    }
    state.ballots[i].record(VoteInfo { voter: info.sender.clone(), vote, power: vote_power });
    let new_status = state.proposals[i].status;
    proof {
        let expected = state_after_vote(
            old(state)@,
            env.block,
            info.sender@,
            proposal_id,
            vote,
            vote_power,
        );
        assert(state@.proposals =~= expected.proposals);
        assert(state@.ballots =~= expected.ballots);
        lemma_vote_keeps_wf(old(state)@, env.block, info.sender@, proposal_id, vote, vote_power);
    }
    let change_hooks = proposal_status_changed_hooks(
        &state.proposal_hooks,
        proposal_id,
        old_status,
        new_status,
    );
    let vote_hooks = new_vote_hooks(&state.vote_hooks, proposal_id, &info.sender, vote);
    let mut response = Response::new(
        Event::Vote {
            sender: info.sender.clone(),
            proposal_id,
            position: vote,
            status: new_status,
        },
    );
    response.add_proposal_hooks(&change_hooks);
    response.add_vote_hooks(&vote_hooks);
    assert(response@.messages =~= vote_response(
        old(state)@,
        env.block,
        info.sender@,
        proposal_id,
        vote,
        vote_power,
    ).messages);
    Ok(response)
}

/// Why the proposal `id` is not executed, if it is not. The reasons are
/// tried in this order: only members may execute and the sender has no
/// voting power; there is no such proposal; the proposal cannot be
/// executed.
pub open spec fn execute_refusal(s: StateView, block: BlockInfo, id: u64, sender_power: u128) -> Option<
    ContractError,
> {
    if s.config.only_members_execute && sender_power == 0 {
        Some(ContractError::Unauthorized {})
    } else if !s.has_proposal(id) {
        Some(ContractError::NoSuchProposal { id })
    } else {
        execute_fault(s.proposal(id), block)
    }
}

/// The module's data once the proposal `id` has the status `status`,
/// written at `block`.
pub open spec fn state_with_status(s: StateView, block: BlockInfo, id: u64, status: Status) -> StateView {
    s.with_proposal(id, settled(s.proposal(id), status, block), s.ballots_on(id))
}

/// The request that hands the messages of the winning choice to the DAO:
/// none where the choice has no messages. Where the module is set to close
/// proposals whose execution fails, the request carries the reply
/// identifier of the proposal.
pub open spec fn winning_requests(config: ConfigView, p: ProposalView, id: u64) -> Seq<SubMsgView> {
    match p.choices[winner(p.votes)].msgs {
        Some(msgs) => if msgs.len() > 0 {
            seq![
                SubMsgView::ExecuteProposalHook {
                    dao: config.dao,
                    msgs,
                    reply_id: if config.close_proposal_on_execution_failure {
                        Some(tagged(FAILED_PROPOSAL_EXECUTION_MASK, id))
                    } else {
                        None
                    },
                },
            ]
        } else {
            Seq::empty()
        },
        None => Seq::empty(),
    }
}

/// The answer to an execution: the winning messages go to the DAO, the
/// deposit is settled as for a passed proposal, and the proposal hook
/// subscribers are told that the proposal went from passed to executed.
pub open spec fn execute_response(s: StateView, sender: Seq<char>, id: u64) -> ResponseView {
    let p = s.proposal(id);
    ResponseView {
        messages: winning_requests(s.config, p, id) + deposit_requests(
            settlement_msgs(p.deposit_info, true, p.proposer, s.config.dao),
        ) + proposal_hook_requests(
            status_changed_dispatches(s.proposal_hooks, id, Status::Passed, Status::Executed),
        ),
        event: EventView::Execute { sender, proposal_id: id, dao: s.config.dao },
    }
}

/// What an attempt to execute comes to: it is refused and nothing changes,
/// or the proposal is marked as executed and the answer is that of
/// `execute_response`.
pub open spec fn execute_outcome(
    pre: StateView,
    post: StateView,
    r: Result<Response, ContractError>,
    block: BlockInfo,
    sender: Seq<char>,
    id: u64,
    sender_power: u128,
) -> bool {
    match execute_refusal(pre, block, id, sender_power) {
        Some(e) => r is Err && r->Err_0 == e && post == pre,
        None => r is Ok && r->Ok_0@ == execute_response(pre, sender, id) && post
            == state_with_status(pre, block, id, Status::Executed),
    }
}

/// Writing a status other than passed or executed, or writing `Executed`
/// where one option leads alone, leaves the module's data well formed.
pub proof fn lemma_status_keeps_wf(s: StateView, block: BlockInfo, id: u64, status: Status)
    requires
        s.wf(),
        s.has_proposal(id),
        status == Status::Passed || status == Status::Executed ==> crate::proposal::has_winner(
            s.proposal(id).votes,
        ),
    ensures
        state_with_status(s, block, id, status).wf(),
{
    let s2 = state_with_status(s, block, id, status);
    assert(crate::state::consistent(s.proposals[id - 1], s.ballots[id - 1]));
    assert forall|i: int| 0 <= i < s2.proposals.len() implies crate::state::consistent(
        #[trigger] s2.proposals[i],
        s2.ballots[i],
    ) by {
        if i != id - 1 {
            assert(crate::state::consistent(s.proposals[i], s.ballots[i]));
        }
    }
}

/// Executes the proposal `proposal_id` for `info.sender`, whose voting
/// power at the present height is `sender_power`.
pub fn execute_execute(
    state: &mut State,
    env: &Env,
    info: &MessageInfo,
    proposal_id: u64,
    sender_power: u128,
) -> (r: Result<Response, ContractError>)
    requires
        old(state).wf(),
    ensures
        final(state).wf(),
        execute_outcome(
            old(state)@,
            final(state)@,
            r,
            env.block,
            info.sender@,
            proposal_id,
            sender_power,
        ),
{
    if state.config.only_members_execute && sender_power == 0 {
        return Err(ContractError::Unauthorized {});
    }
    let i = match state.index_of(proposal_id) {
        Some(i) => i,
        None => {
            return Err(ContractError::NoSuchProposal { id: proposal_id });
        },
    };
    proof {
        assert(crate::state::consistent(state@.proposals[i as int], state@.ballots[i as int]));
    }
    let executed = state.proposals[i].execute(&env.block);
    let leader = match executed {
        Ok(w) => w,
        Err(e) => {
            assert(state@.proposals =~= old(state)@.proposals);
            return Err(e);
        },
    };
    proof {
        let expected = state_with_status(old(state)@, env.block, proposal_id, Status::Executed);
        assert(state@.proposals =~= expected.proposals);
        assert(state@.ballots =~= expected.ballots);
        lemma_status_keeps_wf(old(state)@, env.block, proposal_id, Status::Executed);
    }
    let mut response = Response::new(
        Event::Execute {
            sender: info.sender.clone(),
            proposal_id,
            dao: state.config.dao.clone(),
        },
    );
    let prop = &state.proposals[i];
    assert(prop@.choices[leader as int] == prop.choices@[leader as int]@);
    match &prop.choices[leader].msgs {
        Some(msgs) => {
            if msgs.len() > 0 {
                let reply_id = if state.config.close_proposal_on_execution_failure {
                    Some(mask_proposal_execution_proposal_id(proposal_id))
                } else {
                    None
                };
                response.add_execute(&state.config.dao, msgs, reply_id);
            }
        },
        None => {},
    }
    let refund = get_settlement_msg(&prop.deposit_info, true, &prop.proposer, &state.config.dao);
    let hooks = proposal_status_changed_hooks(
        &state.proposal_hooks,
        proposal_id,
        Status::Passed,
        Status::Executed,
    );
    response.add_deposit_messages(&refund);
    response.add_proposal_hooks(&hooks);
    assert(response@.messages =~= execute_response(
        old(state)@,
        info.sender@,
        proposal_id,
    ).messages);
    Ok(response)
}

/// Why the proposal `id` is not closed, if it is not: there is no such
/// proposal, or it is not rejected.
pub open spec fn close_refusal(s: StateView, block: BlockInfo, id: u64) -> Option<ContractError> {
    if !s.has_proposal(id) {
        Some(ContractError::NoSuchProposal { id })
    } else {
        close_fault(s.proposal(id), block)
    }
}

/// The answer to a closing: the proposal hook subscribers are told that
/// the proposal went from rejected to closed, and the deposit is settled
/// as for a proposal that did not pass.
pub open spec fn close_response(s: StateView, sender: Seq<char>, id: u64) -> ResponseView {
    let p = s.proposal(id);
    ResponseView {
        messages: proposal_hook_requests(
            status_changed_dispatches(s.proposal_hooks, id, Status::Rejected, Status::Closed),
        ) + deposit_requests(settlement_msgs(p.deposit_info, false, p.proposer, s.config.dao)),
        event: EventView::Close { sender, proposal_id: id },
    }
}

/// What an attempt to close comes to: it is refused and nothing changes,
/// or the proposal is marked as closed and the answer is that of
/// `close_response`.
pub open spec fn close_outcome(
    pre: StateView,
    post: StateView,
    r: Result<Response, ContractError>,
    block: BlockInfo,
    sender: Seq<char>,
    id: u64,
) -> bool {
    match close_refusal(pre, block, id) {
        Some(e) => r is Err && r->Err_0 == e && post == pre,
        None => r is Ok && r->Ok_0@ == close_response(pre, sender, id) && post
            == state_with_status(pre, block, id, Status::Closed),
    }
}

/// Closes the rejected proposal `proposal_id`.
pub fn execute_close(state: &mut State, env: &Env, info: &MessageInfo, proposal_id: u64) -> (r:
    Result<Response, ContractError>)
    requires
        old(state).wf(),
    ensures
        final(state).wf(),
        close_outcome(old(state)@, final(state)@, r, env.block, info.sender@, proposal_id),
{
    let i = match state.index_of(proposal_id) {
        Some(i) => i,
        None => {
            return Err(ContractError::NoSuchProposal { id: proposal_id });
        },
    };
    proof {
        assert(crate::state::consistent(state@.proposals[i as int], state@.ballots[i as int]));
    }
    match state.proposals[i].close(&env.block) {
        Ok(_) => {},
        Err(e) => {
            assert(state@.proposals =~= old(state)@.proposals);
            return Err(e);
        },
    }
    proof {
        let expected = state_with_status(old(state)@, env.block, proposal_id, Status::Closed);
        assert(state@.proposals =~= expected.proposals);
        assert(state@.ballots =~= expected.ballots);
        lemma_status_keeps_wf(old(state)@, env.block, proposal_id, Status::Closed);
    }
    let prop = &state.proposals[i];
    let refund = get_settlement_msg(&prop.deposit_info, false, &prop.proposer, &state.config.dao);
    let hooks = proposal_status_changed_hooks(
        &state.proposal_hooks,
        proposal_id,
        Status::Rejected,
        Status::Closed,
    );
    let mut response = Response::new(Event::Close { sender: info.sender.clone(), proposal_id });
    response.add_proposal_hooks(&hooks);
    response.add_deposit_messages(&refund);
    assert(response@.messages =~= close_response(old(state)@, info.sender@, proposal_id).messages);
    Ok(response)
}

} // verus!
