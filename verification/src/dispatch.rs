//! The two entries through which the host changes the module's data: a
//! message to execute, and the report that a request failed.

use crate::addr::Addr;
use crate::admin::ProposedConfig;
use crate::admin::execute_add_proposal_hook;
use crate::admin::execute_add_vote_hook;
use crate::admin::execute_remove_proposal_hook;
use crate::admin::execute_remove_vote_hook;
use crate::admin::execute_update_config;
use crate::admin::proposal_hook_outcome;
use crate::admin::update_config_outcome;
use crate::admin::vote_hook_outcome;
use crate::contract::close_outcome;
use crate::contract::execute_close;
use crate::contract::execute_execute;
use crate::contract::execute_outcome;
use crate::contract::execute_propose;
use crate::contract::execute_vote;
use crate::contract::lemma_status_keeps_wf;
use crate::contract::propose_outcome;
use crate::contract::state_with_status;
use crate::contract::vote_outcome;
use crate::deposit::CheckedDenom;
use crate::error::ContractError;
use crate::expiration::BlockInfo;
use crate::hooks::HookError;
use crate::msg::ExecuteMsg;
use crate::msg::Reply;
use crate::reply::TaggedReplyId;
use crate::reply::decoded;
use crate::response::Event;
use crate::response::EventView;
use crate::response::Response;
use crate::response::ResponseView;
use crate::state::Env;
use crate::state::MessageInfo;
use crate::state::State;
use crate::state::StateView;
use crate::status::Status;
use vstd::prelude::*;

verus! {

/// What the host found out for the message at hand. Only what the message
/// asks for is read.
#[derive(Debug, PartialEq, Eq)]
pub struct Host {
    /// Whether the DAO's voting module reports the DAO to be active, or
    /// `None` where the voting module has no answer to that, in which case
    /// the DAO counts as active.
    pub dao_active: Option<bool>,
    /// The voting power of the sender: for a vote, at the height at which
    /// the proposal was made; otherwise at the present height.
    pub sender_power: u128,
    /// The voting power of the whole DAO at the present height.
    pub total_power: u128,
    /// The size in bytes of the proposal that the message would make, as
    /// the host encodes it.
    pub proposal_size: u64,
    /// The address that the message names, as the host validated it, or
    /// `None` where the host did not accept it.
    pub address: Option<Addr>,
    /// The denomination of the deposit that the message names, as the host
    /// confirmed it, or `None` where there is none such.
    pub deposit_denom: Option<CheckedDenom>,
}

/// What a message comes to, by its kind.
pub open spec fn message_outcome(
    pre: StateView,
    post: StateView,
    r: Result<Response, ContractError>,
    env: Env,
    sender: Addr,
    msg: ExecuteMsg,
    host: Host,
) -> bool {
    match msg {
        ExecuteMsg::Propose { title, description, choices } => propose_outcome(
            pre,
            post,
            r,
            env.block,
            env.contract.address@,
            sender@,
            title@,
            description@,
            choices@,
            host.dao_active,
            host.sender_power,
            host.total_power,
            host.proposal_size,
        ),
        ExecuteMsg::Vote { proposal_id, vote } => vote_outcome(
            pre,
            post,
            r,
            env.block,
            sender@,
            proposal_id,
            vote,
            host.sender_power,
        ),
        ExecuteMsg::Execute { proposal_id } => execute_outcome(
            pre,
            post,
            r,
            env.block,
            sender@,
            proposal_id,
            host.sender_power,
        ),
        ExecuteMsg::Close { proposal_id } => close_outcome(
            pre,
            post,
            r,
            env.block,
            sender@,
            proposal_id,
        ),
        ExecuteMsg::UpdateConfig {
            voting_strategy,
            min_voting_period,
            max_voting_period,
            only_members_execute,
            allow_revoting,
            dao,
            deposit_info,
            close_proposal_on_execution_failure,
            open_proposal_submission,
        } => update_config_outcome(
            pre,
            post,
            r,
            sender@,
            ProposedConfig {
                voting_strategy,
                min_voting_period,
                max_voting_period,
                only_members_execute,
                allow_revoting,
                dao: host.address,
                deposit_info,
                deposit_denom: host.deposit_denom,
                close_proposal_on_execution_failure,
                open_proposal_submission,
            },
        ),
        ExecuteMsg::AddProposalHook { address } => proposal_hook_outcome(
            pre,
            post,
            r,
            sender@,
            host.address,
            true,
        ),
        ExecuteMsg::RemoveProposalHook { address } => proposal_hook_outcome(
            pre,
            post,
            r,
            sender@,
            host.address,
            false,
        ),
        ExecuteMsg::AddVoteHook { address } => vote_hook_outcome(
            pre,
            post,
            r,
            sender@,
            host.address,
            true,
        ),
        ExecuteMsg::RemoveVoteHook { address } => vote_hook_outcome(
            pre,
            post,
            r,
            sender@,
            host.address,
            false,
        ),
    }
}

/// Carries out a message of `info.sender`.
pub fn execute(state: &mut State, env: &Env, info: MessageInfo, msg: ExecuteMsg, host: Host) -> (r:
    Result<Response, ContractError>)
    requires
        old(state).wf(),
    ensures
        final(state).wf(),
        message_outcome(old(state)@, final(state)@, r, *env, info.sender, msg, host),
{
    match msg {
        ExecuteMsg::Propose { title, description, choices } => execute_propose(
            state,
            env,
            info.sender,
            title,
            description,
            choices,
            host.dao_active,
            host.sender_power,
            host.total_power,
            host.proposal_size,
        ),
        ExecuteMsg::Vote { proposal_id, vote } => execute_vote(
            state,
            env,
            &info,
            proposal_id,
            vote,
            host.sender_power,
        ),
        ExecuteMsg::Execute { proposal_id } => execute_execute(
            state,
            env,
            &info,
            proposal_id,
            host.sender_power,
        ),
        ExecuteMsg::Close { proposal_id } => execute_close(state, env, &info, proposal_id),
        ExecuteMsg::UpdateConfig {
            voting_strategy,
            min_voting_period,
            max_voting_period,
            only_members_execute,
            allow_revoting,
            dao,
            deposit_info,
            close_proposal_on_execution_failure,
            open_proposal_submission,
        } => execute_update_config(
            state,
            &info,
            ProposedConfig {
                voting_strategy,
                min_voting_period,
                max_voting_period,
                only_members_execute,
                allow_revoting,
                dao: host.address,
                deposit_info,
                deposit_denom: host.deposit_denom,
                close_proposal_on_execution_failure,
                open_proposal_submission,
            },
        ),
        ExecuteMsg::AddProposalHook { address } => execute_add_proposal_hook(
            state,
            &info,
            host.address,
        ),
        ExecuteMsg::RemoveProposalHook { address } => execute_remove_proposal_hook(
            state,
            &info,
            host.address,
        ),
        ExecuteMsg::AddVoteHook { address } => execute_add_vote_hook(state, &info, host.address),
        ExecuteMsg::RemoveVoteHook { address } => execute_remove_vote_hook(
            state,
            &info,
            host.address,
        ),
    }
}

/// What the report of a failure comes to. An identifier with an unknown
/// tag is refused. The failed execution of a proposal marks that proposal
/// as failed, whatever its status was; the proposal must exist. The failed
/// delivery to a subscriber removes the subscriber at the index that the
/// identifier carries, and the others move up; there must be a subscriber
/// at that index. Nothing else changes.
pub open spec fn reply_outcome(
    pre: StateView,
    post: StateView,
    r: Result<Response, ContractError>,
    block: BlockInfo,
    id: u64,
) -> bool {
    match decoded(id) {
        Err(e) => r is Err && r->Err_0 == ContractError::TagError(e) && post == pre,
        Ok(TaggedReplyId::FailedProposalExecution(proposal_id)) => if !pre.has_proposal(
            proposal_id,
        ) {
            r is Err && r->Err_0 == (ContractError::NoSuchProposal { id: proposal_id }) && post
                == pre
        } else {
            r is Ok && r->Ok_0@ == (ResponseView {
                messages: Seq::empty(),
                event: EventView::ProposalExecutionFailed { proposal_id },
            }) && post == state_with_status(pre, block, proposal_id, Status::ExecutionFailed)
        },
        Ok(TaggedReplyId::FailedProposalHook(index)) => if index >= pre.proposal_hooks.len() {
            r is Err && r->Err_0 == ContractError::HookError(HookError::HookNotFound {}) && post
                == pre
        } else {
            r is Ok && r->Ok_0@ == (ResponseView {
                messages: Seq::empty(),
                event: EventView::RemovedProposalHook {
                    address: pre.proposal_hooks[index as int],
                    index,
                },
            }) && post == (StateView {
                proposal_hooks: pre.proposal_hooks.remove(index as int),
                ..pre
            })
        },
        Ok(TaggedReplyId::FailedVoteHook(index)) => if index >= pre.vote_hooks.len() {
            r is Err && r->Err_0 == ContractError::HookError(HookError::HookNotFound {}) && post
                == pre
        } else {
            r is Ok && r->Ok_0@ == (ResponseView {
                messages: Seq::empty(),
                event: EventView::RemovedVoteHook { address: pre.vote_hooks[index as int], index },
            }) && post == (StateView { vote_hooks: pre.vote_hooks.remove(index as int), ..pre })
        },
    }
}

/// Takes the report that a request has failed.
pub fn reply(state: &mut State, env: &Env, msg: Reply) -> (r: Result<Response, ContractError>)
    requires
        old(state).wf(),
    ensures
        final(state).wf(),
        reply_outcome(old(state)@, final(state)@, r, env.block, msg.id),
{
    let repl = match TaggedReplyId::new(msg.id) {
        Ok(t) => t,
        Err(e) => {
            return Err(ContractError::TagError(e));
        },
    };
    match repl {
        TaggedReplyId::FailedProposalExecution(proposal_id) => {
            let i = match state.index_of(proposal_id) {
                Some(i) => i,
                None => {
                    return Err(ContractError::NoSuchProposal { id: proposal_id });
                },
            };
            proof {
                assert(crate::state::consistent(
                    state@.proposals[i as int],
                    state@.ballots[i as int],
                ));
            }
            state.proposals[i].fail_execution(&env.block);
            proof {
                let expected = state_with_status(
                    old(state)@,
                    env.block,
                    proposal_id,
                    Status::ExecutionFailed,
                );
                assert(state@.proposals =~= expected.proposals);
                assert(state@.ballots =~= expected.ballots);
                lemma_status_keeps_wf(
                    old(state)@,
                    env.block,
                    proposal_id,
                    Status::ExecutionFailed,
                );
            }
            Ok(Response::new(Event::ProposalExecutionFailed { proposal_id }))
        },
        TaggedReplyId::FailedProposalHook(index) => {
            match state.proposal_hooks.remove_hook_by_index(index) {
                Ok(address) => Ok(Response::new(Event::RemovedProposalHook { address, index })),
                Err(e) => Err(ContractError::HookError(e)),
            }
        },
        TaggedReplyId::FailedVoteHook(index) => {
            match state.vote_hooks.remove_hook_by_index(index) {
                Ok(address) => Ok(Response::new(Event::RemovedVoteHook { address, index })),
                Err(e) => Err(ContractError::HookError(e)),
            }
        },
    }
}

} // verus!
