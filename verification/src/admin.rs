//! Setting the module up, replacing its settings, and the registration of
//! hook subscribers. All but the first are for the DAO alone.

use crate::addr::Addr;
use crate::deposit::CheckedDenom;
use crate::deposit::DepositError;
use crate::deposit::DepositView;
use crate::deposit::UncheckedDepositInfo;
use crate::error::ContractError;
use crate::expiration::Duration;
use crate::hooks::HookError;
use crate::hooks::Hooks;
use crate::msg::InstantiateMsg;
use crate::response::Event;
use crate::response::EventView;
use crate::response::Response;
use crate::response::ResponseView;
use crate::state::Config;
use crate::state::ConfigView;
use crate::state::MessageInfo;
use crate::state::State;
use crate::state::StateView;
use crate::threshold::ThresholdError;
use crate::threshold::quorum_is_valid;
use crate::voting::VotingStrategy;
use crate::voting::validate_voting_period;
use crate::voting::voting_period_fault;
use vstd::prelude::*;

verus! {

/// Settings as they are submitted, with what the host made of the address
/// of the DAO and of the denomination of the deposit: `dao` is the
/// validated address, or `None` where the host did not accept it;
/// `deposit_denom` is the confirmed denomination, or `None` where there is
/// none such.
#[derive(Debug, PartialEq, Eq)]
pub struct ProposedConfig {
    pub voting_strategy: VotingStrategy,
    pub min_voting_period: Option<Duration>,
    pub max_voting_period: Duration,
    pub only_members_execute: bool,
    pub allow_revoting: bool,
    pub dao: Option<Addr>,
    pub deposit_info: Option<UncheckedDepositInfo>,
    pub deposit_denom: Option<CheckedDenom>,
    pub close_proposal_on_execution_failure: bool,
    pub open_proposal_submission: bool,
}

/// The deposit policy that submitted settings come to, where they are
/// accepted.
pub open spec fn accepted_deposit(c: ProposedConfig) -> Option<DepositView> {
    match c.deposit_info {
        Some(info) => Some(
            DepositView {
                denom: c.deposit_denom->0@,
                amount: info.amount,
                refund_policy: info.refund_policy,
            },
        ),
        None => None,
    }
}

/// Why submitted settings are not accepted, if they are not. The reasons
/// are tried in this order: the quorum cannot be reached; the address of
/// the DAO is not valid; the deposit is zero, or its denomination unknown;
/// the voting periods do not agree.
pub open spec fn config_fault(c: ProposedConfig) -> Option<ContractError> {
    if !quorum_is_valid(c.voting_strategy.quorum()) {
        Some(ContractError::ThresholdError(ThresholdError::UnreachableThreshold {}))
    } else if c.dao is None {
        Some(ContractError::InvalidAddress {})
    } else if c.deposit_info is Some && c.deposit_info->0.amount == 0 {
        Some(ContractError::DepositError(DepositError::ZeroDeposit {}))
    } else if c.deposit_info is Some && c.deposit_denom is None {
        Some(ContractError::DepositError(DepositError::UnknownDenom {}))
    } else if voting_period_fault(c.min_voting_period, c.max_voting_period) is Some {
        Some(
            ContractError::VotingError(
                voting_period_fault(c.min_voting_period, c.max_voting_period)->0,
            ),
        )
    } else {
        None
    }
}

/// The settings that submitted settings come to, where they are accepted.
pub open spec fn accepted_config(c: ProposedConfig) -> ConfigView {
    ConfigView {
        voting_strategy: c.voting_strategy,
        min_voting_period: c.min_voting_period,
        max_voting_period: c.max_voting_period,
        only_members_execute: c.only_members_execute,
        allow_revoting: c.allow_revoting,
        dao: c.dao->0@,
        deposit_info: accepted_deposit(c),
        close_proposal_on_execution_failure: c.close_proposal_on_execution_failure,
        open_proposal_submission: c.open_proposal_submission,
    }
}

impl ProposedConfig {
    /// Validates submitted settings.
    pub fn into_checked(self) -> (r: Result<Config, ContractError>)
        ensures
            match config_fault(self) {
                Some(e) => r is Err && r->Err_0 == e,
                None => r is Ok && r->Ok_0@ == accepted_config(self) && r->Ok_0@.valid(),
            },
    {
        match self.voting_strategy.validate() {
            Ok(_) => {},
            Err(e) => {
                return Err(ContractError::ThresholdError(e));
            },
        }
        let dao = match self.dao {
            Some(dao) => dao,
            None => {
                return Err(ContractError::InvalidAddress {});
            },
        };
        let deposit_info = match self.deposit_info {
            Some(info) => match info.into_checked(self.deposit_denom) {
                Ok(d) => Some(d),
                Err(e) => {
                    return Err(ContractError::DepositError(e));
                },
            },
            None => None,
        };
        let (min_voting_period, max_voting_period) = match validate_voting_period(
            self.min_voting_period,
            self.max_voting_period,
        ) {
            Ok(periods) => periods,
            Err(e) => {
                return Err(ContractError::VotingError(e));
            },
        };
        Ok(
            Config {
                voting_strategy: self.voting_strategy,
                min_voting_period,
                max_voting_period,
                only_members_execute: self.only_members_execute,
                allow_revoting: self.allow_revoting,
                dao,
                deposit_info,
                close_proposal_on_execution_failure: self.close_proposal_on_execution_failure,
                open_proposal_submission: self.open_proposal_submission,
            },
        )
    }
}

/// The settings that an instantiation submits: those of the message, with
/// the sender as the DAO.
pub open spec fn instantiate_settings(
    sender: Addr,
    msg: InstantiateMsg,
    deposit_denom: Option<CheckedDenom>,
) -> ProposedConfig {
    ProposedConfig {
        voting_strategy: msg.voting_strategy,
        min_voting_period: msg.min_voting_period,
        max_voting_period: msg.max_voting_period,
        only_members_execute: msg.only_members_execute,
        allow_revoting: msg.allow_revoting,
        dao: Some(sender),
        deposit_info: msg.deposit_info,
        deposit_denom,
        close_proposal_on_execution_failure: msg.close_proposal_on_execution_failure,
        open_proposal_submission: msg.open_proposal_submission,
    }
}

/// The data of a module that has just been set up with the settings
/// `config`: no proposals, no subscribers.
pub open spec fn initial_state(config: ConfigView) -> StateView {
    StateView {
        config,
        proposals: Seq::empty(),
        ballots: Seq::empty(),
        proposal_hooks: Seq::empty(),
        vote_hooks: Seq::empty(),
    }
}

/// Sets the module up for the DAO `info.sender`. `deposit_denom` is what
/// the host made of the denomination of the deposit, if a deposit is asked
/// for.
pub fn instantiate(info: MessageInfo, msg: InstantiateMsg, deposit_denom: Option<CheckedDenom>) -> (r:
    Result<(State, Response), ContractError>)
    ensures
        match config_fault(instantiate_settings(info.sender, msg, deposit_denom)) {
            Some(e) => r is Err && r->Err_0 == e,
            None => r is Ok && r->Ok_0.0.wf() && r->Ok_0.0@ == initial_state(
                accepted_config(instantiate_settings(info.sender, msg, deposit_denom)),
            ) && r->Ok_0.1@ == (ResponseView {
                messages: Seq::empty(),
                event: EventView::Instantiate { dao: info.sender@ },
            }),
        },
{
    let dao = info.sender.clone();
    let settings = ProposedConfig {
        voting_strategy: msg.voting_strategy,
        min_voting_period: msg.min_voting_period,
        max_voting_period: msg.max_voting_period,
        only_members_execute: msg.only_members_execute,
        allow_revoting: msg.allow_revoting,
        dao: Some(info.sender),
        deposit_info: msg.deposit_info,
        deposit_denom,
        close_proposal_on_execution_failure: msg.close_proposal_on_execution_failure,
        open_proposal_submission: msg.open_proposal_submission,
    };
    let config = match settings.into_checked() {
        Ok(c) => c,
        Err(e) => {
            return Err(e);
        },
    };
    let state = State {
        config,
        proposals: Vec::new(),
        ballots: Vec::new(),
        proposal_hooks: Hooks::new(),
        vote_hooks: Hooks::new(),
    };
    assert(state@.proposals =~= Seq::empty());
    assert(state@.ballots =~= Seq::empty());
    Ok((state, Response::new(Event::Instantiate { dao })))
}

/// What an attempt of `sender` to replace the settings comes to: it is
/// refused, because the sender is not the DAO or the new settings are at
/// fault, and nothing changes; or the settings are replaced as a whole.
/// Proposals that exist keep the rules with which they were made.
pub open spec fn update_config_outcome(
    pre: StateView,
    post: StateView,
    r: Result<Response, ContractError>,
    sender: Seq<char>,
    settings: ProposedConfig,
) -> bool {
    if sender != pre.config.dao {
        r is Err && r->Err_0 == ContractError::Unauthorized {} && post == pre
    } else {
        match config_fault(settings) {
            Some(e) => r is Err && r->Err_0 == e && post == pre,
            None => r is Ok && r->Ok_0@ == (ResponseView {
                messages: Seq::empty(),
                event: EventView::UpdateConfig { sender },
            }) && post == (StateView { config: accepted_config(settings), ..pre }),
        }
    }
}

/// Replaces the settings of the module.
pub fn execute_update_config(state: &mut State, info: &MessageInfo, settings: ProposedConfig) -> (r:
    Result<Response, ContractError>)
    requires
        old(state).wf(),
    ensures
        final(state).wf(),
        update_config_outcome(old(state)@, final(state)@, r, info.sender@, settings),
{
    if !info.sender.same(&state.config.dao) {
        return Err(ContractError::Unauthorized {});
    }
    let config = match settings.into_checked() {
        Ok(c) => c,
        Err(e) => {
            return Err(e);
        },
    };
    state.config = config;
    Ok(Response::new(Event::UpdateConfig { sender: info.sender.clone() }))
}

/// Appends a subscriber to a registry.
pub fn add_hook(hooks: &mut Hooks, validated_address: Addr) -> (r: Result<(), ContractError>)
    requires
        old(hooks).wf(),
    ensures
        final(hooks).wf(),
        old(hooks)@.contains(validated_address@) ==> r == Err::<(), ContractError>(
            ContractError::HookError(HookError::HookAlreadyRegistered {}),
        ) && final(hooks)@ == old(hooks)@,
        !old(hooks)@.contains(validated_address@) ==> r == Ok::<(), ContractError>(()) && final(hooks)@ == old(hooks)@.push(validated_address@),
{
    match hooks.add_hook(validated_address) {
        Ok(_) => Ok(()),
        Err(e) => Err(ContractError::HookError(e)),
    }
}

/// Removes a subscriber from a registry.
pub fn remove_hook(hooks: &mut Hooks, validated_address: Addr) -> (r: Result<(), ContractError>)
    requires
        old(hooks).wf(),
    ensures
        final(hooks).wf(),
        !old(hooks)@.contains(validated_address@) ==> r == Err::<(), ContractError>(
            ContractError::HookError(HookError::HookNotFound {}),
        ) && final(hooks)@ == old(hooks)@,
        old(hooks)@.contains(validated_address@) ==> r == Ok::<(), ContractError>(()) && final(hooks)@ == old(hooks)@.remove(crate::hooks::position(old(hooks)@, validated_address@)),
{
    match hooks.remove_hook(&validated_address) {
        Ok(_) => Ok(()),
        Err(e) => Err(ContractError::HookError(e)),
    }
}

/// Why a change to a registry of subscribers is refused, if it is. The
/// reasons are tried in this order: the sender is not the DAO; the host
/// did not accept the address; the address is registered already, where it
/// is to be added, or is not registered, where it is to be removed.
pub open spec fn hook_refusal(
    dao: Seq<char>,
    hooks: Seq<Seq<char>>,
    sender: Seq<char>,
    address: Option<Addr>,
    adding: bool,
) -> Option<ContractError> {
    if sender != dao {
        Some(ContractError::Unauthorized {})
    } else if address is None {
        Some(ContractError::InvalidAddress {})
    } else if adding && hooks.contains(address->0@) {
        Some(ContractError::HookError(HookError::HookAlreadyRegistered {}))
    } else if !adding && !hooks.contains(address->0@) {
        Some(ContractError::HookError(HookError::HookNotFound {}))
    } else {
        None
    }
}

/// A registry of subscribers after `address` is added to it or removed
/// from it.
pub open spec fn hooks_after(hooks: Seq<Seq<char>>, address: Seq<char>, adding: bool) -> Seq<
    Seq<char>,
> {
    if adding {
        hooks.push(address)
    } else {
        hooks.remove(crate::hooks::position(hooks, address))
    }
}

/// What an attempt to change the proposal hook subscribers comes to.
pub open spec fn proposal_hook_outcome(
    pre: StateView,
    post: StateView,
    r: Result<Response, ContractError>,
    sender: Seq<char>,
    address: Option<Addr>,
    adding: bool,
) -> bool {
    match hook_refusal(pre.config.dao, pre.proposal_hooks, sender, address, adding) {
        Some(e) => r is Err && r->Err_0 == e && post == pre,
        None => r is Ok && r->Ok_0@ == (ResponseView {
            messages: Seq::empty(),
            event: if adding {
                EventView::AddProposalHook { address: address->0@ }
            } else {
                EventView::RemoveProposalHook { address: address->0@ }
            },
        }) && post == (StateView {
            proposal_hooks: hooks_after(pre.proposal_hooks, address->0@, adding),
            ..pre
        }),
    }
}

/// What an attempt to change the vote hook subscribers comes to.
pub open spec fn vote_hook_outcome(
    pre: StateView,
    post: StateView,
    r: Result<Response, ContractError>,
    sender: Seq<char>,
    address: Option<Addr>,
    adding: bool,
) -> bool {
    match hook_refusal(pre.config.dao, pre.vote_hooks, sender, address, adding) {
        Some(e) => r is Err && r->Err_0 == e && post == pre,
        None => r is Ok && r->Ok_0@ == (ResponseView {
            messages: Seq::empty(),
            event: if adding {
                EventView::AddVoteHook { address: address->0@ }
            } else {
                EventView::RemoveVoteHook { address: address->0@ }
            },
        }) && post == (StateView {
            vote_hooks: hooks_after(pre.vote_hooks, address->0@, adding),
            ..pre
        }),
    }
}

/// Registers a subscriber to proposal hooks. `address` is the address as
/// the host validated it, or `None` where the host did not accept it.
pub fn execute_add_proposal_hook(state: &mut State, info: &MessageInfo, address: Option<Addr>) -> (r:
    Result<Response, ContractError>)
    requires
        old(state).wf(),
    ensures
        final(state).wf(),
        proposal_hook_outcome(old(state)@, final(state)@, r, info.sender@, address, true),
{
    if !state.config.dao.same(&info.sender) {
        return Err(ContractError::Unauthorized {});
    }
    let validated_address = match address {
        Some(a) => a,
        None => {
            return Err(ContractError::InvalidAddress {});
        },
    };
    let event = Event::AddProposalHook { address: validated_address.clone() };
    match add_hook(&mut state.proposal_hooks, validated_address) {
        Ok(_) => Ok(Response::new(event)),
        Err(e) => Err(e),
    }
}

/// Removes a subscriber to proposal hooks.
pub fn execute_remove_proposal_hook(state: &mut State, info: &MessageInfo, address: Option<Addr>) -> (r:
    Result<Response, ContractError>)
    requires
        old(state).wf(),
    ensures
        final(state).wf(),
        proposal_hook_outcome(old(state)@, final(state)@, r, info.sender@, address, false),
{
    if !state.config.dao.same(&info.sender) {
        return Err(ContractError::Unauthorized {});
    }
    let validated_address = match address {
        Some(a) => a,
        None => {
            return Err(ContractError::InvalidAddress {});
        },
    };
    let event = Event::RemoveProposalHook { address: validated_address.clone() };
    match remove_hook(&mut state.proposal_hooks, validated_address) {
        Ok(_) => Ok(Response::new(event)),
        Err(e) => Err(e),
    }
}

/// Registers a subscriber to vote hooks.
pub fn execute_add_vote_hook(state: &mut State, info: &MessageInfo, address: Option<Addr>) -> (r:
    Result<Response, ContractError>)
    requires
        old(state).wf(),
    ensures
        final(state).wf(),
        vote_hook_outcome(old(state)@, final(state)@, r, info.sender@, address, true),
{
    if !state.config.dao.same(&info.sender) {
        return Err(ContractError::Unauthorized {});
    }
    let validated_address = match address {
        Some(a) => a,
        None => {
            return Err(ContractError::InvalidAddress {});
        },
    };
    let event = Event::AddVoteHook { address: validated_address.clone() };
    match add_hook(&mut state.vote_hooks, validated_address) {
        Ok(_) => Ok(Response::new(event)),
        Err(e) => Err(e),
    }
}

/// Removes a subscriber to vote hooks.
pub fn execute_remove_vote_hook(state: &mut State, info: &MessageInfo, address: Option<Addr>) -> (r:
    Result<Response, ContractError>)
    requires
        old(state).wf(),
    ensures
        final(state).wf(),
        vote_hook_outcome(old(state)@, final(state)@, r, info.sender@, address, false),
{
    if !state.config.dao.same(&info.sender) {
        return Err(ContractError::Unauthorized {});
    }
    let validated_address = match address {
        Some(a) => a,
        None => {
            return Err(ContractError::InvalidAddress {});
        },
    };
    let event = Event::RemoveVoteHook { address: validated_address.clone() };
    match remove_hook(&mut state.vote_hooks, validated_address) {
        Ok(_) => Ok(Response::new(event)),
        Err(e) => Err(e),
    }
}

} // verus!
