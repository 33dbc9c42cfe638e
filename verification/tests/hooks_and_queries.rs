use dao_governance::addr::Addr;
use dao_governance::admin::add_hook;
use dao_governance::admin::execute_add_proposal_hook;
use dao_governance::admin::execute_add_vote_hook;
use dao_governance::admin::execute_remove_proposal_hook;
use dao_governance::admin::execute_remove_vote_hook;
use dao_governance::admin::execute_update_config;
use dao_governance::admin::instantiate;
use dao_governance::admin::remove_hook;
use dao_governance::admin::ProposedConfig;
use dao_governance::ballots::VoteInfo;
use dao_governance::contract::execute_close;
use dao_governance::contract::execute_execute;
use dao_governance::contract::execute_propose;
use dao_governance::contract::execute_vote;
use dao_governance::deposit::DepositError;
use dao_governance::deposit::DepositRefundPolicy;
use dao_governance::deposit::DepositToken;
use dao_governance::deposit::UncheckedDepositInfo;
use dao_governance::dispatch::execute;
use dao_governance::dispatch::reply;
use dao_governance::dispatch::Host;
use dao_governance::error::ContractError;
use dao_governance::expiration::BlockInfo;
use dao_governance::expiration::Duration;
use dao_governance::expiration::Timestamp;
use dao_governance::hooks::new_proposal_hooks;
use dao_governance::hooks::new_vote_hooks;
use dao_governance::hooks::proposal_status_changed_hooks;
use dao_governance::hooks::HookError;
use dao_governance::hooks::Hooks;
use dao_governance::hooks::ProposalHookDispatch;
use dao_governance::hooks::ProposalHookMsg;
use dao_governance::hooks::VoteHookDispatch;
use dao_governance::hooks::VoteHookMsg;
use dao_governance::msg::ExecuteMsg;
use dao_governance::msg::InstantiateMsg;
use dao_governance::msg::QueryMsg;
use dao_governance::msg::Reply;
use dao_governance::proposal::MultipleChoiceOption;
use dao_governance::proposal::MultipleChoiceOptions;
use dao_governance::proposal::DEFAULT_LIMIT;
use dao_governance::query::effective_limit;
use dao_governance::query::query;
use dao_governance::query::query_config;
use dao_governance::query::query_list_proposals;
use dao_governance::query::query_list_votes;
use dao_governance::query::query_proposal;
use dao_governance::query::query_proposal_count;
use dao_governance::query::query_proposal_hooks;
use dao_governance::query::query_reverse_proposals;
use dao_governance::query::query_vote;
use dao_governance::query::query_vote_hooks;
use dao_governance::query::QueryResponse;
use dao_governance::reply::TagError;
use dao_governance::response::Event;
use dao_governance::response::SubMsg;
use dao_governance::state::ContractInfo;
use dao_governance::state::Env;
use dao_governance::state::MessageInfo;
use dao_governance::state::State;
use dao_governance::status::Status;
use dao_governance::threshold::Decimal;
use dao_governance::threshold::PercentageThreshold;
use dao_governance::threshold::ThresholdError;
use dao_governance::voting::MultipleChoiceVote;
use dao_governance::voting::VotingError;
use dao_governance::voting::VotingStrategy;

const GOVERNING_DAO: &str = "governing_dao";

fn env_of(seconds: u64) -> Env {
    Env {
        block: BlockInfo {
            height: 10,
            time: Timestamp::from_seconds(seconds),
        },
        contract: ContractInfo {
            address: Addr::unchecked("module"),
        },
    }
}

fn sent_by(who: &str) -> MessageInfo {
    MessageInfo {
        sender: Addr::unchecked(who),
    }
}

fn basic_settings() -> InstantiateMsg {
    InstantiateMsg {
        voting_strategy: VotingStrategy::SingleChoice {
            quorum: PercentageThreshold::Majority {},
        },
        max_voting_period: Duration::Time(100),
        min_voting_period: None,
        only_members_execute: false,
        allow_revoting: false,
        deposit_info: None,
        close_proposal_on_execution_failure: false,
        open_proposal_submission: true,
    }
}

fn fresh_module() -> State {
    instantiate(sent_by(GOVERNING_DAO), basic_settings(), None)
        .unwrap()
        .0
}

fn pair_of_options() -> MultipleChoiceOptions {
    MultipleChoiceOptions {
        options: vec![
            MultipleChoiceOption {
                description: "a".to_string(),
                msgs: None,
            },
            MultipleChoiceOption {
                description: "b".to_string(),
                msgs: None,
            },
        ],
    }
}

fn new_proposal(state: &mut State) -> u64 {
    execute_propose(
        state,
        &env_of(1000),
        Addr::unchecked("proposer"),
        "title".to_string(),
        "description".to_string(),
        pair_of_options(),
        None,
        0,
        17,
        10,
    )
    .unwrap();
    query_proposal_count(state)
}

fn ids_of(list: &dao_governance::query::ProposalListResponse) -> Vec<u64> {
    list.proposals.iter().map(|p| p.id).collect()
}

#[test]
fn a_registry_keeps_its_subscribers_in_order_and_once() {
    let mut hooks = Hooks::new();
    assert_eq!(hooks.hook_count(), 0);
    assert_eq!(hooks.add_hook(Addr::unchecked("one")), Ok(()));
    assert_eq!(hooks.add_hook(Addr::unchecked("two")), Ok(()));
    assert_eq!(hooks.add_hook(Addr::unchecked("three")), Ok(()));
    assert_eq!(
        hooks.add_hook(Addr::unchecked("two")),
        Err(HookError::HookAlreadyRegistered {})
    );
    assert_eq!(
        hooks.query_hooks().hooks,
        vec!["one".to_string(), "two".to_string(), "three".to_string()]
    );
    assert_eq!(hooks.find(&Addr::unchecked("three")), 2);
    assert_eq!(hooks.find(&Addr::unchecked("four")), 3);

    assert_eq!(
        hooks.remove_hook(&Addr::unchecked("four")),
        Err(HookError::HookNotFound {})
    );
    assert_eq!(hooks.remove_hook(&Addr::unchecked("one")), Ok(()));
    assert_eq!(
        hooks.query_hooks().hooks,
        vec!["two".to_string(), "three".to_string()]
    );
    assert_eq!(
        hooks.remove_hook_by_index(2),
        Err(HookError::HookNotFound {})
    );
    assert_eq!(hooks.remove_hook_by_index(1), Ok(Addr::unchecked("three")));
    assert_eq!(hooks.remove_hook_by_index(0), Ok(Addr::unchecked("two")));
    assert_eq!(
        hooks.remove_hook_by_index(0),
        Err(HookError::HookNotFound {})
    );
    assert_eq!(hooks.hook_count(), 0);
    assert_eq!(hooks.clone(), hooks);
}

#[test]
fn hook_errors_become_errors_of_the_module() {
    let mut hooks = Hooks::new();
    assert_eq!(add_hook(&mut hooks, Addr::unchecked("one")), Ok(()));
    assert_eq!(
        add_hook(&mut hooks, Addr::unchecked("one")),
        Err(ContractError::HookError(
            HookError::HookAlreadyRegistered {}
        ))
    );
    assert_eq!(
        remove_hook(&mut hooks, Addr::unchecked("two")),
        Err(ContractError::HookError(HookError::HookNotFound {}))
    );
    assert_eq!(remove_hook(&mut hooks, Addr::unchecked("one")), Ok(()));
    assert_eq!(hooks.hook_count(), 0);
}

#[test]
fn every_subscriber_gets_a_delivery_tagged_with_its_index() {
    let mut hooks = Hooks::new();
    hooks.add_hook(Addr::unchecked("one")).unwrap();
    hooks.add_hook(Addr::unchecked("two")).unwrap();
    assert_eq!(
        new_proposal_hooks(&hooks, 7, &Addr::unchecked("ekez")),
        vec![
            ProposalHookDispatch {
                recipient: Addr::unchecked("one"),
                reply_id: 1,
                msg: ProposalHookMsg::NewProposal {
                    id: 7,
                    proposer: Addr::unchecked("ekez")
                },
            },
            ProposalHookDispatch {
                recipient: Addr::unchecked("two"),
                reply_id: 9,
                msg: ProposalHookMsg::NewProposal {
                    id: 7,
                    proposer: Addr::unchecked("ekez")
                },
            },
        ]
    );
    assert_eq!(
        proposal_status_changed_hooks(&hooks, 7, Status::Open, Status::Open),
        vec![]
    );
    assert_eq!(
        proposal_status_changed_hooks(&hooks, 7, Status::Open, Status::Passed),
        vec![
            ProposalHookDispatch {
                recipient: Addr::unchecked("one"),
                reply_id: 1,
                msg: ProposalHookMsg::ProposalStatusChanged {
                    id: 7,
                    old_status: Status::Open,
                    new_status: Status::Passed
                },
            },
            ProposalHookDispatch {
                recipient: Addr::unchecked("two"),
                reply_id: 9,
                msg: ProposalHookMsg::ProposalStatusChanged {
                    id: 7,
                    old_status: Status::Open,
                    new_status: Status::Passed
                },
            },
        ]
    );
    assert_eq!(
        new_vote_hooks(
            &hooks,
            7,
            &Addr::unchecked("ekez"),
            MultipleChoiceVote { option_id: 2 }
        ),
        vec![
            VoteHookDispatch {
                recipient: Addr::unchecked("one"),
                reply_id: 3,
                msg: VoteHookMsg::NewVote {
                    proposal_id: 7,
                    voter: Addr::unchecked("ekez"),
                    vote: MultipleChoiceVote { option_id: 2 }
                },
            },
            VoteHookDispatch {
                recipient: Addr::unchecked("two"),
                reply_id: 11,
                msg: VoteHookMsg::NewVote {
                    proposal_id: 7,
                    voter: Addr::unchecked("ekez"),
                    vote: MultipleChoiceVote { option_id: 2 }
                },
            },
        ]
    );
    assert_eq!(
        new_proposal_hooks(&Hooks::new(), 7, &Addr::unchecked("ekez")),
        vec![]
    );
}

#[test]
fn only_the_dao_changes_the_subscribers() {
    let mut state = fresh_module();
    assert_eq!(
        execute_add_proposal_hook(
            &mut state,
            &sent_by("stranger"),
            Some(Addr::unchecked("hook"))
        )
        .unwrap_err(),
        ContractError::Unauthorized {}
    );
    assert_eq!(
        execute_add_vote_hook(&mut state, &sent_by("stranger"), None).unwrap_err(),
        ContractError::Unauthorized {}
    );
    assert_eq!(
        execute_remove_proposal_hook(&mut state, &sent_by("stranger"), None).unwrap_err(),
        ContractError::Unauthorized {}
    );
    assert_eq!(
        execute_remove_vote_hook(
            &mut state,
            &sent_by("stranger"),
            Some(Addr::unchecked("hook"))
        )
        .unwrap_err(),
        ContractError::Unauthorized {}
    );
    assert_eq!(
        execute_add_proposal_hook(&mut state, &sent_by(GOVERNING_DAO), None).unwrap_err(),
        ContractError::InvalidAddress {}
    );
    assert_eq!(
        execute_remove_vote_hook(&mut state, &sent_by(GOVERNING_DAO), None).unwrap_err(),
        ContractError::InvalidAddress {}
    );

    let added = execute_add_proposal_hook(
        &mut state,
        &sent_by(GOVERNING_DAO),
        Some(Addr::unchecked("hook")),
    )
    .unwrap();
    assert_eq!(
        added.event,
        Event::AddProposalHook {
            address: Addr::unchecked("hook")
        }
    );
    assert_eq!(
        execute_add_proposal_hook(
            &mut state,
            &sent_by(GOVERNING_DAO),
            Some(Addr::unchecked("hook"))
        )
        .unwrap_err(),
        ContractError::HookError(HookError::HookAlreadyRegistered {})
    );
    // The two registries are apart.
    assert_eq!(
        execute_remove_vote_hook(
            &mut state,
            &sent_by(GOVERNING_DAO),
            Some(Addr::unchecked("hook"))
        )
        .unwrap_err(),
        ContractError::HookError(HookError::HookNotFound {})
    );
    let added = execute_add_vote_hook(
        &mut state,
        &sent_by(GOVERNING_DAO),
        Some(Addr::unchecked("votes")),
    )
    .unwrap();
    assert_eq!(
        added.event,
        Event::AddVoteHook {
            address: Addr::unchecked("votes")
        }
    );
    assert_eq!(
        query_proposal_hooks(&state).hooks,
        vec!["hook".to_string()]
    );
    assert_eq!(query_vote_hooks(&state).hooks, vec!["votes".to_string()]);

    let removed = execute_remove_proposal_hook(
        &mut state,
        &sent_by(GOVERNING_DAO),
        Some(Addr::unchecked("hook")),
    )
    .unwrap();
    assert_eq!(
        removed.event,
        Event::RemoveProposalHook {
            address: Addr::unchecked("hook")
        }
    );
    let removed = execute_remove_vote_hook(
        &mut state,
        &sent_by(GOVERNING_DAO),
        Some(Addr::unchecked("votes")),
    )
    .unwrap();
    assert_eq!(
        removed.event,
        Event::RemoveVoteHook {
            address: Addr::unchecked("votes")
        }
    );
    assert_eq!(query_proposal_hooks(&state).hooks, Vec::<String>::new());
    assert_eq!(query_vote_hooks(&state).hooks, Vec::<String>::new());
}

#[test]
fn a_subscriber_that_fails_is_removed_and_the_proposal_stays_passed() {
    let mut state = fresh_module();
    for hook in ["good", "bad", "fine"] {
        execute_add_proposal_hook(
            &mut state,
            &sent_by(GOVERNING_DAO),
            Some(Addr::unchecked(hook)),
        )
        .unwrap();
    }
    execute_add_vote_hook(
        &mut state,
        &sent_by(GOVERNING_DAO),
        Some(Addr::unchecked("counter")),
    )
    .unwrap();
    let id = new_proposal(&mut state);

    let response = execute_vote(
        &mut state,
        &env_of(1001),
        &sent_by("ekez"),
        id,
        MultipleChoiceVote { option_id: 0 },
        9,
    )
    .unwrap();
    assert_eq!(
        response.event,
        Event::Vote {
            sender: Addr::unchecked("ekez"),
            proposal_id: id,
            position: MultipleChoiceVote { option_id: 0 },
            status: Status::Passed
        }
    );
    let changed = |recipient: &str, reply_id: u64| {
        SubMsg::ProposalHook(ProposalHookDispatch {
            recipient: Addr::unchecked(recipient),
            reply_id,
            msg: ProposalHookMsg::ProposalStatusChanged {
                id,
                old_status: Status::Open,
                new_status: Status::Passed,
            },
        })
    };
    assert_eq!(
        response.messages,
        vec![
            changed("good", 1),
            changed("bad", 9),
            changed("fine", 17),
            SubMsg::VoteHook(VoteHookDispatch {
                recipient: Addr::unchecked("counter"),
                reply_id: 3,
                msg: VoteHookMsg::NewVote {
                    proposal_id: id,
                    voter: Addr::unchecked("ekez"),
                    vote: MultipleChoiceVote { option_id: 0 }
                },
            }),
        ]
    );

    // The delivery to `bad` fails: the host reports it under its tag.
    let answer = reply(&mut state, &env_of(1002), Reply { id: 9 }).unwrap();
    assert_eq!(
        answer.event,
        Event::RemovedProposalHook {
            address: Addr::unchecked("bad"),
            index: 1
        }
    );
    assert_eq!(answer.messages, vec![]);
    assert_eq!(
        query_proposal_hooks(&state).hooks,
        vec!["good".to_string(), "fine".to_string()]
    );
    assert_eq!(
        query_proposal(&state, &env_of(1002), id)
            .unwrap()
            .proposal
            .status,
        Status::Passed
    );
    assert_eq!(query_vote_hooks(&state).hooks, vec!["counter".to_string()]);

    // So does the one to the vote hook.
    let answer = reply(&mut state, &env_of(1002), Reply { id: 3 }).unwrap();
    assert_eq!(
        answer.event,
        Event::RemovedVoteHook {
            address: Addr::unchecked("counter"),
            index: 0
        }
    );
    assert_eq!(query_vote_hooks(&state).hooks, Vec::<String>::new());
    assert_eq!(
        reply(&mut state, &env_of(1002), Reply { id: 3 }).unwrap_err(),
        ContractError::HookError(HookError::HookNotFound {})
    );
    assert_eq!(
        reply(&mut state, &env_of(1002), Reply { id: 17 }).unwrap_err(),
        ContractError::HookError(HookError::HookNotFound {})
    );
    assert_eq!(
        reply(&mut state, &env_of(1002), Reply { id: 5 }).unwrap_err(),
        ContractError::TagError(TagError::UnknownReplyId { id: 5 })
    );

    // The proposal is executed all the same; those still subscribed hear
    // of it.
    let response =
        execute_execute(&mut state, &env_of(1003), &sent_by("ekez"), id, 9).unwrap();
    assert_eq!(response.messages.len(), 2);
    assert_eq!(
        response.messages[1],
        SubMsg::ProposalHook(ProposalHookDispatch {
            recipient: Addr::unchecked("fine"),
            reply_id: 9,
            msg: ProposalHookMsg::ProposalStatusChanged {
                id,
                old_status: Status::Passed,
                new_status: Status::Executed,
            },
        })
    );
}

#[test]
fn subscribers_hear_of_new_proposals_and_of_closings() {
    let mut state = fresh_module();
    execute_add_proposal_hook(
        &mut state,
        &sent_by(GOVERNING_DAO),
        Some(Addr::unchecked("hook")),
    )
    .unwrap();
    let response = execute_propose(
        &mut state,
        &env_of(1000),
        Addr::unchecked("proposer"),
        "title".to_string(),
        "description".to_string(),
        pair_of_options(),
        None,
        0,
        17,
        10,
    )
    .unwrap();
    assert_eq!(
        response.messages,
        vec![SubMsg::ProposalHook(ProposalHookDispatch {
            recipient: Addr::unchecked("hook"),
            reply_id: 1,
            msg: ProposalHookMsg::NewProposal {
                id: 1,
                proposer: Addr::unchecked("proposer")
            },
        })]
    );
    // A vote that changes nothing of the status is no news to them.
    let response = execute_vote(
        &mut state,
        &env_of(1001),
        &sent_by("keze"),
        1,
        MultipleChoiceVote { option_id: 0 },
        8,
    )
    .unwrap();
    assert_eq!(response.messages, vec![]);
    let response = execute_close(&mut state, &env_of(1100), &sent_by("keze"), 1).unwrap();
    assert_eq!(
        response.messages,
        vec![SubMsg::ProposalHook(ProposalHookDispatch {
            recipient: Addr::unchecked("hook"),
            reply_id: 1,
            msg: ProposalHookMsg::ProposalStatusChanged {
                id: 1,
                old_status: Status::Rejected,
                new_status: Status::Closed
            },
        })]
    );
}

#[test]
fn proposals_are_listed_in_pages_without_overlap_or_gap() {
    let mut state = fresh_module();
    for _ in 0..7 {
        new_proposal(&mut state);
    }
    let env = env_of(1001);
    let first = query_list_proposals(&state, &env, None, Some(3));
    assert_eq!(ids_of(&first), vec![1, 2, 3]);
    let second = query_list_proposals(&state, &env, Some(3), Some(3));
    assert_eq!(ids_of(&second), vec![4, 5, 6]);
    let third = query_list_proposals(&state, &env, Some(6), Some(3));
    assert_eq!(ids_of(&third), vec![7]);
    let fourth = query_list_proposals(&state, &env, Some(7), Some(3));
    assert_eq!(ids_of(&fourth), Vec::<u64>::new());

    assert_eq!(
        ids_of(&query_list_proposals(&state, &env, None, None)),
        vec![1, 2, 3, 4, 5, 6, 7]
    );
    assert_eq!(
        ids_of(&query_list_proposals(&state, &env, Some(5), None)),
        vec![6, 7]
    );
    assert_eq!(
        ids_of(&query_list_proposals(&state, &env, Some(0), Some(2))),
        vec![1, 2]
    );
    assert_eq!(
        ids_of(&query_list_proposals(&state, &env, Some(u64::MAX), Some(2))),
        Vec::<u64>::new()
    );
    assert_eq!(
        ids_of(&query_list_proposals(&state, &env, None, Some(0))),
        Vec::<u64>::new()
    );

    assert_eq!(
        ids_of(&query_reverse_proposals(&state, &env, None, Some(3))),
        vec![7, 6, 5]
    );
    assert_eq!(
        ids_of(&query_reverse_proposals(&state, &env, Some(5), Some(3))),
        vec![4, 3, 2]
    );
    assert_eq!(
        ids_of(&query_reverse_proposals(&state, &env, Some(2), Some(3))),
        vec![1]
    );
    assert_eq!(
        ids_of(&query_reverse_proposals(&state, &env, Some(1), None)),
        Vec::<u64>::new()
    );
    assert_eq!(
        ids_of(&query_reverse_proposals(&state, &env, Some(0), None)),
        Vec::<u64>::new()
    );
    assert_eq!(
        ids_of(&query_reverse_proposals(&state, &env, Some(100), None)),
        vec![7, 6, 5, 4, 3, 2, 1]
    );
}

#[test]
fn a_page_holds_thirty_at_most() {
    assert_eq!(DEFAULT_LIMIT, 30);
    assert_eq!(effective_limit(None), 30);
    assert_eq!(effective_limit(Some(0)), 0);
    assert_eq!(effective_limit(Some(29)), 29);
    assert_eq!(effective_limit(Some(30)), 30);
    assert_eq!(effective_limit(Some(31)), 30);
    assert_eq!(effective_limit(Some(u64::MAX)), 30);

    let mut state = fresh_module();
    for _ in 0..35 {
        new_proposal(&mut state);
    }
    let env = env_of(1001);
    let first = ids_of(&query_list_proposals(&state, &env, None, None));
    assert_eq!(first, (1..=30).collect::<Vec<u64>>());
    let capped = ids_of(&query_list_proposals(&state, &env, None, Some(100)));
    assert_eq!(capped, first);
    let rest = ids_of(&query_list_proposals(&state, &env, Some(30), Some(100)));
    assert_eq!(rest, vec![31, 32, 33, 34, 35]);
    let last = ids_of(&query_reverse_proposals(&state, &env, None, Some(100)));
    assert_eq!(last, (6..=35).rev().collect::<Vec<u64>>());
}

#[test]
fn what_is_said_of_a_proposal_is_its_status_at_the_time() {
    let mut state = fresh_module();
    new_proposal(&mut state);
    assert_eq!(
        query_list_proposals(&state, &env_of(1099), None, None).proposals[0]
            .proposal
            .status,
        Status::Open
    );
    assert_eq!(
        query_list_proposals(&state, &env_of(1100), None, None).proposals[0]
            .proposal
            .status,
        Status::Rejected
    );
    assert_eq!(
        query_reverse_proposals(&state, &env_of(1100), None, None).proposals[0]
            .proposal
            .status,
        Status::Rejected
    );
    assert_eq!(
        query_proposal(&state, &env_of(1100), 1)
            .unwrap()
            .proposal
            .status,
        Status::Rejected
    );
}

fn ballot(voter: &str, option_id: u32, power: u128) -> VoteInfo {
    VoteInfo {
        voter: Addr::unchecked(voter),
        vote: MultipleChoiceVote { option_id },
        power,
    }
}

#[test]
fn ballots_are_listed_by_the_addresses_of_their_voters() {
    let mut state = fresh_module();
    let id = new_proposal(&mut state);
    new_proposal(&mut state);
    for (voter, option_id, power) in [("carol", 1, 1), ("alice", 0, 2), ("bob", 2, 3), ("al", 0, 1)]
    {
        execute_vote(
            &mut state,
            &env_of(1001),
            &sent_by(voter),
            id,
            MultipleChoiceVote { option_id },
            power,
        )
        .unwrap();
    }
    assert_eq!(
        query_list_votes(&state, id, None, None).votes,
        vec![
            ballot("al", 0, 1),
            ballot("alice", 0, 2),
            ballot("bob", 2, 3),
            ballot("carol", 1, 1)
        ]
    );
    assert_eq!(
        query_list_votes(&state, id, None, Some(2)).votes,
        vec![ballot("al", 0, 1), ballot("alice", 0, 2)]
    );
    assert_eq!(
        query_list_votes(&state, id, Some(Addr::unchecked("alice")), Some(2)).votes,
        vec![ballot("bob", 2, 3), ballot("carol", 1, 1)]
    );
    // The address to start after need not be that of a voter.
    assert_eq!(
        query_list_votes(&state, id, Some(Addr::unchecked("b")), None).votes,
        vec![ballot("bob", 2, 3), ballot("carol", 1, 1)]
    );
    assert_eq!(
        query_list_votes(&state, id, Some(Addr::unchecked("carol")), None).votes,
        vec![]
    );
    assert_eq!(query_list_votes(&state, 2, None, None).votes, vec![]);
    assert_eq!(query_list_votes(&state, 3, None, None).votes, vec![]);

    assert_eq!(
        query_vote(&state, id, &Addr::unchecked("bob")).vote,
        Some(ballot("bob", 2, 3))
    );
    assert_eq!(query_vote(&state, id, &Addr::unchecked("dave")).vote, None);
    assert_eq!(query_vote(&state, 2, &Addr::unchecked("bob")).vote, None);
    assert_eq!(query_vote(&state, 9, &Addr::unchecked("bob")).vote, None);
}

#[test]
fn questions_are_answered_by_their_kind() {
    let mut state = fresh_module();
    let id = new_proposal(&mut state);
    execute_vote(
        &mut state,
        &env_of(1001),
        &sent_by("ekez"),
        id,
        MultipleChoiceVote { option_id: 1 },
        3,
    )
    .unwrap();
    let env = env_of(1002);
    assert_eq!(
        query(&state, &env, QueryMsg::Config {}, None),
        Ok(QueryResponse::Config(query_config(&state)))
    );
    assert_eq!(
        query(&state, &env, QueryMsg::ProposalCount {}, None),
        Ok(QueryResponse::ProposalCount(1))
    );
    assert_eq!(
        query(&state, &env, QueryMsg::Proposal { proposal_id: 1 }, None),
        Ok(QueryResponse::Proposal(
            query_proposal(&state, &env, 1).unwrap()
        ))
    );
    assert_eq!(
        query(&state, &env, QueryMsg::Proposal { proposal_id: 2 }, None),
        Err(ContractError::NoSuchProposal { id: 2 })
    );
    assert_eq!(
        query(
            &state,
            &env,
            QueryMsg::ListProposals {
                start_after: None,
                limit: None
            },
            None
        ),
        Ok(QueryResponse::Proposals(query_list_proposals(
            &state, &env, None, None
        )))
    );
    assert_eq!(
        query(
            &state,
            &env,
            QueryMsg::ReverseProposals {
                start_before: Some(1),
                limit: None
            },
            None
        ),
        Ok(QueryResponse::Proposals(query_reverse_proposals(
            &state,
            &env,
            Some(1),
            None
        )))
    );
    assert_eq!(
        query(
            &state,
            &env,
            QueryMsg::GetVote {
                proposal_id: 1,
                voter: "ekez".to_string()
            },
            Some(Addr::unchecked("ekez"))
        ),
        Ok(QueryResponse::Vote(query_vote(
            &state,
            1,
            &Addr::unchecked("ekez")
        )))
    );
    assert_eq!(
        query(
            &state,
            &env,
            QueryMsg::GetVote {
                proposal_id: 1,
                voter: "EKEZ!".to_string()
            },
            None
        ),
        Err(ContractError::InvalidAddress {})
    );
    assert_eq!(
        query(
            &state,
            &env,
            QueryMsg::ListVotes {
                proposal_id: 1,
                start_after: None,
                limit: None
            },
            None
        ),
        Ok(QueryResponse::Votes(query_list_votes(
            &state, 1, None, None
        )))
    );
    assert_eq!(
        query(
            &state,
            &env,
            QueryMsg::ListVotes {
                proposal_id: 1,
                start_after: Some("a".to_string()),
                limit: None
            },
            None
        ),
        Err(ContractError::InvalidAddress {})
    );
    assert_eq!(
        query(
            &state,
            &env,
            QueryMsg::ListVotes {
                proposal_id: 1,
                start_after: Some("f".to_string()),
                limit: None
            },
            Some(Addr::unchecked("f"))
        ),
        Ok(QueryResponse::Votes(query_list_votes(
            &state,
            1,
            Some(Addr::unchecked("f")),
            None
        )))
    );
    assert_eq!(
        query(&state, &env, QueryMsg::ProposalHooks {}, None),
        Ok(QueryResponse::Hooks(query_proposal_hooks(&state)))
    );
    assert_eq!(
        query(&state, &env, QueryMsg::VoteHooks {}, None),
        Ok(QueryResponse::Hooks(query_vote_hooks(&state)))
    );
}

fn nothing_known() -> Host {
    Host {
        dao_active: None,
        sender_power: 0,
        total_power: 0,
        proposal_size: 0,
        address: None,
        deposit_denom: None,
    }
}

#[test]
fn messages_are_carried_out_by_their_kind() {
    let mut state = fresh_module();
    let response = execute(
        &mut state,
        &env_of(1000),
        sent_by("proposer"),
        ExecuteMsg::Propose {
            title: "title".to_string(),
            description: "description".to_string(),
            choices: pair_of_options(),
        },
        Host {
            total_power: 17,
            proposal_size: 10,
            ..nothing_known()
        },
    )
    .unwrap();
    assert_eq!(
        response.event,
        Event::Propose {
            sender: Addr::unchecked("proposer"),
            proposal_id: 1,
            status: Status::Open
        }
    );
    assert_eq!(
        execute(
            &mut state,
            &env_of(1001),
            sent_by("ekez"),
            ExecuteMsg::Vote {
                proposal_id: 1,
                vote: MultipleChoiceVote { option_id: 0 }
            },
            nothing_known(),
        )
        .unwrap_err(),
        ContractError::NotRegistered {}
    );
    let response = execute(
        &mut state,
        &env_of(1001),
        sent_by("ekez"),
        ExecuteMsg::Vote {
            proposal_id: 1,
            vote: MultipleChoiceVote { option_id: 0 },
        },
        Host {
            sender_power: 9,
            ..nothing_known()
        },
    )
    .unwrap();
    assert_eq!(
        response.event,
        Event::Vote {
            sender: Addr::unchecked("ekez"),
            proposal_id: 1,
            position: MultipleChoiceVote { option_id: 0 },
            status: Status::Passed
        }
    );
    assert_eq!(
        execute(
            &mut state,
            &env_of(1002),
            sent_by("ekez"),
            ExecuteMsg::Close { proposal_id: 1 },
            nothing_known(),
        )
        .unwrap_err(),
        ContractError::WrongCloseStatus {}
    );
    let response = execute(
        &mut state,
        &env_of(1002),
        sent_by("ekez"),
        ExecuteMsg::Execute { proposal_id: 1 },
        nothing_known(),
    )
    .unwrap();
    assert_eq!(
        response.event,
        Event::Execute {
            sender: Addr::unchecked("ekez"),
            proposal_id: 1,
            dao: Addr::unchecked(GOVERNING_DAO)
        }
    );
    for (msg, event) in [
        (
            ExecuteMsg::AddProposalHook {
                address: "hook".to_string(),
            },
            Event::AddProposalHook {
                address: Addr::unchecked("hook"),
            },
        ),
        (
            ExecuteMsg::AddVoteHook {
                address: "hook".to_string(),
            },
            Event::AddVoteHook {
                address: Addr::unchecked("hook"),
            },
        ),
        (
            ExecuteMsg::RemoveProposalHook {
                address: "hook".to_string(),
            },
            Event::RemoveProposalHook {
                address: Addr::unchecked("hook"),
            },
        ),
        (
            ExecuteMsg::RemoveVoteHook {
                address: "hook".to_string(),
            },
            Event::RemoveVoteHook {
                address: Addr::unchecked("hook"),
            },
        ),
    ] {
        let response = execute(
            &mut state,
            &env_of(1003),
            sent_by(GOVERNING_DAO),
            msg,
            Host {
                address: Some(Addr::unchecked("hook")),
                ..nothing_known()
            },
        )
        .unwrap();
        assert_eq!(response.event, event);
    }
    let response = execute(
        &mut state,
        &env_of(1004),
        sent_by(GOVERNING_DAO),
        ExecuteMsg::UpdateConfig {
            voting_strategy: VotingStrategy::SingleChoice {
                quorum: PercentageThreshold::Percent(Decimal::percent(20)),
            },
            min_voting_period: Some(Duration::Height(5)),
            max_voting_period: Duration::Height(50),
            only_members_execute: true,
            allow_revoting: true,
            dao: "new_dao".to_string(),
            deposit_info: None,
            close_proposal_on_execution_failure: true,
            open_proposal_submission: false,
        },
        Host {
            address: Some(Addr::unchecked("new_dao")),
            ..nothing_known()
        },
    )
    .unwrap();
    assert_eq!(
        response.event,
        Event::UpdateConfig {
            sender: Addr::unchecked(GOVERNING_DAO)
        }
    );
    let config = query_config(&state);
    assert_eq!(config.dao, Addr::unchecked("new_dao"));
    assert_eq!(config.min_voting_period, Some(Duration::Height(5)));
    assert_eq!(config.max_voting_period, Duration::Height(50));
    assert!(config.only_members_execute);
    assert!(config.allow_revoting);
    assert!(config.close_proposal_on_execution_failure);
    assert!(!config.open_proposal_submission);
    // The old DAO has no say any more.
    assert_eq!(
        execute(
            &mut state,
            &env_of(1005),
            sent_by(GOVERNING_DAO),
            ExecuteMsg::AddVoteHook {
                address: "hook".to_string()
            },
            Host {
                address: Some(Addr::unchecked("hook")),
                ..nothing_known()
            },
        )
        .unwrap_err(),
        ContractError::Unauthorized {}
    );
}

fn proposed(dao: Option<&str>) -> ProposedConfig {
    ProposedConfig {
        voting_strategy: VotingStrategy::SingleChoice {
            quorum: PercentageThreshold::Majority {},
        },
        min_voting_period: None,
        max_voting_period: Duration::Time(100),
        only_members_execute: false,
        allow_revoting: false,
        dao: dao.map(Addr::unchecked),
        deposit_info: None,
        deposit_denom: None,
        close_proposal_on_execution_failure: false,
        open_proposal_submission: true,
    }
}

#[test]
fn settings_are_refused_for_each_reason_in_turn() {
    let mut state = fresh_module();
    let before = query_config(&state);
    let zero_deposit = Some(UncheckedDepositInfo {
        denom: DepositToken::VotingModuleToken {},
        amount: 0,
        refund_policy: DepositRefundPolicy::Always,
    });
    let some_deposit = Some(UncheckedDepositInfo {
        denom: DepositToken::VotingModuleToken {},
        amount: 1,
        refund_policy: DepositRefundPolicy::Always,
    });
    let too_much = VotingStrategy::SingleChoice {
        quorum: PercentageThreshold::Percent(Decimal::percent(150)),
    };
    let everything_wrong = ProposedConfig {
        voting_strategy: too_much,
        min_voting_period: Some(Duration::Height(1)),
        dao: None,
        deposit_info: zero_deposit,
        ..proposed(None)
    };
    assert_eq!(
        execute_update_config(&mut state, &sent_by("stranger"), everything_wrong).unwrap_err(),
        ContractError::Unauthorized {}
    );
    let everything_wrong = ProposedConfig {
        voting_strategy: too_much,
        min_voting_period: Some(Duration::Height(1)),
        dao: None,
        deposit_info: Some(UncheckedDepositInfo {
            denom: DepositToken::VotingModuleToken {},
            amount: 0,
            refund_policy: DepositRefundPolicy::Always,
        }),
        ..proposed(None)
    };
    assert_eq!(
        execute_update_config(&mut state, &sent_by(GOVERNING_DAO), everything_wrong).unwrap_err(),
        ContractError::ThresholdError(ThresholdError::UnreachableThreshold {})
    );
    assert_eq!(
        execute_update_config(
            &mut state,
            &sent_by(GOVERNING_DAO),
            ProposedConfig {
                min_voting_period: Some(Duration::Height(1)),
                deposit_info: Some(UncheckedDepositInfo {
                    denom: DepositToken::VotingModuleToken {},
                    amount: 0,
                    refund_policy: DepositRefundPolicy::Always,
                }),
                ..proposed(None)
            }
        )
        .unwrap_err(),
        ContractError::InvalidAddress {}
    );
    assert_eq!(
        execute_update_config(
            &mut state,
            &sent_by(GOVERNING_DAO),
            ProposedConfig {
                min_voting_period: Some(Duration::Height(1)),
                deposit_info: Some(UncheckedDepositInfo {
                    denom: DepositToken::VotingModuleToken {},
                    amount: 0,
                    refund_policy: DepositRefundPolicy::Always,
                }),
                ..proposed(Some("dao"))
            }
        )
        .unwrap_err(),
        ContractError::DepositError(DepositError::ZeroDeposit {})
    );
    assert_eq!(
        execute_update_config(
            &mut state,
            &sent_by(GOVERNING_DAO),
            ProposedConfig {
                min_voting_period: Some(Duration::Height(1)),
                deposit_info: some_deposit,
                ..proposed(Some("dao"))
            }
        )
        .unwrap_err(),
        ContractError::DepositError(DepositError::UnknownDenom {})
    );
    assert_eq!(
        execute_update_config(
            &mut state,
            &sent_by(GOVERNING_DAO),
            ProposedConfig {
                min_voting_period: Some(Duration::Height(1)),
                ..proposed(Some("dao"))
            }
        )
        .unwrap_err(),
        ContractError::VotingError(VotingError::DurationUnitsConflict {})
    );
    assert_eq!(
        execute_update_config(
            &mut state,
            &sent_by(GOVERNING_DAO),
            ProposedConfig {
                min_voting_period: Some(Duration::Time(101)),
                ..proposed(Some("dao"))
            }
        )
        .unwrap_err(),
        ContractError::VotingError(VotingError::InvalidMinVotingPeriod {})
    );
    assert_eq!(query_config(&state), before);
    assert_eq!(
        proposed(Some("dao")).into_checked().map(|c| c.dao),
        Ok(Addr::unchecked("dao"))
    );
}

#[test]
fn a_module_is_set_up_for_its_sender() {
    let (state, response) = instantiate(sent_by("creator"), basic_settings(), None).unwrap();
    assert_eq!(
        response.event,
        Event::Instantiate {
            dao: Addr::unchecked("creator")
        }
    );
    assert_eq!(response.messages, vec![]);
    assert_eq!(query_config(&state).dao, Addr::unchecked("creator"));
    assert_eq!(query_proposal_count(&state), 0);
    assert_eq!(query_proposal_hooks(&state).hooks, Vec::<String>::new());
    assert_eq!(
        instantiate(
            sent_by("creator"),
            InstantiateMsg {
                voting_strategy: VotingStrategy::SingleChoice {
                    quorum: PercentageThreshold::Percent(Decimal::percent(101))
                },
                ..basic_settings()
            },
            None
        )
        .unwrap_err(),
        ContractError::ThresholdError(ThresholdError::UnreachableThreshold {})
    );
}
