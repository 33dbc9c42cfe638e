use cosmwasm_std::coins;
use cosmwasm_std::BankMsg;
use cosmwasm_std::CosmosMsg;
use cosmwasm_std::Empty;
use dao_governance::addr::Addr;
use dao_governance::admin::instantiate;
use dao_governance::contract::draft_proposal;
use dao_governance::contract::execute_close;
use dao_governance::contract::execute_execute;
use dao_governance::contract::execute_propose;
use dao_governance::contract::execute_vote;
use dao_governance::dispatch::reply;
use dao_governance::error::ContractError;
use dao_governance::expiration::BlockInfo;
use dao_governance::expiration::Duration;
use dao_governance::expiration::Expiration;
use dao_governance::expiration::Timestamp;
use dao_governance::lifecycle::Ballot;
use dao_governance::msg::InstantiateMsg;
use dao_governance::msg::Reply;
use dao_governance::proposal::CheckedMultipleChoiceOption;
use dao_governance::proposal::MultipleChoiceOption;
use dao_governance::proposal::MultipleChoiceOptionType;
use dao_governance::proposal::MultipleChoiceOptions;
use dao_governance::proposal::MultipleChoiceProposal;
use dao_governance::proposal::VoteResult;
use dao_governance::proposal::MAX_PROPOSAL_SIZE;
use dao_governance::query::query_list_votes;
use dao_governance::query::query_proposal;
use dao_governance::query::query_proposal_count;
use dao_governance::query::query_vote;
use dao_governance::reply::mask_proposal_execution_proposal_id;
use dao_governance::response::Event;
use dao_governance::response::SubMsg;
use dao_governance::state::ContractInfo;
use dao_governance::state::Env;
use dao_governance::state::MessageInfo;
use dao_governance::state::State;
use dao_governance::status::Status;
use dao_governance::threshold::Decimal;
use dao_governance::threshold::PercentageThreshold;
use dao_governance::voting::MultipleChoiceVote;
use dao_governance::voting::MultipleChoiceVotes;
use dao_governance::voting::VotingStrategy;

const THE_DAO: &str = "the_dao";

fn at(height: u64, seconds: u64) -> Env {
    Env {
        block: BlockInfo {
            height,
            time: Timestamp::from_seconds(seconds),
        },
        contract: ContractInfo {
            address: Addr::unchecked("module"),
        },
    }
}

fn from(who: &str) -> MessageInfo {
    MessageInfo {
        sender: Addr::unchecked(who),
    }
}

fn settings() -> InstantiateMsg {
    InstantiateMsg {
        voting_strategy: VotingStrategy::SingleChoice {
            quorum: PercentageThreshold::Majority {},
        },
        max_voting_period: Duration::Time(100),
        min_voting_period: None,
        only_members_execute: false,
        allow_revoting: false,
        deposit_info: None,
        close_proposal_on_execution_failure: false,
        open_proposal_submission: false,
    }
}

fn module(msg: InstantiateMsg) -> State {
    instantiate(from(THE_DAO), msg, None).unwrap().0
}

fn send(amount: u128) -> CosmosMsg<Empty> {
    CosmosMsg::Bank(BankMsg::Send {
        to_address: "friend".to_string(),
        amount: coins(amount, "ujuno"),
    })
}

fn choices(labels: &[&str]) -> MultipleChoiceOptions {
    MultipleChoiceOptions {
        options: labels
            .iter()
            .map(|l| MultipleChoiceOption {
                description: l.to_string(),
                msgs: None,
            })
            .collect(),
    }
}

/// Makes a proposal with the choices `a` and `b` at second 1000, with a
/// total voting power of `total`.
fn propose(state: &mut State, total: u128) -> u64 {
    execute_propose(
        state,
        &at(10, 1000),
        Addr::unchecked("proposer"),
        "title".to_string(),
        "description".to_string(),
        choices(&["a", "b"]),
        None,
        1,
        total,
        100,
    )
    .unwrap();
    query_proposal_count(state)
}

fn cast(
    state: &mut State,
    seconds: u64,
    who: &str,
    id: u64,
    option_id: u32,
    power: u128,
) -> Result<Status, ContractError> {
    let env = at(11, seconds);
    execute_vote(
        state,
        &env,
        &from(who),
        id,
        MultipleChoiceVote { option_id },
        power,
    )?;
    Ok(query_proposal(state, &env, id).unwrap().proposal.status)
}

fn status_at(state: &State, seconds: u64, id: u64) -> Status {
    query_proposal(state, &at(12, seconds), id)
        .unwrap()
        .proposal
        .status
}

fn tally(state: &State, id: u64) -> Vec<u128> {
    query_proposal(state, &at(12, 1001), id)
        .unwrap()
        .proposal
        .votes
        .vote_weights
}

#[test]
fn a_proposal_is_made_with_none_of_the_above_added() {
    let mut state = module(settings());
    let env = at(10, 1000);
    let response = execute_propose(
        &mut state,
        &env,
        Addr::unchecked("proposer"),
        "title".to_string(),
        "description".to_string(),
        MultipleChoiceOptions {
            options: vec![
                MultipleChoiceOption {
                    description: "a".to_string(),
                    msgs: Some(vec![send(1)]),
                },
                MultipleChoiceOption {
                    description: "b".to_string(),
                    msgs: None,
                },
            ],
        },
        Some(true),
        3,
        17,
        100,
    )
    .unwrap();
    assert_eq!(
        response.event,
        Event::Propose {
            sender: Addr::unchecked("proposer"),
            proposal_id: 1,
            status: Status::Open
        }
    );
    assert_eq!(response.messages, vec![]);

    let stored = query_proposal(&state, &env, 1).unwrap();
    assert_eq!(stored.id, 1);
    assert_eq!(
        stored.proposal,
        MultipleChoiceProposal {
            title: "title".to_string(),
            description: "description".to_string(),
            proposer: Addr::unchecked("proposer"),
            start_height: 10,
            min_voting_period: None,
            expiration: Expiration::AtTime(Timestamp::from_seconds(1100)),
            choices: vec![
                CheckedMultipleChoiceOption {
                    index: 0,
                    option_type: MultipleChoiceOptionType::Standard,
                    description: "a".to_string(),
                    msgs: Some(vec![send(1)]),
                },
                CheckedMultipleChoiceOption {
                    index: 1,
                    option_type: MultipleChoiceOptionType::Standard,
                    description: "b".to_string(),
                    msgs: None,
                },
                CheckedMultipleChoiceOption {
                    index: 2,
                    option_type: MultipleChoiceOptionType::NoneOfTheAbove,
                    description: "None of the above".to_string(),
                    msgs: None,
                },
            ],
            status: Status::Open,
            voting_strategy: VotingStrategy::SingleChoice {
                quorum: PercentageThreshold::Majority {},
            },
            total_power: 17,
            votes: MultipleChoiceVotes {
                vote_weights: vec![0, 0, 0]
            },
            allow_revoting: false,
            deposit_info: None,
            created: Timestamp::from_seconds(1000),
            last_updated: Timestamp::from_seconds(1000),
        }
    );
}

#[test]
fn proposals_are_numbered_from_one() {
    let mut state = module(settings());
    assert_eq!(query_proposal_count(&state), 0);
    assert_eq!(propose(&mut state, 17), 1);
    assert_eq!(propose(&mut state, 17), 2);
    assert_eq!(propose(&mut state, 17), 3);
    assert_eq!(query_proposal_count(&state), 3);
    assert!(query_proposal(&state, &at(10, 1000), 0).is_none());
    assert!(query_proposal(&state, &at(10, 1000), 4).is_none());
}

fn try_propose(
    state: &mut State,
    options: MultipleChoiceOptions,
    dao_active: Option<bool>,
    sender_power: u128,
    size: u64,
) -> Result<(), ContractError> {
    execute_propose(
        state,
        &at(10, 1000),
        Addr::unchecked("proposer"),
        "title".to_string(),
        "description".to_string(),
        options,
        dao_active,
        sender_power,
        17,
        size,
    )
    .map(|_| ())
}

#[test]
fn a_proposal_is_refused_for_each_reason_in_turn() {
    let mut state = module(settings());
    // An inactive DAO comes first, whatever else is wrong.
    assert_eq!(
        try_propose(&mut state, choices(&["a"]), Some(false), 0, 50_000),
        Err(ContractError::InactiveDao {})
    );
    assert_eq!(
        try_propose(&mut state, choices(&["a"]), Some(true), 0, 50_000),
        Err(ContractError::MustHaveVotingPower {})
    );
    assert_eq!(
        try_propose(&mut state, choices(&["a"]), None, 0, 50_000),
        Err(ContractError::MustHaveVotingPower {})
    );
    assert_eq!(
        try_propose(&mut state, choices(&["a"]), None, 1, 50_000),
        Err(ContractError::WrongNumberOfChoices {})
    );
    assert_eq!(
        try_propose(&mut state, choices(&[]), None, 1, 50_000),
        Err(ContractError::WrongNumberOfChoices {})
    );
    assert_eq!(
        try_propose(&mut state, choices(&["a", ""]), None, 1, 50_000),
        Err(ContractError::EmptyChoice {})
    );
    assert_eq!(
        try_propose(&mut state, choices(&["a", "b"]), None, 1, 50_000),
        Err(ContractError::ProposalTooLarge {
            size: 50_000,
            max: 30_000
        })
    );
    assert_eq!(
        try_propose(
            &mut state,
            choices(&["a", "b"]),
            None,
            1,
            MAX_PROPOSAL_SIZE + 1
        ),
        Err(ContractError::ProposalTooLarge {
            size: 30_001,
            max: 30_000
        })
    );
    // Nothing was stored by any of these.
    assert_eq!(query_proposal_count(&state), 0);
    assert_eq!(
        try_propose(&mut state, choices(&["a", "b"]), None, 1, MAX_PROPOSAL_SIZE),
        Ok(())
    );
    assert_eq!(query_proposal_count(&state), 1);
}

#[test]
fn anyone_may_propose_where_submission_is_open() {
    let mut state = module(InstantiateMsg {
        open_proposal_submission: true,
        ..settings()
    });
    assert_eq!(
        try_propose(&mut state, choices(&["a", "b"]), None, 0, 10),
        Ok(())
    );
}

#[test]
fn a_voting_period_that_cannot_be_represented_is_refused() {
    let mut state = module(InstantiateMsg {
        max_voting_period: Duration::Height(u64::MAX),
        ..settings()
    });
    assert_eq!(
        try_propose(&mut state, choices(&["a", "b"]), None, 1, 10),
        Err(ContractError::Overflow {})
    );
    let mut state = module(InstantiateMsg {
        min_voting_period: Some(Duration::Time(u64::MAX / 2)),
        max_voting_period: Duration::Time(u64::MAX / 2),
        ..settings()
    });
    assert_eq!(
        try_propose(&mut state, choices(&["a", "b"]), None, 1, 10),
        Err(ContractError::Overflow {})
    );
}

#[test]
fn a_proposal_without_time_to_vote_is_rejected_when_made() {
    let mut state = module(InstantiateMsg {
        max_voting_period: Duration::Time(0),
        ..settings()
    });
    let response = execute_propose(
        &mut state,
        &at(10, 1000),
        Addr::unchecked("proposer"),
        "title".to_string(),
        "description".to_string(),
        choices(&["a", "b"]),
        None,
        1,
        17,
        10,
    )
    .unwrap();
    assert_eq!(
        response.event,
        Event::Propose {
            sender: Addr::unchecked("proposer"),
            proposal_id: 1,
            status: Status::Rejected
        }
    );
    assert_eq!(
        cast(&mut state, 1000, "ekez", 1, 0, 9),
        Err(ContractError::NotOpen { id: 1 })
    );
    assert!(execute_close(&mut state, &at(10, 1000), &from("anyone"), 1).is_ok());
    assert_eq!(status_at(&state, 1000, 1), Status::Closed);
}

#[test]
fn a_draft_stores_nothing() {
    let state = module(settings());
    let config = dao_governance::query::query_config(&state);
    let draft = draft_proposal(
        &config,
        &at(10, 1000).block,
        &Addr::unchecked("proposer"),
        "title".to_string(),
        "description".to_string(),
        choices(&["a", "b", "c"]),
        17,
    )
    .unwrap();
    assert_eq!(draft.choices.len(), 4);
    assert_eq!(draft.votes.vote_weights, vec![0, 0, 0, 0]);
    assert_eq!(draft.status, Status::Open);
    assert_eq!(query_proposal_count(&state), 0);
}

#[test]
fn a_lead_that_cannot_be_lost_passes_the_proposal_early() {
    let mut state = module(settings());
    let id = propose(&mut state, 17);
    // 8 of 17 lead, but the 9 that remain could overtake them.
    assert_eq!(cast(&mut state, 1001, "keze", id, 0, 8), Ok(Status::Open));
    assert_eq!(tally(&state, id), vec![8, 0, 0]);
    // With 9 more behind the same choice nothing remains to overtake it.
    assert_eq!(cast(&mut state, 1002, "ekez", id, 0, 9), Ok(Status::Passed));
    assert_eq!(tally(&state, id), vec![17, 0, 0]);
}

#[test]
fn a_standard_choice_must_stay_strictly_ahead() {
    let mut state = module(settings());
    let id = propose(&mut state, 18);
    // 9 of 18: the other 9 could draw level.
    assert_eq!(cast(&mut state, 1001, "ekez", id, 0, 9), Ok(Status::Open));
    let mut state = module(settings());
    let id = propose(&mut state, 17);
    // 9 of 17: the other 8 cannot.
    assert_eq!(cast(&mut state, 1001, "ekez", id, 0, 9), Ok(Status::Passed));
}

#[test]
fn none_of_the_above_rejects_as_soon_as_it_cannot_be_overtaken() {
    let mut state = module(settings());
    let id = propose(&mut state, 18);
    // 9 of 18 for none of the above: the other 9 could at most draw level,
    // and a draw rejects as well.
    assert_eq!(cast(&mut state, 1001, "ekez", id, 2, 9), Ok(Status::Rejected));
    let mut state = module(settings());
    let id = propose(&mut state, 19);
    assert_eq!(cast(&mut state, 1001, "ekez", id, 2, 9), Ok(Status::Open));
}

#[test]
fn a_missed_quorum_rejects_at_the_end_of_voting() {
    let mut state = module(settings());
    let id = propose(&mut state, 100);
    assert_eq!(cast(&mut state, 1001, "ekez", id, 0, 50), Ok(Status::Open));
    assert_eq!(status_at(&state, 1099, id), Status::Open);
    // 50 of 100 are no majority.
    assert_eq!(status_at(&state, 1100, id), Status::Rejected);
    assert_eq!(
        execute_execute(&mut state, &at(20, 1100), &from("ekez"), id, 50).unwrap_err(),
        ContractError::NotPassed {}
    );
}

#[test]
fn the_leader_at_the_end_of_voting_wins_where_the_quorum_is_met() {
    let mut state = module(settings());
    let id = propose(&mut state, 100);
    assert_eq!(cast(&mut state, 1001, "a", id, 0, 30), Ok(Status::Open));
    assert_eq!(cast(&mut state, 1002, "b", id, 1, 25), Ok(Status::Open));
    assert_eq!(status_at(&state, 1099, id), Status::Open);
    assert_eq!(status_at(&state, 1100, id), Status::Passed);
    // The stored status is still open until something is written.
    assert_eq!(
        cast(&mut state, 1100, "c", id, 1, 10),
        Err(ContractError::NotOpen { id })
    );
    assert!(execute_execute(&mut state, &at(20, 1200), &from("a"), id, 30).is_ok());
    assert_eq!(status_at(&state, 1200, id), Status::Executed);
}

#[test]
fn a_percentage_quorum_counts_all_votes_cast() {
    let mut state = module(InstantiateMsg {
        voting_strategy: VotingStrategy::SingleChoice {
            quorum: PercentageThreshold::Percent(Decimal::percent(10)),
        },
        ..settings()
    });
    let id = propose(&mut state, 100);
    assert_eq!(cast(&mut state, 1001, "a", id, 0, 6), Ok(Status::Open));
    assert_eq!(cast(&mut state, 1002, "b", id, 1, 3), Ok(Status::Open));
    // Nine of a hundred are not a tenth.
    assert_eq!(status_at(&state, 1100, id), Status::Rejected);
    assert_eq!(cast(&mut state, 1003, "c", id, 1, 1), Ok(Status::Open));
    // Ten are, and six lead four.
    assert_eq!(status_at(&state, 1100, id), Status::Passed);
}

#[test]
fn nothing_passes_before_the_minimum_voting_period_is_over() {
    let mut state = module(InstantiateMsg {
        min_voting_period: Some(Duration::Time(50)),
        ..settings()
    });
    let id = propose(&mut state, 17);
    assert_eq!(cast(&mut state, 1001, "ekez", id, 0, 9), Ok(Status::Open));
    assert_eq!(status_at(&state, 1049, id), Status::Open);
    assert_eq!(status_at(&state, 1050, id), Status::Passed);
    assert_eq!(
        execute_execute(&mut state, &at(20, 1049), &from("ekez"), id, 9).unwrap_err(),
        ContractError::NotPassed {}
    );
    assert!(execute_execute(&mut state, &at(20, 1050), &from("ekez"), id, 9).is_ok());
}

#[test]
fn a_vote_is_refused_for_each_reason_in_turn() {
    let mut state = module(settings());
    let id = propose(&mut state, 17);
    assert_eq!(
        cast(&mut state, 1001, "ekez", 2, 9, 0),
        Err(ContractError::NoSuchProposal { id: 2 })
    );
    assert_eq!(
        cast(&mut state, 1001, "ekez", 0, 0, 9),
        Err(ContractError::NoSuchProposal { id: 0 })
    );
    // An option that does not exist comes before everything else.
    assert_eq!(
        cast(&mut state, 2000, "ekez", id, 3, 0),
        Err(ContractError::InvalidVote {})
    );
    assert_eq!(
        cast(&mut state, 2000, "ekez", id, 2, 0),
        Err(ContractError::NotOpen { id })
    );
    assert_eq!(
        cast(&mut state, 1001, "stranger", id, 0, 0),
        Err(ContractError::NotRegistered {})
    );
    assert_eq!(cast(&mut state, 1001, "keze", id, 1, 8), Ok(Status::Open));
    assert_eq!(
        cast(&mut state, 1002, "keze", id, 0, 8),
        Err(ContractError::AlreadyVoted {})
    );
    assert_eq!(
        cast(&mut state, 1002, "keze", id, 1, 8),
        Err(ContractError::AlreadyVoted {})
    );
    assert_eq!(tally(&state, id), vec![0, 8, 0]);
}

#[test]
fn a_tally_beyond_128_bits_is_refused() {
    let mut state = module(InstantiateMsg {
        allow_revoting: true,
        ..settings()
    });
    let id = propose(&mut state, u128::MAX);
    assert_eq!(
        cast(&mut state, 1001, "a", id, 0, u128::MAX - 5),
        Ok(Status::Open)
    );
    assert_eq!(
        cast(&mut state, 1002, "b", id, 1, 6),
        Err(ContractError::Overflow {})
    );
    assert_eq!(cast(&mut state, 1002, "b", id, 1, 5), Ok(Status::Open));
    // A voter who votes again frees their earlier weight first.
    assert_eq!(
        cast(&mut state, 1003, "b", id, 2, 6),
        Err(ContractError::Overflow {})
    );
    assert_eq!(cast(&mut state, 1003, "b", id, 2, 5), Ok(Status::Open));
    assert_eq!(tally(&state, id), vec![u128::MAX - 5, 0, 5]);
}

fn ballots_total(state: &State, id: u64) -> u128 {
    query_list_votes(state, id, None, None)
        .votes
        .iter()
        .map(|v| v.power)
        .sum()
}

#[test]
fn revoting_moves_weight_and_counts_it_once() {
    let mut state = module(InstantiateMsg {
        allow_revoting: true,
        ..settings()
    });
    let id = propose(&mut state, 17);
    assert_eq!(cast(&mut state, 1001, "ekez", id, 0, 9), Ok(Status::Open));
    assert_eq!(cast(&mut state, 1002, "keze", id, 1, 8), Ok(Status::Open));
    assert_eq!(tally(&state, id), vec![9, 8, 0]);
    assert_eq!(ballots_total(&state, id), 17);

    assert_eq!(
        cast(&mut state, 1003, "ekez", id, 0, 9),
        Err(ContractError::AlreadyCast {})
    );
    assert_eq!(cast(&mut state, 1003, "ekez", id, 1, 9), Ok(Status::Open));
    assert_eq!(tally(&state, id), vec![0, 17, 0]);
    assert_eq!(ballots_total(&state, id), 17);
    assert_eq!(
        query_vote(&state, id, &Addr::unchecked("ekez"))
            .vote
            .unwrap()
            .vote,
        MultipleChoiceVote { option_id: 1 }
    );

    // The weight of a voter may differ from one vote to the next.
    assert_eq!(cast(&mut state, 1004, "ekez", id, 2, 4), Ok(Status::Open));
    assert_eq!(tally(&state, id), vec![0, 8, 4]);
    assert_eq!(ballots_total(&state, id), 12);
    assert_eq!(cast(&mut state, 1005, "keze", id, 2, 8), Ok(Status::Open));
    assert_eq!(tally(&state, id), vec![0, 0, 12]);
    assert_eq!(ballots_total(&state, id), 12);
    assert_eq!(query_list_votes(&state, id, None, None).votes.len(), 2);

    // While votes can change nothing is decided; at the end it is.
    assert_eq!(status_at(&state, 1099, id), Status::Open);
    assert_eq!(status_at(&state, 1100, id), Status::Rejected);
}

#[test]
fn no_vote_is_taken_once_a_proposal_is_settled() {
    // Executed.
    let mut state = module(InstantiateMsg {
        allow_revoting: true,
        ..settings()
    });
    let id = propose(&mut state, 17);
    cast(&mut state, 1001, "ekez", id, 0, 9).unwrap();
    execute_execute(&mut state, &at(20, 1100), &from("ekez"), id, 9).unwrap();
    assert_eq!(status_at(&state, 1100, id), Status::Executed);
    for seconds in [1001, 1100, 5000] {
        assert_eq!(
            cast(&mut state, seconds, "keze", id, 1, 8),
            Err(ContractError::NotOpen { id })
        );
        assert_eq!(
            cast(&mut state, seconds, "ekez", id, 1, 9),
            Err(ContractError::NotOpen { id })
        );
    }
    assert_eq!(tally(&state, id), vec![9, 0, 0]);

    // Found to have failed.
    reply(
        &mut state,
        &at(21, 1101),
        Reply {
            id: mask_proposal_execution_proposal_id(id),
        },
    )
    .unwrap();
    assert_eq!(status_at(&state, 1101, id), Status::ExecutionFailed);
    assert_eq!(
        cast(&mut state, 1001, "keze", id, 1, 8),
        Err(ContractError::NotOpen { id })
    );

    // Closed.
    let second = propose(&mut state, 17);
    execute_close(&mut state, &at(20, 1100), &from("anyone"), second).unwrap();
    assert_eq!(status_at(&state, 1100, second), Status::Closed);
    assert_eq!(
        cast(&mut state, 1001, "keze", second, 1, 8),
        Err(ContractError::NotOpen { id: second })
    );
}

#[test]
fn a_tie_is_never_executed() {
    let mut state = module(settings());
    let id = propose(&mut state, 20);
    // Nobody has voted: all choices are level at nothing.
    assert_eq!(
        execute_execute(&mut state, &at(20, 1001), &from("a"), id, 7).unwrap_err(),
        ContractError::Tie {}
    );
    assert_eq!(cast(&mut state, 1001, "a", id, 0, 7), Ok(Status::Open));
    assert_eq!(
        execute_execute(&mut state, &at(20, 1001), &from("a"), id, 7).unwrap_err(),
        ContractError::NotPassed {}
    );
    assert_eq!(cast(&mut state, 1002, "b", id, 1, 7), Ok(Status::Open));
    assert_eq!(tally(&state, id), vec![7, 7, 0]);
    for seconds in [1003, 1050, 1099] {
        assert_eq!(
            execute_execute(&mut state, &at(20, seconds), &from("a"), id, 7).unwrap_err(),
            ContractError::Tie {}
        );
        assert_eq!(status_at(&state, seconds, id), Status::Open);
        assert_eq!(
            execute_close(&mut state, &at(20, seconds), &from("a"), id).unwrap_err(),
            ContractError::WrongCloseStatus {}
        );
    }
    // At the end of voting the tie rejects the proposal.
    for seconds in [1100, 1101, 9999] {
        assert_eq!(status_at(&state, seconds, id), Status::Rejected);
        assert_eq!(
            execute_execute(&mut state, &at(20, seconds), &from("a"), id, 7).unwrap_err(),
            ContractError::NotPassed {}
        );
    }
    assert!(execute_close(&mut state, &at(20, 1100), &from("a"), id).is_ok());
    assert_eq!(status_at(&state, 1100, id), Status::Closed);
    assert_eq!(
        execute_execute(&mut state, &at(20, 1100), &from("a"), id, 7).unwrap_err(),
        ContractError::NotPassed {}
    );
    assert_eq!(tally(&state, id), vec![7, 7, 0]);
}

#[test]
fn a_tie_keeps_the_proposal_open_until_voting_ends() {
    let mut state = module(settings());
    let id = propose(&mut state, 10);
    assert_eq!(cast(&mut state, 1001, "a", id, 0, 5), Ok(Status::Open));
    // All voting power has voted and the lead is tied: nothing can change
    // any more, and still no winner is picked and nothing is decided
    // before time.
    assert_eq!(cast(&mut state, 1002, "b", id, 1, 5), Ok(Status::Open));
    assert_eq!(status_at(&state, 1099, id), Status::Open);
    assert_eq!(status_at(&state, 1100, id), Status::Rejected);
}

#[test]
fn the_sender_is_turned_away_before_a_tie_is_looked_at() {
    let mut state = module(InstantiateMsg {
        only_members_execute: true,
        ..settings()
    });
    let id = propose(&mut state, 10);
    assert_eq!(
        execute_execute(&mut state, &at(20, 1001), &from("stranger"), id, 0).unwrap_err(),
        ContractError::Unauthorized {}
    );
    assert_eq!(
        execute_execute(&mut state, &at(20, 1001), &from("a"), id, 5).unwrap_err(),
        ContractError::Tie {}
    );
}

fn crafted(status: Status, weights: Vec<u128>) -> MultipleChoiceProposal {
    MultipleChoiceProposal {
        title: "title".to_string(),
        description: "description".to_string(),
        proposer: Addr::unchecked("proposer"),
        start_height: 10,
        min_voting_period: None,
        expiration: Expiration::AtHeight(100),
        choices: vec![
            CheckedMultipleChoiceOption {
                index: 0,
                option_type: MultipleChoiceOptionType::Standard,
                description: "a".to_string(),
                msgs: None,
            },
            CheckedMultipleChoiceOption {
                index: 1,
                option_type: MultipleChoiceOptionType::Standard,
                description: "b".to_string(),
                msgs: None,
            },
            CheckedMultipleChoiceOption {
                index: 2,
                option_type: MultipleChoiceOptionType::NoneOfTheAbove,
                description: "None of the above".to_string(),
                msgs: None,
            },
        ],
        status,
        voting_strategy: VotingStrategy::SingleChoice {
            quorum: PercentageThreshold::Majority {},
        },
        total_power: 100,
        votes: MultipleChoiceVotes {
            vote_weights: weights,
        },
        allow_revoting: false,
        deposit_info: None,
        created: Timestamp::from_seconds(1000),
        last_updated: Timestamp::from_seconds(1000),
    }
}

#[test]
fn a_record_that_claims_to_have_passed_with_a_tie_reports_the_tie() {
    let now = BlockInfo {
        height: 50,
        time: Timestamp::from_seconds(2000),
    };
    let mut tied = crafted(Status::Passed, vec![30, 30, 5]);
    assert_eq!(tied.calculate_vote_result(), VoteResult::Tie);
    assert_eq!(tied.leader(), None);
    assert_eq!(tied.execute(&now), Err(ContractError::Tie {}));
    assert_eq!(tied.status, Status::Passed);
    assert_eq!(tied.last_updated, Timestamp::from_seconds(1000));

    let mut undecided = crafted(Status::Open, vec![30, 30, 5]);
    assert_eq!(undecided.execute(&now), Err(ContractError::Tie {}));
    let late = BlockInfo {
        height: 100,
        time: Timestamp::from_seconds(2000),
    };
    assert_eq!(undecided.execute(&late), Err(ContractError::NotPassed {}));
    assert_eq!(undecided.status, Status::Open);
    for written in [
        Status::Rejected,
        Status::Executed,
        Status::Closed,
        Status::ExecutionFailed,
    ] {
        let mut settled = crafted(written, vec![30, 30, 5]);
        assert_eq!(settled.execute(&now), Err(ContractError::NotPassed {}));
        assert_eq!(settled.status, written);
    }
    let mut behind = crafted(Status::Open, vec![30, 31, 5]);
    assert_eq!(behind.execute(&now), Err(ContractError::NotPassed {}));

    let mut won = crafted(Status::Passed, vec![30, 31, 5]);
    assert_eq!(won.leader(), Some(1));
    match won.calculate_vote_result() {
        VoteResult::SingleWinner(choice) => assert_eq!(choice.index, 1),
        VoteResult::Tie => panic!("a lead of one is no tie"),
    }
    assert_eq!(won.execute(&now), Ok(1));
    assert_eq!(won.status, Status::Executed);
    assert_eq!(won.last_updated, Timestamp::from_seconds(2000));
}

#[test]
fn the_status_follows_from_tally_and_time() {
    let early = BlockInfo {
        height: 50,
        time: Timestamp::from_seconds(2000),
    };
    let late = BlockInfo {
        height: 100,
        time: Timestamp::from_seconds(2000),
    };
    // Quorum met, a leads by more than what remains.
    let p = crafted(Status::Open, vec![60, 10, 0]);
    assert!(p.is_passed(&early));
    assert!(!p.is_rejected(&early));
    assert_eq!(p.current_status(&early), Status::Passed);
    // Quorum met, a leads, but the 35 that remain could overtake.
    let p = crafted(Status::Open, vec![40, 25, 0]);
    assert_eq!(p.current_status(&early), Status::Open);
    assert_eq!(p.current_status(&late), Status::Passed);
    // A lead of exactly what remains is not enough for a standard choice.
    let p = crafted(Status::Open, vec![50, 20, 0]);
    assert_eq!(p.current_status(&early), Status::Open);
    let p = crafted(Status::Open, vec![51, 20, 0]);
    assert_eq!(p.current_status(&early), Status::Passed);
    // None of the above leads: rejected once it cannot be overtaken.
    let p = crafted(Status::Open, vec![0, 20, 50]);
    assert_eq!(p.current_status(&early), Status::Rejected);
    let p = crafted(Status::Open, vec![0, 20, 49]);
    assert_eq!(p.current_status(&early), Status::Open);
    assert_eq!(p.current_status(&late), Status::Rejected);
    // No quorum.
    let p = crafted(Status::Open, vec![30, 10, 0]);
    assert_eq!(p.current_status(&early), Status::Open);
    assert_eq!(p.current_status(&late), Status::Rejected);
    // A tie.
    let p = crafted(Status::Open, vec![30, 30, 0]);
    assert_eq!(p.current_status(&early), Status::Open);
    assert_eq!(p.current_status(&late), Status::Rejected);
    let p = crafted(Status::Open, vec![50, 50, 0]);
    assert_eq!(p.current_status(&early), Status::Open);
    assert!(!p.is_rejected(&early));
    assert!(p.is_rejected(&late));
    assert_eq!(p.current_status(&late), Status::Rejected);
    // Nobody voted.
    let p = crafted(Status::Open, vec![0, 0, 0]);
    assert_eq!(p.current_status(&early), Status::Open);
    assert_eq!(p.current_status(&late), Status::Rejected);
    // A status that was written stands.
    for written in [
        Status::Rejected,
        Status::Passed,
        Status::Executed,
        Status::Closed,
        Status::ExecutionFailed,
    ] {
        let p = crafted(written, vec![60, 10, 0]);
        assert_eq!(p.current_status(&early), written);
        assert_eq!(p.current_status(&late), written);
        let p = crafted(written, vec![0, 0, 0]);
        assert_eq!(p.current_status(&late), written);
    }
}

#[test]
fn a_record_takes_votes_and_closes() {
    let early = BlockInfo {
        height: 50,
        time: Timestamp::from_seconds(2000),
    };
    let late = BlockInfo {
        height: 100,
        time: Timestamp::from_seconds(3000),
    };
    let mut p = crafted(Status::Open, vec![10, 0, 0]);
    assert_eq!(
        p.cast_vote(
            7,
            &early,
            MultipleChoiceVote { option_id: 1 },
            20,
            None
        ),
        Ok(Ballot {
            power: 20,
            vote: MultipleChoiceVote { option_id: 1 }
        })
    );
    assert_eq!(p.votes.vote_weights, vec![10, 20, 0]);
    assert_eq!(p.status, Status::Open);
    assert_eq!(
        p.cast_vote(7, &late, MultipleChoiceVote { option_id: 1 }, 20, None),
        Err(ContractError::NotOpen { id: 7 })
    );
    assert_eq!(p.close(&early), Err(ContractError::WrongCloseStatus {}));
    assert_eq!(p.status, Status::Open);
    assert_eq!(p.close(&late), Ok(()));
    assert_eq!(p.status, Status::Closed);
    assert_eq!(p.last_updated, Timestamp::from_seconds(3000));
    p.fail_execution(&late);
    assert_eq!(p.status, Status::ExecutionFailed);
}

fn propose_with_messages(
    state: &mut State,
    msgs: Option<Vec<CosmosMsg<Empty>>>,
    total: u128,
) -> u64 {
    execute_propose(
        state,
        &at(10, 1000),
        Addr::unchecked("proposer"),
        "title".to_string(),
        "description".to_string(),
        MultipleChoiceOptions {
            options: vec![
                MultipleChoiceOption {
                    description: "pay".to_string(),
                    msgs,
                },
                MultipleChoiceOption {
                    description: "wait".to_string(),
                    msgs: Some(vec![send(99)]),
                },
            ],
        },
        None,
        1,
        total,
        100,
    )
    .unwrap();
    query_proposal_count(state)
}

#[test]
fn the_messages_of_the_winning_choice_go_to_the_dao() {
    let mut state = module(settings());
    let id = propose_with_messages(&mut state, Some(vec![send(1), send(2)]), 17);
    cast(&mut state, 1001, "ekez", id, 0, 9).unwrap();
    let response = execute_execute(&mut state, &at(20, 1010), &from("keze"), id, 8).unwrap();
    assert_eq!(
        response.messages,
        vec![SubMsg::ExecuteProposalHook {
            dao: Addr::unchecked(THE_DAO),
            msgs: vec![send(1), send(2)],
            reply_id: None,
        }]
    );
    assert_eq!(
        response.event,
        Event::Execute {
            sender: Addr::unchecked("keze"),
            proposal_id: id,
            dao: Addr::unchecked(THE_DAO),
        }
    );
    let stored = query_proposal(&state, &at(20, 1010), id).unwrap().proposal;
    assert_eq!(stored.status, Status::Executed);
    assert_eq!(stored.last_updated, Timestamp::from_seconds(1010));
    // A second execution is refused.
    assert_eq!(
        execute_execute(&mut state, &at(20, 1011), &from("keze"), id, 8).unwrap_err(),
        ContractError::NotPassed {}
    );
}

#[test]
fn messages_that_may_fail_are_run_apart_under_the_id_of_the_proposal() {
    let mut state = module(InstantiateMsg {
        close_proposal_on_execution_failure: true,
        ..settings()
    });
    propose(&mut state, 17);
    let id = propose_with_messages(&mut state, Some(vec![send(1)]), 17);
    assert_eq!(id, 2);
    cast(&mut state, 1001, "ekez", id, 0, 9).unwrap();
    let response = execute_execute(&mut state, &at(20, 1010), &from("ekez"), id, 9).unwrap();
    assert_eq!(
        response.messages,
        vec![SubMsg::ExecuteProposalHook {
            dao: Addr::unchecked(THE_DAO),
            msgs: vec![send(1)],
            reply_id: Some(16),
        }]
    );
    // The failure is reported and the proposal marked; the other is not
    // touched.
    let answer = reply(&mut state, &at(21, 1020), Reply { id: 16 }).unwrap();
    assert_eq!(
        answer.event,
        Event::ProposalExecutionFailed { proposal_id: 2 }
    );
    assert_eq!(answer.messages, vec![]);
    let failed = query_proposal(&state, &at(21, 1020), 2).unwrap().proposal;
    assert_eq!(failed.status, Status::ExecutionFailed);
    assert_eq!(failed.last_updated, Timestamp::from_seconds(1020));
    assert_eq!(status_at(&state, 1020, 1), Status::Open);
    // A report for a proposal that does not exist is refused.
    assert_eq!(
        reply(&mut state, &at(21, 1020), Reply { id: 24 }).unwrap_err(),
        ContractError::NoSuchProposal { id: 3 }
    );
}

#[test]
fn a_winning_choice_without_messages_asks_for_nothing() {
    for msgs in [None, Some(vec![])] {
        let mut state = module(settings());
        let id = propose_with_messages(&mut state, msgs, 17);
        cast(&mut state, 1001, "ekez", id, 0, 9).unwrap();
        let response = execute_execute(&mut state, &at(20, 1010), &from("ekez"), id, 9).unwrap();
        assert_eq!(response.messages, vec![]);
        assert_eq!(status_at(&state, 1010, id), Status::Executed);
    }
}

#[test]
fn only_members_execute_where_the_module_says_so() {
    let mut state = module(InstantiateMsg {
        only_members_execute: true,
        ..settings()
    });
    let id = propose(&mut state, 17);
    cast(&mut state, 1001, "ekez", id, 0, 9).unwrap();
    assert_eq!(
        execute_execute(&mut state, &at(20, 1010), &from("stranger"), id, 0).unwrap_err(),
        ContractError::Unauthorized {}
    );
    // The sender is turned away before the proposal is looked for.
    assert_eq!(
        execute_execute(&mut state, &at(20, 1010), &from("stranger"), 9, 0).unwrap_err(),
        ContractError::Unauthorized {}
    );
    assert_eq!(
        execute_execute(&mut state, &at(20, 1010), &from("keze"), 9, 8).unwrap_err(),
        ContractError::NoSuchProposal { id: 9 }
    );
    assert_eq!(status_at(&state, 1010, id), Status::Passed);
    assert!(execute_execute(&mut state, &at(20, 1010), &from("keze"), id, 8).is_ok());
}

#[test]
fn only_a_rejected_proposal_is_closed() {
    let mut state = module(settings());
    let open = propose(&mut state, 17);
    let passed = propose(&mut state, 17);
    cast(&mut state, 1001, "ekez", passed, 0, 9).unwrap();
    assert_eq!(
        execute_close(&mut state, &at(20, 1010), &from("ekez"), open).unwrap_err(),
        ContractError::WrongCloseStatus {}
    );
    assert_eq!(
        execute_close(&mut state, &at(20, 1010), &from("ekez"), passed).unwrap_err(),
        ContractError::WrongCloseStatus {}
    );
    assert_eq!(
        execute_close(&mut state, &at(20, 1010), &from("ekez"), 3).unwrap_err(),
        ContractError::NoSuchProposal { id: 3 }
    );
    let response = execute_close(&mut state, &at(20, 1100), &from("ekez"), open).unwrap();
    assert_eq!(
        response.event,
        Event::Close {
            sender: Addr::unchecked("ekez"),
            proposal_id: open
        }
    );
    assert_eq!(response.messages, vec![]);
    let closed = query_proposal(&state, &at(20, 1100), open).unwrap().proposal;
    assert_eq!(closed.status, Status::Closed);
    assert_eq!(closed.last_updated, Timestamp::from_seconds(1100));
    assert_eq!(
        execute_close(&mut state, &at(20, 1100), &from("ekez"), open).unwrap_err(),
        ContractError::WrongCloseStatus {}
    );
    execute_execute(&mut state, &at(20, 1100), &from("ekez"), passed, 9).unwrap();
    assert_eq!(
        execute_close(&mut state, &at(20, 1100), &from("ekez"), passed).unwrap_err(),
        ContractError::WrongCloseStatus {}
    );
}
