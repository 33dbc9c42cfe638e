use dao_governance::addr::Addr;
use dao_governance::admin::instantiate;
use dao_governance::audit::is_consistent;
use dao_governance::ballots::Ballots;
use dao_governance::ballots::VoteInfo;
use dao_governance::contract::execute_propose;
use dao_governance::contract::execute_vote;
use dao_governance::deposit::CheckedDenom;
use dao_governance::deposit::CheckedDepositInfo;
use dao_governance::deposit::DepositRefundPolicy;
use dao_governance::expiration::BlockInfo;
use dao_governance::expiration::Duration;
use dao_governance::expiration::Timestamp;
use dao_governance::hooks::Hooks;
use dao_governance::msg::InstantiateMsg;
use dao_governance::named_groups::dump;
use dao_governance::named_groups::Group;
use dao_governance::named_groups::Membership;
use dao_governance::proposal::MultipleChoiceOption;
use dao_governance::proposal::MultipleChoiceOptionType;
use dao_governance::proposal::MultipleChoiceOptions;
use dao_governance::state::ContractInfo;
use dao_governance::state::Env;
use dao_governance::state::MessageInfo;
use dao_governance::state::State;
use dao_governance::status::Status;
use dao_governance::threshold::Decimal;
use dao_governance::threshold::PercentageThreshold;
use dao_governance::voting::MultipleChoiceVote;
use dao_governance::voting::MultipleChoiceVotes;
use dao_governance::voting::VotingStrategy;

fn moment(seconds: u64) -> Env {
    Env {
        block: BlockInfo {
            height: 10,
            time: Timestamp::from_seconds(seconds),
        },
        contract: ContractInfo {
            address: Addr::unchecked("module"),
        },
    }
}

/// A module with one proposal on which `b` has put 3 behind the first
/// choice and `d` 4 behind the second.
fn sound_state() -> State {
    let msg = InstantiateMsg {
        voting_strategy: VotingStrategy::SingleChoice {
            quorum: PercentageThreshold::Majority {},
        },
        max_voting_period: Duration::Time(100),
        min_voting_period: None,
        only_members_execute: false,
        allow_revoting: false,
        deposit_info: None,
        close_proposal_on_execution_failure: false,
        open_proposal_submission: true,
    };
    let (mut state, _) = instantiate(
        MessageInfo {
            sender: Addr::unchecked("dao"),
        },
        msg,
        None,
    )
    .unwrap();
    execute_propose(
        &mut state,
        &moment(1000),
        Addr::unchecked("proposer"),
        "title".to_string(),
        "description".to_string(),
        MultipleChoiceOptions {
            options: vec![
                MultipleChoiceOption {
                    description: "a".to_string(),
                    msgs: None,
                },
                MultipleChoiceOption {
                    description: "b".to_string(),
                    msgs: None,
                },
            ],
        },
        None,
        0,
        100,
        10,
    )
    .unwrap();
    for (voter, option_id, power) in [("d", 1, 4), ("b", 0, 3)] {
        execute_vote(
            &mut state,
            &moment(1001),
            &MessageInfo {
                sender: Addr::unchecked(voter),
            },
            1,
            MultipleChoiceVote { option_id },
            power,
        )
        .unwrap();
    }
    state
}

#[test]
fn what_the_operations_leave_behind_is_well_formed() {
    let state = sound_state();
    assert!(state.is_well_formed());
    assert!(state.config.is_valid());
    assert!(state.proposals[0].is_well_formed());
    assert!(state.proposals[0].votes.is_well_formed());
    assert!(state.ballots[0].is_sorted());
    assert!(state.ballots[0].tally_is(&state.proposals[0].votes));
    assert!(is_consistent(&state.proposals[0], &state.ballots[0]));
    assert!(state.proposal_hooks.is_distinct());
    assert_eq!(
        state.ballots[0].votes.iter().map(|v| v.voter.as_str()).collect::<Vec<&str>>(),
        vec!["b", "d"]
    );
}

#[test]
fn settings_that_would_not_be_accepted_are_not_admitted() {
    let mut state = sound_state();
    state.config.voting_strategy = VotingStrategy::SingleChoice {
        quorum: PercentageThreshold::Percent(Decimal::percent(101)),
    };
    assert!(!state.is_well_formed());

    let mut state = sound_state();
    state.config.min_voting_period = Some(Duration::Time(101));
    assert!(!state.is_well_formed());
    state.config.min_voting_period = Some(Duration::Height(1));
    assert!(!state.is_well_formed());
    state.config.min_voting_period = Some(Duration::Time(100));
    assert!(state.is_well_formed());

    let mut state = sound_state();
    state.config.deposit_info = Some(CheckedDepositInfo {
        denom: CheckedDenom::Native("ujuno".to_string()),
        amount: 0,
        refund_policy: DepositRefundPolicy::Always,
    });
    assert!(!state.is_well_formed());
    state.config.deposit_info = Some(CheckedDepositInfo {
        denom: CheckedDenom::Native("ujuno".to_string()),
        amount: 1,
        refund_policy: DepositRefundPolicy::Always,
    });
    assert!(state.is_well_formed());
}

#[test]
fn a_tally_that_is_not_that_of_the_ballots_is_not_admitted() {
    let mut state = sound_state();
    state.proposals[0].votes.vote_weights[0] = 4;
    assert!(!state.is_well_formed());

    let mut state = sound_state();
    state.proposals[0].votes.vote_weights[2] = 1;
    assert!(!state.is_well_formed());

    let mut state = sound_state();
    state.ballots[0].votes[0].power = 2;
    assert!(!state.is_well_formed());

    let mut state = sound_state();
    state.ballots[0].votes[0].vote = MultipleChoiceVote { option_id: 3 };
    assert!(!state.is_well_formed());

    let mut state = sound_state();
    state.ballots[0].votes.pop();
    assert!(!state.is_well_formed());

    // A weight so large that the ballots cannot add up to it.
    let mut state = sound_state();
    state.ballots[0].votes[0].power = u128::MAX;
    state.ballots[0].votes[1] = VoteInfo {
        voter: Addr::unchecked("d"),
        vote: MultipleChoiceVote { option_id: 0 },
        power: u128::MAX,
    };
    assert!(!state.is_well_formed());
}

#[test]
fn ballots_out_of_order_or_twice_for_one_voter_are_not_admitted() {
    let mut state = sound_state();
    state.ballots[0].votes.swap(0, 1);
    assert!(!state.ballots[0].is_sorted());
    assert!(state.ballots[0].tally_is(&state.proposals[0].votes));
    assert!(!state.is_well_formed());

    let mut state = sound_state();
    state.ballots[0].votes[1].voter = Addr::unchecked("b");
    assert!(!state.ballots[0].is_sorted());
    assert!(!state.is_well_formed());

    assert!(Ballots { votes: vec![] }.is_sorted());
}

#[test]
fn a_malformed_proposal_is_not_admitted() {
    let mut state = sound_state();
    state.proposals[0].choices[1].index = 2;
    assert!(!state.is_well_formed());

    let mut state = sound_state();
    state.proposals[0].choices[2].option_type = MultipleChoiceOptionType::Standard;
    assert!(!state.is_well_formed());

    let mut state = sound_state();
    state.proposals[0].choices[0].option_type = MultipleChoiceOptionType::NoneOfTheAbove;
    assert!(!state.is_well_formed());

    let mut state = sound_state();
    state.proposals[0].choices.pop();
    assert!(!state.is_well_formed());

    let mut state = sound_state();
    state.proposals[0].votes.vote_weights.push(0);
    assert!(!state.is_well_formed());

    let mut state = sound_state();
    state.ballots.push(Ballots::new());
    assert!(!state.is_well_formed());

    assert!(!MultipleChoiceVotes {
        vote_weights: vec![u128::MAX, 1]
    }
    .is_well_formed());
    assert!(MultipleChoiceVotes {
        vote_weights: vec![u128::MAX, 0]
    }
    .is_well_formed());
}

#[test]
fn a_proposal_that_passed_without_a_leader_is_not_admitted() {
    let mut state = sound_state();
    state.proposals[0].status = Status::Passed;
    assert!(state.is_well_formed());
    state.proposals[0].status = Status::Executed;
    assert!(state.is_well_formed());

    // Make it a tie of 4 against 4.
    state.proposals[0].votes.vote_weights[0] = 4;
    state.ballots[0].votes[0].power = 4;
    assert!(!state.is_well_formed());
    state.proposals[0].status = Status::Passed;
    assert!(!state.is_well_formed());
    for status in [
        Status::Open,
        Status::Rejected,
        Status::Closed,
        Status::ExecutionFailed,
    ] {
        state.proposals[0].status = status;
        assert!(state.is_well_formed());
    }
}

#[test]
fn a_subscriber_listed_twice_is_not_admitted() {
    let mut state = sound_state();
    state.vote_hooks = Hooks {
        hooks: vec![
            Addr::unchecked("one"),
            Addr::unchecked("two"),
            Addr::unchecked("one"),
        ],
    };
    assert!(!state.vote_hooks.is_distinct());
    assert!(!state.is_well_formed());
    state.vote_hooks.hooks.pop();
    assert!(state.is_well_formed());
    state.proposal_hooks = Hooks {
        hooks: vec![Addr::unchecked("one"), Addr::unchecked("one")],
    };
    assert!(!state.is_well_formed());
}

fn entry(group: &str, address: &str) -> Membership {
    Membership {
        group: group.to_string(),
        address: Addr::unchecked(address),
    }
}

#[test]
fn entries_are_grouped_in_the_order_in_which_groups_first_occur() {
    let entries = vec![
        entry("devs", "alice"),
        entry("devs", "bob"),
        entry("ops", "carol"),
        entry("devs", "dave"),
        entry("art", "erin"),
        entry("ops", "alice"),
    ];
    assert_eq!(
        dump(&entries).groups,
        vec![
            Group {
                name: "devs".to_string(),
                addresses: vec!["alice".to_string(), "bob".to_string(), "dave".to_string()],
            },
            Group {
                name: "ops".to_string(),
                addresses: vec!["carol".to_string(), "alice".to_string()],
            },
            Group {
                name: "art".to_string(),
                addresses: vec!["erin".to_string()],
            },
        ]
    );
    assert_eq!(dump(&vec![]).groups, vec![]);
}
