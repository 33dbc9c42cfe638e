//! What holds of the module's data at all times, and so of every history
//! of operations: each operation asks for well-formed data and leaves
//! well-formed data behind.

use crate::addr::Addr;
use crate::ballots::ballots_total;
use crate::contract::close_response;
use crate::contract::drafted;
use crate::contract::execute_response;
use crate::contract::propose_response;
use crate::contract::winning_requests;
use crate::deposit::deposit_msgs;
use crate::deposit::lemma_deposit_round_trip;
use crate::deposit::net_gain;
use crate::deposit::settlement_msgs;
use crate::deposit::DepositMsgView;
use crate::deposit::DepositRefundPolicy;
use crate::proposal::OptionView;
use crate::response::deposit_requests;
use crate::response::proposal_hook_requests;
use crate::response::SubMsgView;
use crate::ballots::lemma_tally_conserved;
use crate::contract::execute_refusal;
use crate::contract::vote_refusal;
use crate::dispatch::Host;
use crate::dispatch::message_outcome;
use crate::dispatch::reply_outcome;
use crate::error::ContractError;
use crate::expiration::BlockInfo;
use crate::lifecycle::lemma_no_vote_once_settled;
use crate::lifecycle::lemma_tie_is_never_executed;
use crate::model::sum;
use crate::msg::ExecuteMsg;
use crate::proposal::ProposalView;
use crate::proposal::has_winner;
use crate::response::Response;
use crate::state::Env;
use crate::state::StateView;
use crate::status::Status;
use crate::voting::MultipleChoiceVote;
use vstd::prelude::*;

verus! {

/// Weight is conserved: the weights behind the choices of a proposal add
/// up to the weights of the ballots cast on it, of which each voter has
/// one, the last that the voter cast. A voter who votes again is counted
/// once.
pub proof fn lemma_weight_is_conserved(s: StateView, id: u64)
    requires
        s.wf(),
        s.has_proposal(id),
    ensures
        sum(s.proposal(id).votes) == ballots_total(s.ballots_on(id)),
        crate::ballots::sorted(s.ballots_on(id)),
{
    assert(crate::state::consistent(s.proposals[id - 1], s.ballots[id - 1]));
    lemma_tally_conserved(s.proposal(id).votes, s.ballots_on(id));
}

/// A vote that is taken changes the total of the tally by the weight of
/// the vote, less the weight of the ballot that the voter had cast before:
/// a voter who votes again is counted once, with the weight of the last
/// vote. Afterwards the voter has the new ballot and every other voter the
/// ballot they had, and the tally again adds up to the ballots.
pub proof fn lemma_revote_counts_once(
    s: StateView,
    block: BlockInfo,
    sender: Seq<char>,
    id: u64,
    vote: MultipleChoiceVote,
    power: u128,
)
    requires
        s.wf(),
        vote_refusal(s, block, sender, id, vote, power) is None,
    ensures
        ({
            let after = crate::contract::state_after_vote(s, block, sender, id, vote, power);
            let before = crate::ballots::ballot_of(s.ballots_on(id), sender);
            &&& sum(after.proposal(id).votes) == sum(s.proposal(id).votes)
                - crate::lifecycle::withdrawn(before) + power
            &&& sum(after.proposal(id).votes) == ballots_total(after.ballots_on(id))
            &&& crate::ballots::ballot_of(after.ballots_on(id), sender) == Some(
                crate::lifecycle::Ballot { power, vote },
            )
            &&& forall|other: Seq<char>|
                other != sender ==> #[trigger] crate::ballots::ballot_of(
                    after.ballots_on(id),
                    other,
                ) == crate::ballots::ballot_of(s.ballots_on(id), other)
        }),
{
    let after = crate::contract::state_after_vote(s, block, sender, id, vote, power);
    let p = s.proposal(id);
    let b = s.ballots_on(id);
    let info = crate::ballots::VoteInfoView { voter: sender, vote, power };
    assert(crate::state::consistent(s.proposals[id - 1], s.ballots[id - 1]));
    crate::ballots::lemma_ballot_is_counted(p.votes, b, sender);
    crate::lifecycle::lemma_tally_after_vote_sum(
        p.votes,
        vote,
        power,
        crate::ballots::ballot_of(b, sender),
    );
    crate::ballots::lemma_recorded(b, info);
    crate::contract::lemma_vote_keeps_wf(s, block, sender, id, vote, power);
    lemma_weight_is_conserved(after, id);
}

/// Once a proposal has been executed, closed or found to have failed, no
/// vote on it is taken, whoever casts it and whenever; the data stays as
/// it is.
pub proof fn lemma_settled_takes_no_vote(
    s: StateView,
    block: BlockInfo,
    sender: Seq<char>,
    id: u64,
    vote: MultipleChoiceVote,
    power: u128,
)
    requires
        s.has_proposal(id),
        s.proposal(id).status.is_terminal(),
    ensures
        vote_refusal(s, block, sender, id, vote, power) is Some,
{
    lemma_no_vote_once_settled(
        s.proposal(id),
        id,
        block,
        vote,
        power,
        crate::ballots::ballot_of(s.ballots_on(id), sender),
    );
}

/// A proposal whose lead is tied has not been executed and cannot be: it
/// counts neither as passed nor as executed, and every attempt to execute
/// it is refused. Unless the sender is turned away for want of voting
/// power, the attempt is refused as a `Tie` while the proposal is open and
/// voting has not ended, and as `NotPassed` from then on, when the
/// proposal is rejected.
pub proof fn lemma_tie_blocks_execution(s: StateView, block: BlockInfo, id: u64, sender_power: u128)
    requires
        s.wf(),
        s.has_proposal(id),
        !has_winner(s.proposal(id).votes),
    ensures
        s.proposal(id).status != Status::Executed,
        s.proposal(id).status != Status::Passed,
        s.proposal(id).current_status(block) != Status::Passed,
        execute_refusal(s, block, id, sender_power) is Some,
        !(s.config.only_members_execute && sender_power == 0) ==> {
            &&& s.proposal(id).status == Status::Open && !s.proposal(id).expired(block)
                ==> execute_refusal(s, block, id, sender_power) == Some(ContractError::Tie {})
            &&& s.proposal(id).status == Status::Open && s.proposal(id).expired(block)
                ==> s.proposal(id).current_status(block) == Status::Rejected && execute_refusal(
                s,
                block,
                id,
                sender_power,
            ) == Some(ContractError::NotPassed {})
            &&& s.proposal(id).status != Status::Open ==> execute_refusal(
                s,
                block,
                id,
                sender_power,
            ) == Some(ContractError::NotPassed {})
        },
{
    assert(crate::state::consistent(s.proposals[id - 1], s.ballots[id - 1]));
    lemma_tie_is_never_executed(s.proposal(id), block);
}

/// What of a proposal no operation changes: all but its tally, its status
/// and the time at which the status was last written. In particular a
/// proposal keeps the deposit policy and the voting rules with which it
/// was made.
pub open spec fn same_terms(a: ProposalView, b: ProposalView) -> bool {
    a == (ProposalView { votes: a.votes, status: a.status, last_updated: a.last_updated, ..b })
}

/// No message removes a proposal, renumbers one, or changes the terms on
/// which one was made, whatever becomes of the settings of the module.
pub proof fn lemma_proposals_are_kept(
    pre: StateView,
    post: StateView,
    r: Result<Response, ContractError>,
    env: Env,
    sender: Addr,
    msg: ExecuteMsg,
    host: Host,
    id: u64,
)
    requires
        message_outcome(pre, post, r, env, sender, msg, host),
        pre.has_proposal(id),
    ensures
        post.has_proposal(id),
        same_terms(post.proposal(id), pre.proposal(id)),
        pre.proposals.len() <= post.proposals.len() <= pre.proposals.len() + 1,
{
}

/// Nor does the report of a failure: it changes the status of one
/// proposal, or removes one subscriber.
pub proof fn lemma_reply_keeps_proposals(
    pre: StateView,
    post: StateView,
    r: Result<Response, ContractError>,
    block: BlockInfo,
    reply_id: u64,
    id: u64,
)
    requires
        pre.wf(),
        reply_outcome(pre, post, r, block, reply_id),
        pre.has_proposal(id),
    ensures
        post.has_proposal(id),
        same_terms(post.proposal(id), pre.proposal(id)),
        post.proposal(id).votes == pre.proposal(id).votes,
        post.proposals.len() == pre.proposals.len(),
        post.ballots == pre.ballots,
        post.config == pre.config,
{
    assert(post.ballots =~= pre.ballots);
}

/// The movements of deposited funds among the requests of an answer, in
/// order.
pub open spec fn deposits_in(msgs: Seq<SubMsgView>) -> Seq<DepositMsgView>
    decreases msgs.len(),
{
    if msgs.len() == 0 {
        Seq::empty()
    } else {
        match msgs.last() {
            SubMsgView::Deposit(m) => deposits_in(msgs.drop_last()).push(m),
            _ => deposits_in(msgs.drop_last()),
        }
    }
}

proof fn lemma_deposits_in_add(a: Seq<SubMsgView>, b: Seq<SubMsgView>)
    ensures
        deposits_in(a + b) == deposits_in(a) + deposits_in(b),
    decreases b.len(),
{
    if b.len() == 0 {
        assert(a + b =~= a);
        assert(deposits_in(a) + deposits_in(b) =~= deposits_in(a));
    } else {
        assert((a + b).drop_last() =~= a + b.drop_last());
        assert((a + b).last() == b.last());
        lemma_deposits_in_add(a, b.drop_last());
        match b.last() {
            SubMsgView::Deposit(m) => {
                assert(deposits_in(a + b) =~= deposits_in(a) + deposits_in(b));
            },
            _ => {},
        }
    }
}

proof fn lemma_deposits_in_requests(m: Seq<DepositMsgView>)
    ensures
        deposits_in(deposit_requests(m)) == m,
    decreases m.len(),
{
    if m.len() > 0 {
        assert(deposit_requests(m).drop_last() =~= deposit_requests(m.drop_last()));
        lemma_deposits_in_requests(m.drop_last());
        assert(deposits_in(deposit_requests(m)) =~= m);
    } else {
        assert(deposits_in(deposit_requests(m)) =~= m);
    }
}

proof fn lemma_no_deposits_in(msgs: Seq<SubMsgView>)
    requires
        forall|i: int| 0 <= i < msgs.len() ==> !(#[trigger] msgs[i] is Deposit),
    ensures
        deposits_in(msgs) == Seq::<DepositMsgView>::empty(),
    decreases msgs.len(),
{
    if msgs.len() > 0 {
        assert(!(msgs[msgs.len() - 1] is Deposit));
        assert forall|i: int| 0 <= i < msgs.drop_last().len() implies !(
        #[trigger] msgs.drop_last()[i] is Deposit) by {
            assert(msgs.drop_last()[i] == msgs[i]);
        }
        lemma_no_deposits_in(msgs.drop_last());
    }
}

/// What a proposal escrows when it is made is what is paid out when it is
/// settled. The one movement of funds in the answer to a proposal takes
/// the deposit of the settings then in force from the proposer; the one in
/// the answer to its execution or closing pays the same amount of the
/// same denomination out, whatever has become of the settings since. So
/// a proposer who is neither the module nor the DAO has, after the
/// proposal is executed or closed, what they had before they made it
/// under `Always`; the deposit less under `Never`; and under `OnlyPassed`
/// what they had if the proposal was executed and the deposit less if it
/// was closed. What the proposer is short of has gone to the DAO.
pub proof fn lemma_deposit_is_settled_as_escrowed(
    made_in: StateView,
    settled_in: StateView,
    block: BlockInfo,
    contract: Seq<char>,
    proposer: Seq<char>,
    title: Seq<char>,
    description: Seq<char>,
    options: Seq<OptionView>,
    total_power: u128,
    anyone: Seq<char>,
    passed: bool,
)
    requires
        made_in.config.deposit_info is Some,
        made_in.proposals.len() < u64::MAX,
        settled_in.has_proposal((made_in.proposals.len() + 1) as u64),
        same_terms(
            settled_in.proposal((made_in.proposals.len() + 1) as u64),
            drafted(made_in.config, block, proposer, title, description, options, total_power),
        ),
        proposer != contract,
        proposer != settled_in.config.dao,
        settled_in.config.dao != contract,
    ensures
        ({
            let id = (made_in.proposals.len() + 1) as u64;
            let deposit = made_in.config.deposit_info->0;
            let p = drafted(made_in.config, block, proposer, title, description, options, total_power);
            let escrow = deposits_in(propose_response(made_in, contract, proposer, p).messages);
            let settlement = deposits_in(
                if passed {
                    execute_response(settled_in, anyone, id).messages
                } else {
                    close_response(settled_in, anyone, id).messages
                },
            );
            let dao = settled_in.config.dao;
            let refunded = match deposit.refund_policy {
                DepositRefundPolicy::Always => true,
                DepositRefundPolicy::OnlyPassed => passed,
                DepositRefundPolicy::Never => false,
            };
            &&& escrow == deposit_msgs(Some(deposit), contract, proposer)
            &&& settlement == settlement_msgs(Some(deposit), passed, proposer, dao)
            &&& net_gain(escrow + settlement, proposer, deposit.denom, contract) == if refunded {
                0
            } else {
                -(deposit.amount as int)
            }
            &&& net_gain(escrow + settlement, dao, deposit.denom, contract) == if refunded {
                0
            } else {
                deposit.amount as int
            }
            &&& net_gain(escrow + settlement, contract, deposit.denom, contract) == 0
        }),
{
    let id = (made_in.proposals.len() + 1) as u64;
    let deposit = made_in.config.deposit_info->0;
    let p = drafted(made_in.config, block, proposer, title, description, options, total_power);
    let q = settled_in.proposal(id);
    let dao = settled_in.config.dao;
    assert(q.deposit_info == Some(deposit));
    assert(q.proposer == proposer);

    let taken = deposit_requests(deposit_msgs(Some(deposit), contract, proposer));
    let told = propose_response(made_in, contract, proposer, p).messages;
    lemma_deposits_in_requests(deposit_msgs(Some(deposit), contract, proposer));
    let news = crate::response::proposal_hook_requests(
        crate::hooks::proposal_dispatches(
            made_in.proposal_hooks,
            crate::hooks::ProposalHookMsgView::NewProposal { id, proposer },
        ),
    );
    lemma_no_deposits_in(news);
    lemma_deposits_in_add(taken, news);
    assert(told == taken + news);
    assert(deposits_in(told) =~= deposit_msgs(Some(deposit), contract, proposer));

    let paid = deposit_requests(settlement_msgs(Some(deposit), passed, proposer, dao));
    lemma_deposits_in_requests(settlement_msgs(Some(deposit), passed, proposer, dao));
    if passed {
        let run = winning_requests(settled_in.config, q, id);
        let heard = proposal_hook_requests(
            crate::hooks::status_changed_dispatches(
                settled_in.proposal_hooks,
                id,
                Status::Passed,
                Status::Executed,
            ),
        );
        lemma_no_deposits_in(run);
        lemma_no_deposits_in(heard);
        lemma_deposits_in_add(run, paid);
        lemma_deposits_in_add(run + paid, heard);
        assert(execute_response(settled_in, anyone, id).messages == run + paid + heard);
        assert(deposits_in(run + paid + heard) =~= settlement_msgs(
            Some(deposit),
            passed,
            proposer,
            dao,
        ));
    } else {
        let heard = proposal_hook_requests(
            crate::hooks::status_changed_dispatches(
                settled_in.proposal_hooks,
                id,
                Status::Rejected,
                Status::Closed,
            ),
        );
        lemma_no_deposits_in(heard);
        lemma_deposits_in_add(heard, paid);
        assert(close_response(settled_in, anyone, id).messages == heard + paid);
        assert(deposits_in(heard + paid) =~= settlement_msgs(
            Some(deposit),
            passed,
            proposer,
            dao,
        ));
    }
    lemma_deposit_round_trip(deposit, passed, proposer, dao, contract);
}

} // verus!
