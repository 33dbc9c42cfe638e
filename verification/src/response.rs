//! What an operation hands back to the host: the requests to carry out, in
//! order, and the event to record.

use cosmwasm_std::CosmosMsg;
use cosmwasm_std::Empty;
use crate::addr::Addr;
use crate::cosmos::clone_msgs;
use crate::deposit::DepositMsg;
use crate::deposit::DepositMsgView;
use crate::hooks::ProposalHookDispatch;
use crate::hooks::ProposalHookDispatchView;
use crate::hooks::VoteHookDispatch;
use crate::hooks::VoteHookDispatchView;
use crate::model::views;
use crate::status::Status;
use crate::voting::MultipleChoiceVote;
use vstd::prelude::*;

verus! {

/// One request to the host.
#[derive(Debug, PartialEq)]
pub enum SubMsg {
    /// A movement of deposited funds.
    Deposit(DepositMsg),
    /// The messages of a winning choice, for the DAO to run. With a
    /// `reply_id` they are run apart, and their failure is reported under
    /// that identifier without undoing the operation that asked for them;
    /// without one, their failure undoes that operation.
    ExecuteProposalHook { dao: Addr, msgs: Vec<CosmosMsg<Empty>>, reply_id: Option<u64> },
    /// A delivery to a proposal hook subscriber.
    ProposalHook(ProposalHookDispatch),
    /// A delivery to a vote hook subscriber.
    VoteHook(VoteHookDispatch),
}

pub enum SubMsgView {
    Deposit(DepositMsgView),
    ExecuteProposalHook { dao: Seq<char>, msgs: Seq<CosmosMsg<Empty>>, reply_id: Option<u64> },
    ProposalHook(ProposalHookDispatchView),
    VoteHook(VoteHookDispatchView),
}

impl View for SubMsg {
    type V = SubMsgView;

    open spec fn view(&self) -> SubMsgView {
        match self {
            SubMsg::Deposit(m) => SubMsgView::Deposit(m@),
            SubMsg::ExecuteProposalHook { dao, msgs, reply_id } => SubMsgView::ExecuteProposalHook {
                dao: dao@,
                msgs: msgs@,
                reply_id: *reply_id,
            },
            SubMsg::ProposalHook(d) => SubMsgView::ProposalHook(d@),
            SubMsg::VoteHook(d) => SubMsgView::VoteHook(d@),
        }
    }
}

/// What an operation did, for the host's record.
#[derive(Debug, PartialEq, Eq)]
pub enum Event {
    Instantiate { dao: Addr },
    Propose { sender: Addr, proposal_id: u64, status: Status },
    Vote { sender: Addr, proposal_id: u64, position: MultipleChoiceVote, status: Status },
    Execute { sender: Addr, proposal_id: u64, dao: Addr },
    Close { sender: Addr, proposal_id: u64 },
    UpdateConfig { sender: Addr },
    AddProposalHook { address: Addr },
    RemoveProposalHook { address: Addr },
    AddVoteHook { address: Addr },
    RemoveVoteHook { address: Addr },
    ProposalExecutionFailed { proposal_id: u64 },
    RemovedProposalHook { address: Addr, index: u64 },
    RemovedVoteHook { address: Addr, index: u64 },
}

pub enum EventView {
    Instantiate { dao: Seq<char> },
    Propose { sender: Seq<char>, proposal_id: u64, status: Status },
    Vote { sender: Seq<char>, proposal_id: u64, position: MultipleChoiceVote, status: Status },
    Execute { sender: Seq<char>, proposal_id: u64, dao: Seq<char> },
    Close { sender: Seq<char>, proposal_id: u64 },
    UpdateConfig { sender: Seq<char> },
    AddProposalHook { address: Seq<char> },
    RemoveProposalHook { address: Seq<char> },
    AddVoteHook { address: Seq<char> },
    RemoveVoteHook { address: Seq<char> },
    ProposalExecutionFailed { proposal_id: u64 },
    RemovedProposalHook { address: Seq<char>, index: u64 },
    RemovedVoteHook { address: Seq<char>, index: u64 },
}

impl View for Event {
    type V = EventView;

    open spec fn view(&self) -> EventView {
        match self {
            Event::Instantiate { dao } => EventView::Instantiate { dao: dao@ },
            Event::Propose { sender, proposal_id, status } => EventView::Propose {
                sender: sender@,
                proposal_id: *proposal_id,
                status: *status,
            },
            Event::Vote { sender, proposal_id, position, status } => EventView::Vote {
                sender: sender@,
                proposal_id: *proposal_id,
                position: *position,
                status: *status,
            },
            Event::Execute { sender, proposal_id, dao } => EventView::Execute {
                sender: sender@,
                proposal_id: *proposal_id,
                dao: dao@,
            },
            Event::Close { sender, proposal_id } => EventView::Close {
                sender: sender@,
                proposal_id: *proposal_id,
            },
            Event::UpdateConfig { sender } => EventView::UpdateConfig { sender: sender@ },
            Event::AddProposalHook { address } => EventView::AddProposalHook {
                address: address@,
            },
            Event::RemoveProposalHook { address } => EventView::RemoveProposalHook {
                address: address@,
            },
            Event::AddVoteHook { address } => EventView::AddVoteHook { address: address@ },
            Event::RemoveVoteHook { address } => EventView::RemoveVoteHook { address: address@ },
            Event::ProposalExecutionFailed { proposal_id } => EventView::ProposalExecutionFailed {
                proposal_id: *proposal_id,
            },
            Event::RemovedProposalHook { address, index } => EventView::RemovedProposalHook {
                address: address@,
                index: *index,
            },
            Event::RemovedVoteHook { address, index } => EventView::RemovedVoteHook {
                address: address@,
                index: *index,
            },
        }
    }
}

/// The answer to an operation that went through.
#[derive(Debug, PartialEq)]
pub struct Response {
    pub messages: Vec<SubMsg>,
    pub event: Event,
}

pub struct ResponseView {
    pub messages: Seq<SubMsgView>,
    pub event: EventView,
}

impl View for Response {
    type V = ResponseView;

    open spec fn view(&self) -> ResponseView {
        ResponseView { messages: views(self.messages@), event: self.event@ }
    }
}

/// Deposit movements as requests to the host.
pub open spec fn deposit_requests(msgs: Seq<DepositMsgView>) -> Seq<SubMsgView> {
    Seq::new(msgs.len(), |i: int| SubMsgView::Deposit(msgs[i]))
}

/// Proposal hook deliveries as requests to the host.
pub open spec fn proposal_hook_requests(d: Seq<ProposalHookDispatchView>) -> Seq<SubMsgView> {
    Seq::new(d.len(), |i: int| SubMsgView::ProposalHook(d[i]))
}

/// Vote hook deliveries as requests to the host.
pub open spec fn vote_hook_requests(d: Seq<VoteHookDispatchView>) -> Seq<SubMsgView> {
    Seq::new(d.len(), |i: int| SubMsgView::VoteHook(d[i]))
}

impl Response {
    /// An answer with no requests yet.
    pub fn new(event: Event) -> (r: Response)
        ensures
            r@ == (ResponseView { messages: Seq::empty(), event: event@ }),
    {
        let r = Response { messages: Vec::new(), event };
        assert(r@.messages =~= Seq::<SubMsgView>::empty());
        r
    }

    /// Appends deposit movements.
    pub fn add_deposit_messages(&mut self, msgs: &Vec<DepositMsg>)
        ensures
            final(self)@ == (ResponseView {
                messages: old(self)@.messages + deposit_requests(views(msgs@)),
                event: old(self)@.event,
            }),
    {
        let mut i: usize = 0;
        while i < msgs.len()
            invariant
                i <= msgs.len(),
                self.event == old(self).event,
                views(self.messages@) =~= old(self)@.messages + deposit_requests(
                    views(msgs@),
                ).subrange(0, i as int),
            decreases msgs.len() - i,
        {
            let m = msgs[i].clone();
            proof {
                crate::model::lemma_views_push(self.messages@, SubMsg::Deposit(m));
            }
            self.messages.push(SubMsg::Deposit(m));
            i = i + 1;
        }
        assert(self@.messages =~= old(self)@.messages + deposit_requests(views(msgs@)));
    }

    /// Appends deliveries to proposal hook subscribers.
    pub fn add_proposal_hooks(&mut self, dispatches: &Vec<ProposalHookDispatch>)
        ensures
            final(self)@ == (ResponseView {
                messages: old(self)@.messages + proposal_hook_requests(views(dispatches@)),
                event: old(self)@.event,
            }),
    {
        let mut i: usize = 0;
        while i < dispatches.len()
            invariant
                i <= dispatches.len(),
                self.event == old(self).event,
                views(self.messages@) =~= old(self)@.messages + proposal_hook_requests(
                    views(dispatches@),
                ).subrange(0, i as int),
            decreases dispatches.len() - i,
        {
            let d = dispatches[i].clone();
            proof {
                crate::model::lemma_views_push(self.messages@, SubMsg::ProposalHook(d));
            }
            self.messages.push(SubMsg::ProposalHook(d));
            i = i + 1;
        }
        assert(self@.messages =~= old(self)@.messages + proposal_hook_requests(
            views(dispatches@),
        ));
    }

    /// Appends deliveries to vote hook subscribers.
    pub fn add_vote_hooks(&mut self, dispatches: &Vec<VoteHookDispatch>)
        ensures
            final(self)@ == (ResponseView {
                messages: old(self)@.messages + vote_hook_requests(views(dispatches@)),
                event: old(self)@.event,
            }),
    {
        let mut i: usize = 0;
        while i < dispatches.len()
            invariant
                i <= dispatches.len(),
                self.event == old(self).event,
                views(self.messages@) =~= old(self)@.messages + vote_hook_requests(
                    views(dispatches@),
                ).subrange(0, i as int),
            decreases dispatches.len() - i,
        {
            let d = dispatches[i].clone();
            proof {
                crate::model::lemma_views_push(self.messages@, SubMsg::VoteHook(d));
            }
            self.messages.push(SubMsg::VoteHook(d));
            i = i + 1;
        }
        assert(self@.messages =~= old(self)@.messages + vote_hook_requests(views(dispatches@)));
    }

    /// Appends the request to run the messages of a winning choice.
    pub fn add_execute(&mut self, dao: &Addr, msgs: &Vec<CosmosMsg<Empty>>, reply_id: Option<u64>)
        ensures
            final(self)@ == (ResponseView {
                messages: old(self)@.messages.push(
                    SubMsgView::ExecuteProposalHook { dao: dao@, msgs: msgs@, reply_id },
                ),
                event: old(self)@.event,
            }),
    {
        let m = SubMsg::ExecuteProposalHook { dao: dao.clone(), msgs: clone_msgs(msgs), reply_id };
        proof {
            crate::model::lemma_views_push(self.messages@, m);
        }
        self.messages.push(m);
    }
}

} // verus!
