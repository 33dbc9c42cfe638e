//! Subscribers that are told of proposals, status changes and votes.

use crate::addr::Addr;
use crate::model::lemma_views_push;
use crate::model::lemma_views_remove;
use crate::model::views;
use crate::reply::FAILED_PROPOSAL_HOOK_MASK;
use crate::reply::FAILED_VOTE_HOOK_MASK;
use crate::reply::mask_proposal_hook_index;
use crate::reply::mask_vote_hook_index;
use crate::reply::tagged;
use crate::status::Status;
use crate::voting::MultipleChoiceVote;
use vstd::prelude::*;

verus! {

#[derive(Clone, Copy, Debug, PartialEq, Eq, Structural)]
pub enum HookError {
    /// The address is a subscriber already.
    HookAlreadyRegistered {},
    /// The address, or the index, is that of no subscriber.
    HookNotFound {},
}

/// An ordered set of subscribers.
#[derive(Debug, PartialEq, Eq)]
pub struct Hooks {
    pub hooks: Vec<Addr>,
}

impl View for Hooks {
    type V = Seq<Seq<char>>;

    open spec fn view(&self) -> Seq<Seq<char>> {
        views(self.hooks@)
    }
}

/// Whether no item of a sequence occurs twice.
pub open spec fn distinct(s: Seq<Seq<char>>) -> bool {
    forall|i: int, j: int| 0 <= i < j < s.len() ==> s[i] != s[j]
}

/// The least index from `i` on at which `x` stands in `s`, or the length of
/// `s` where there is none.
pub open spec fn position_from(s: Seq<Seq<char>>, x: Seq<char>, i: int) -> int
    decreases s.len() - i,
{
    if i < 0 || i >= s.len() {
        s.len() as int
    } else if s[i] == x {
        i
    } else {
        position_from(s, x, i + 1)
    }
}

/// The least index at which `x` stands in `s`, or the length of `s`.
pub open spec fn position(s: Seq<Seq<char>>, x: Seq<char>) -> int {
    position_from(s, x, 0)
}

pub proof fn lemma_position_from(s: Seq<Seq<char>>, x: Seq<char>, i: int)
    requires
        0 <= i <= s.len(),
    ensures
        i <= position_from(s, x, i) <= s.len(),
        position_from(s, x, i) < s.len() ==> s[position_from(s, x, i)] == x,
        forall|j: int| i <= j < position_from(s, x, i) ==> s[j] != x,
    decreases s.len() - i,
{
    if i < s.len() && s[i] != x {
        lemma_position_from(s, x, i + 1);
    }
}

/// `position` finds `x` exactly where `s` contains it.
pub proof fn lemma_position(s: Seq<Seq<char>>, x: Seq<char>)
    ensures
        0 <= position(s, x) <= s.len(),
        position(s, x) < s.len() <==> s.contains(x),
        position(s, x) < s.len() ==> s[position(s, x)] == x,
{
    lemma_position_from(s, x, 0);
    if s.contains(x) {
        let j = choose|j: int| 0 <= j < s.len() && s[j] == x;
        assert(s[j] == x);
    }
}

impl Hooks {
    /// The invariant of the registry: no subscriber is listed twice.
    pub open spec fn wf(&self) -> bool {
        distinct(self@)
    }

    pub fn new() -> (r: Hooks)
        ensures
            r@ == Seq::<Seq<char>>::empty(),
            r.wf(),
    {
        let r = Hooks { hooks: Vec::new() };
        assert(r@ =~= Seq::<Seq<char>>::empty());
        r
    }

    /// The index of `addr` among the subscribers, or their number where it
    /// is none of them.
    pub fn find(&self, addr: &Addr) -> (r: usize)
        ensures
            r == position(self@, addr@),
    {
        let mut i: usize = 0;
        while i < self.hooks.len()
            invariant
                i <= self.hooks.len(),
                position(self@, addr@) == position_from(self@, addr@, i as int),
            decreases self.hooks.len() - i,
        {
            if self.hooks[i].same(addr) {
                return i;
            }
            i = i + 1;
        }
        i
    }

    /// Appends a subscriber, unless it is one already.
    pub fn add_hook(&mut self, addr: Addr) -> (r: Result<(), HookError>)
        requires
            old(self).wf(),
        ensures
            final(self).wf(),
            old(self)@.contains(addr@) ==> r == Err::<(), HookError>(
                HookError::HookAlreadyRegistered {},
            ) && final(self)@ == old(self)@,
            !old(self)@.contains(addr@) ==> r == Ok::<(), HookError>(()) && final(self)@ == old(self)@.push(addr@),
    {
        proof {
            lemma_position(self@, addr@);
        }
        let at = self.find(&addr);
        if at < self.hooks.len() {
            return Err(HookError::HookAlreadyRegistered {});
        }
        proof {
            lemma_views_push(self.hooks@, addr);
        }
        self.hooks.push(addr);
        Ok(())
    }

    /// Removes a subscriber; those behind it move up by one.
    pub fn remove_hook(&mut self, addr: &Addr) -> (r: Result<(), HookError>)
        requires
            old(self).wf(),
        ensures
            final(self).wf(),
            !old(self)@.contains(addr@) ==> r == Err::<(), HookError>(HookError::HookNotFound {})
                && final(self)@ == old(self)@,
            old(self)@.contains(addr@) ==> r == Ok::<(), HookError>(()) && final(self)@ == old(self)@.remove(position(old(self)@, addr@)) && !final(self)@.contains(addr@),
    {
        proof {
            lemma_position(self@, addr@);
        }
        let at = self.find(addr);
        if at >= self.hooks.len() {
            return Err(HookError::HookNotFound {});
        }
        proof {
            lemma_views_remove(self.hooks@, at as int);
        }
        self.hooks.remove(at);
        Ok(())
    }

    /// Removes the subscriber at `index` and returns it.
    pub fn remove_hook_by_index(&mut self, index: u64) -> (r: Result<Addr, HookError>)
        requires
            old(self).wf(),
        ensures
            final(self).wf(),
            index >= old(self)@.len() ==> r == Err::<Addr, HookError>(HookError::HookNotFound {})
                && final(self)@ == old(self)@,
            index < old(self)@.len() ==> r is Ok && r->Ok_0@ == old(self)@[index as int] && final(self)@ == old(self)@.remove(index as int),
    {
        if index >= self.hooks.len() as u64 {
            return Err(HookError::HookNotFound {});
        }
        proof {
            lemma_views_remove(self.hooks@, index as int);
        }
        let removed = self.hooks.remove(index as usize);
        Ok(removed)
    }

    pub fn hook_count(&self) -> (r: usize)
        ensures
            r == self@.len(),
    {
        self.hooks.len()
    }

    /// The subscribers, in order.
    pub fn query_hooks(&self) -> (r: HooksResponse)
        ensures
            r@ == self@,
    {
        let mut out: Vec<String> = Vec::new();
        let mut i: usize = 0;
        while i < self.hooks.len()
            invariant
                i <= self.hooks.len(),
                out@.len() == i,
                forall|j: int| 0 <= j < i ==> out@[j]@ == self.hooks@[j]@,
            decreases self.hooks.len() - i,
        {
            out.push(self.hooks[i].clone().into_string());
            i = i + 1;
        }
        let r = HooksResponse { hooks: out };
        assert(r@ =~= self@);
        r
    }
}

impl Clone for Hooks {
    fn clone(&self) -> (r: Hooks)
        ensures
            r@ == self@,
    {
        let mut out: Vec<Addr> = Vec::new();
        let mut i: usize = 0;
        while i < self.hooks.len()
            invariant
                i <= self.hooks.len(),
                out@.len() == i,
                forall|j: int| 0 <= j < i ==> out@[j]@ == self.hooks@[j]@,
            decreases self.hooks.len() - i,
        {
            out.push(self.hooks[i].clone());
            i = i + 1;
        }
        let r = Hooks { hooks: out };
        assert(r@ =~= self@);
        r
    }
}

/// The answer to a query for the subscribers.
#[derive(Debug, PartialEq, Eq)]
pub struct HooksResponse {
    pub hooks: Vec<String>,
}

impl View for HooksResponse {
    type V = Seq<Seq<char>>;

    open spec fn view(&self) -> Seq<Seq<char>> {
        views(self.hooks@)
    }
}

/// What proposal hook subscribers are told.
#[derive(Debug, PartialEq, Eq)]
pub enum ProposalHookMsg {
    NewProposal { id: u64, proposer: Addr },
    ProposalStatusChanged { id: u64, old_status: Status, new_status: Status },
}

pub enum ProposalHookMsgView {
    NewProposal { id: u64, proposer: Seq<char> },
    ProposalStatusChanged { id: u64, old_status: Status, new_status: Status },
}

impl View for ProposalHookMsg {
    type V = ProposalHookMsgView;

    open spec fn view(&self) -> ProposalHookMsgView {
        match self {
            ProposalHookMsg::NewProposal { id, proposer } => ProposalHookMsgView::NewProposal {
                id: *id,
                proposer: proposer@,
            },
            ProposalHookMsg::ProposalStatusChanged {
                id,
                old_status,
                new_status,
            } => ProposalHookMsgView::ProposalStatusChanged {
                id: *id,
                old_status: *old_status,
                new_status: *new_status,
            },
        }
    }
}

impl Clone for ProposalHookMsg {
    fn clone(&self) -> (r: ProposalHookMsg)
        ensures
            r@ == self@,
    {
        match self {
            ProposalHookMsg::NewProposal { id, proposer } => ProposalHookMsg::NewProposal {
                id: *id,
                proposer: proposer.clone(),
            },
            ProposalHookMsg::ProposalStatusChanged {
                id,
                old_status,
                new_status,
            } => ProposalHookMsg::ProposalStatusChanged {
                id: *id,
                old_status: *old_status,
                new_status: *new_status,
            },
        }
    }
}

/// What vote hook subscribers are told.
#[derive(Debug, PartialEq, Eq)]
pub enum VoteHookMsg {
    NewVote { proposal_id: u64, voter: Addr, vote: MultipleChoiceVote },
}

pub enum VoteHookMsgView {
    NewVote { proposal_id: u64, voter: Seq<char>, vote: MultipleChoiceVote },
}

impl View for VoteHookMsg {
    type V = VoteHookMsgView;

    open spec fn view(&self) -> VoteHookMsgView {
        match self {
            VoteHookMsg::NewVote { proposal_id, voter, vote } => VoteHookMsgView::NewVote {
                proposal_id: *proposal_id,
                voter: voter@,
                vote: *vote,
            },
        }
    }
}

impl Clone for VoteHookMsg {
    fn clone(&self) -> (r: VoteHookMsg)
        ensures
            r@ == self@,
    {
        match self {
            VoteHookMsg::NewVote { proposal_id, voter, vote } => VoteHookMsg::NewVote {
                proposal_id: *proposal_id,
                voter: voter.clone(),
                vote: *vote,
            },
        }
    }
}

/// One delivery to one subscriber. Should it fail, the host reports the
/// failure under `reply_id`.
#[derive(Debug, PartialEq, Eq)]
pub struct ProposalHookDispatch {
    pub recipient: Addr,
    pub reply_id: u64,
    pub msg: ProposalHookMsg,
}

pub struct ProposalHookDispatchView {
    pub recipient: Seq<char>,
    pub reply_id: u64,
    pub msg: ProposalHookMsgView,
}

impl View for ProposalHookDispatch {
    type V = ProposalHookDispatchView;

    open spec fn view(&self) -> ProposalHookDispatchView {
        ProposalHookDispatchView {
            recipient: self.recipient@,
            reply_id: self.reply_id,
            msg: self.msg@,
        }
    }
}

impl Clone for ProposalHookDispatch {
    fn clone(&self) -> (r: ProposalHookDispatch)
        ensures
            r@ == self@,
    {
        ProposalHookDispatch {
            recipient: self.recipient.clone(),
            reply_id: self.reply_id,
            msg: self.msg.clone(),
        }
    }
}

/// One delivery to one subscriber of votes.
#[derive(Debug, PartialEq, Eq)]
pub struct VoteHookDispatch {
    pub recipient: Addr,
    pub reply_id: u64,
    pub msg: VoteHookMsg,
}

pub struct VoteHookDispatchView {
    pub recipient: Seq<char>,
    pub reply_id: u64,
    pub msg: VoteHookMsgView,
}

impl View for VoteHookDispatch {
    type V = VoteHookDispatchView;

    open spec fn view(&self) -> VoteHookDispatchView {
        VoteHookDispatchView {
            recipient: self.recipient@,
            reply_id: self.reply_id,
            msg: self.msg@,
        }
    }
}

impl Clone for VoteHookDispatch {
    fn clone(&self) -> (r: VoteHookDispatch)
        ensures
            r@ == self@,
    {
        VoteHookDispatch {
            recipient: self.recipient.clone(),
            reply_id: self.reply_id,
            msg: self.msg.clone(),
        }
    }
}

/// One delivery of `msg` to each subscriber, in order; the delivery to the
/// subscriber at index `i` is tagged with that index.
pub open spec fn proposal_dispatches(hooks: Seq<Seq<char>>, msg: ProposalHookMsgView) -> Seq<
    ProposalHookDispatchView,
> {
    Seq::new(
        hooks.len(),
        |i: int|
            ProposalHookDispatchView {
                recipient: hooks[i],
                reply_id: tagged(FAILED_PROPOSAL_HOOK_MASK, i as u64),
                msg,
            },
    )
}

/// One delivery of `msg` to each subscriber, in order.
pub open spec fn vote_dispatches(hooks: Seq<Seq<char>>, msg: VoteHookMsgView) -> Seq<
    VoteHookDispatchView,
> {
    Seq::new(
        hooks.len(),
        |i: int|
            VoteHookDispatchView {
                recipient: hooks[i],
                reply_id: tagged(FAILED_VOTE_HOOK_MASK, i as u64),
                msg,
            },
    )
}

/// The deliveries that announce a status change: none where the status did
/// not change.
pub open spec fn status_changed_dispatches(
    hooks: Seq<Seq<char>>,
    id: u64,
    old_status: Status,
    new_status: Status,
) -> Seq<ProposalHookDispatchView> {
    if old_status == new_status {
        Seq::empty()
    } else {
        proposal_dispatches(
            hooks,
            ProposalHookMsgView::ProposalStatusChanged { id, old_status, new_status },
        )
    }
}

fn prepare_proposal_hooks(hooks: &Hooks, msg: &ProposalHookMsg) -> (r: Vec<ProposalHookDispatch>)
    ensures
        views(r@) == proposal_dispatches(hooks@, msg@),
{
    let mut out: Vec<ProposalHookDispatch> = Vec::new();
    let mut i: usize = 0;
    while i < hooks.hooks.len()
        invariant
            i <= hooks.hooks.len(),
            out@.len() == i,
            forall|j: int| 0 <= j < i ==> out@[j]@ == proposal_dispatches(hooks@, msg@)[j],
        decreases hooks.hooks.len() - i,
    {
        out.push(
            ProposalHookDispatch {
                recipient: hooks.hooks[i].clone(),
                reply_id: mask_proposal_hook_index(i as u64),
                msg: msg.clone(),
            },
        );
        i = i + 1;
    }
    assert(views(out@) =~= proposal_dispatches(hooks@, msg@));
    out
}

/// The deliveries that announce the new proposal `id` of `proposer`.
pub fn new_proposal_hooks(hooks: &Hooks, id: u64, proposer: &Addr) -> (r: Vec<
    ProposalHookDispatch,
>)
    ensures
        views(r@) == proposal_dispatches(
            hooks@,
            ProposalHookMsgView::NewProposal { id, proposer: proposer@ },
        ),
{
    let msg = ProposalHookMsg::NewProposal { id, proposer: proposer.clone() };
    prepare_proposal_hooks(hooks, &msg)
}

/// The deliveries that announce that the status of the proposal `id` went
/// from `old_status` to `new_status`.
pub fn proposal_status_changed_hooks(
    hooks: &Hooks,
    id: u64,
    old_status: Status,
    new_status: Status,
) -> (r: Vec<ProposalHookDispatch>)
    ensures
        views(r@) == status_changed_dispatches(hooks@, id, old_status, new_status),
{
    if old_status == new_status {
        let out: Vec<ProposalHookDispatch> = Vec::new();
        assert(views(out@) =~= Seq::<ProposalHookDispatchView>::empty());
        return out;
    }
    let msg = ProposalHookMsg::ProposalStatusChanged { id, old_status, new_status };
    prepare_proposal_hooks(hooks, &msg)
}

/// The deliveries that announce the vote of `voter` on the proposal
/// `proposal_id`.
pub fn new_vote_hooks(hooks: &Hooks, proposal_id: u64, voter: &Addr, vote: MultipleChoiceVote) -> (r:
    Vec<VoteHookDispatch>)
    ensures
        views(r@) == vote_dispatches(
            hooks@,
            VoteHookMsgView::NewVote { proposal_id, voter: voter@, vote },
        ),
{
    let msg = VoteHookMsg::NewVote { proposal_id, voter: voter.clone(), vote };
    let mut out: Vec<VoteHookDispatch> = Vec::new();
    let mut i: usize = 0;
    while i < hooks.hooks.len()
        invariant
            i <= hooks.hooks.len(),
            out@.len() == i,
            forall|j: int| 0 <= j < i ==> out@[j]@ == vote_dispatches(hooks@, msg@)[j],
        decreases hooks.hooks.len() - i,
    {
        out.push(
            VoteHookDispatch {
                recipient: hooks.hooks[i].clone(),
                reply_id: mask_vote_hook_index(i as u64),
                msg: msg.clone(),
            },
        );
        i = i + 1;
    }
    assert(views(out@) =~= vote_dispatches(hooks@, msg@));
    out
}

} // verus!
