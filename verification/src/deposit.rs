//! Proposal deposits: what is escrowed when a proposal is made and to whom
//! it is paid out when the proposal is settled.

use crate::addr::Addr;
use vstd::prelude::*;

verus! {

/// When a deposit goes back to the proposer.
#[derive(Clone, Copy, Debug, PartialEq, Eq, Structural)]
pub enum DepositRefundPolicy {
    /// Whatever the outcome.
    Always,
    /// Only when the proposal passed.
    OnlyPassed,
    /// Never: the DAO keeps every deposit.
    Never,
}

/// A denomination as the caller names it.
#[derive(Debug, PartialEq, Eq)]
pub enum UncheckedDenom {
    /// A native token of the chain.
    Native(String),
    /// The address of a fungible-token contract.
    Cw20(String),
}

/// A denomination that the host has confirmed to exist.
#[derive(Debug, PartialEq, Eq)]
pub enum CheckedDenom {
    Native(String),
    Cw20(Addr),
}

pub enum DenomView {
    Native(Seq<char>),
    Cw20(Seq<char>),
}

impl View for CheckedDenom {
    type V = DenomView;

    open spec fn view(&self) -> DenomView {
        match self {
            CheckedDenom::Native(d) => DenomView::Native(d@),
            CheckedDenom::Cw20(a) => DenomView::Cw20(a@),
        }
    }
}

impl Clone for CheckedDenom {
    fn clone(&self) -> (r: CheckedDenom)
        ensures
            r@ == self@,
    {
        match self {
            CheckedDenom::Native(d) => CheckedDenom::Native(d.clone()),
            CheckedDenom::Cw20(a) => CheckedDenom::Cw20(a.clone()),
        }
    }
}

/// The token in which a deposit is asked for.
#[derive(Debug, PartialEq, Eq)]
pub enum DepositToken {
    /// A given denomination.
    Token { denom: UncheckedDenom },
    /// The token of the DAO's voting module.
    VotingModuleToken {},
}

/// A deposit policy as it is submitted.
#[derive(Debug, PartialEq, Eq)]
pub struct UncheckedDepositInfo {
    pub denom: DepositToken,
    pub amount: u128,
    pub refund_policy: DepositRefundPolicy,
}

/// A deposit policy that has been accepted: the amount is positive and the
/// denomination exists.
#[derive(Debug, PartialEq, Eq)]
pub struct CheckedDepositInfo {
    pub denom: CheckedDenom,
    pub amount: u128,
    pub refund_policy: DepositRefundPolicy,
}

pub struct DepositView {
    pub denom: DenomView,
    pub amount: u128,
    pub refund_policy: DepositRefundPolicy,
}

impl View for CheckedDepositInfo {
    type V = DepositView;

    open spec fn view(&self) -> DepositView {
        DepositView {
            denom: self.denom@,
            amount: self.amount,
            refund_policy: self.refund_policy,
        }
    }
}

impl Clone for CheckedDepositInfo {
    fn clone(&self) -> (r: CheckedDepositInfo)
        ensures
            r@ == self@,
    {
        CheckedDepositInfo {
            denom: self.denom.clone(),
            amount: self.amount,
            refund_policy: self.refund_policy,
        }
    }
}

/// The view of an optional deposit policy.
pub open spec fn deposit_view(d: Option<CheckedDepositInfo>) -> Option<DepositView> {
    match d {
        Some(d) => Some(d@),
        None => None,
    }
}

/// A copy of an optional deposit policy.
pub fn clone_deposit(d: &Option<CheckedDepositInfo>) -> (r: Option<CheckedDepositInfo>)
    ensures
        deposit_view(r) == deposit_view(*d),
{
    match d {
        Some(d) => Some(d.clone()),
        None => None,
    }
}

#[derive(Clone, Copy, Debug, PartialEq, Eq, Structural)]
pub enum DepositError {
    /// A deposit of zero was asked for.
    ZeroDeposit {},
    /// The host knows no such denomination.
    UnknownDenom {},
}

impl DepositError {
    pub open spec fn text(self) -> Seq<char> {
        match self {
            DepositError::ZeroDeposit {} =>
                "invalid zero deposit. set the deposit to `None` to have no deposit"@,
            DepositError::UnknownDenom {} => "invalid deposit denomination"@,
        }
    }

    pub fn message(&self) -> (r: String)
        ensures
            r@ == self.text(),
    {
        match self {
            DepositError::ZeroDeposit {} => String::from_str(
                "invalid zero deposit. set the deposit to `None` to have no deposit",
            ),
            DepositError::UnknownDenom {} => String::from_str("invalid deposit denomination"),
        }
    }
}

impl UncheckedDepositInfo {
    /// Accepts or rejects a submitted deposit policy. `denom` is what the
    /// host made of the submitted denomination: the confirmed denomination,
    /// or `None` where there is none such. A zero amount is rejected before
    /// the denomination is looked at.
    pub fn into_checked(self, denom: Option<CheckedDenom>) -> (r: Result<
        CheckedDepositInfo,
        DepositError,
    >)
        ensures
            self.amount == 0 ==> r == Err::<CheckedDepositInfo, DepositError>(
                DepositError::ZeroDeposit {},
            ),
            self.amount != 0 && denom is None ==> r == Err::<CheckedDepositInfo, DepositError>(
                DepositError::UnknownDenom {},
            ),
            self.amount != 0 && denom is Some ==> r == Ok::<CheckedDepositInfo, DepositError>(
                CheckedDepositInfo {
                    denom: denom->0,
                    amount: self.amount,
                    refund_policy: self.refund_policy,
                },
            ),
    {
        if self.amount == 0 {
            return Err(DepositError::ZeroDeposit {});
        }
        match denom {
            None => Err(DepositError::UnknownDenom {}),
            Some(denom) => Ok(
                CheckedDepositInfo {
                    denom,
                    amount: self.amount,
                    refund_policy: self.refund_policy,
                },
            ),
        }
    }
}

/// A movement of funds that the module asks the host for.
#[derive(Debug, PartialEq, Eq)]
pub enum DepositMsg {
    /// Move `amount` from `owner` into the escrow held by `recipient`.
    Take { denom: CheckedDenom, owner: Addr, recipient: Addr, amount: u128 },
    /// Pay `amount` out of the escrow to `recipient`.
    Return { denom: CheckedDenom, recipient: Addr, amount: u128 },
}

pub enum DepositMsgView {
    Take { denom: DenomView, owner: Seq<char>, recipient: Seq<char>, amount: u128 },
    Return { denom: DenomView, recipient: Seq<char>, amount: u128 },
}

impl View for DepositMsg {
    type V = DepositMsgView;

    open spec fn view(&self) -> DepositMsgView {
        match self {
            DepositMsg::Take { denom, owner, recipient, amount } => DepositMsgView::Take {
                denom: denom@,
                owner: owner@,
                recipient: recipient@,
                amount: *amount,
            },
            DepositMsg::Return { denom, recipient, amount } => DepositMsgView::Return {
                denom: denom@,
                recipient: recipient@,
                amount: *amount,
            },
        }
    }
}

impl Clone for DepositMsg {
    fn clone(&self) -> (r: DepositMsg)
        ensures
            r@ == self@,
    {
        match self {
            DepositMsg::Take { denom, owner, recipient, amount } => DepositMsg::Take {
                denom: denom.clone(),
                owner: owner.clone(),
                recipient: recipient.clone(),
                amount: *amount,
            },
            DepositMsg::Return { denom, recipient, amount } => DepositMsg::Return {
                denom: denom.clone(),
                recipient: recipient.clone(),
                amount: *amount,
            },
        }
    }
}

/// The requests that escrow the deposit of a new proposal: one transfer from
/// the proposer to the module where a deposit is configured, none otherwise.
pub open spec fn deposit_msgs(
    info: Option<DepositView>,
    contract: Seq<char>,
    sender: Seq<char>,
) -> Seq<DepositMsgView> {
    match info {
        Some(d) => if d.amount == 0 {
            Seq::empty()
        } else {
            seq![
                DepositMsgView::Take {
                    denom: d.denom,
                    owner: sender,
                    recipient: contract,
                    amount: d.amount,
                },
            ]
        },
        None => Seq::empty(),
    }
}

/// The requests that pay a deposit out to `receiver`.
pub open spec fn return_deposit_msgs(info: DepositView, receiver: Seq<char>) -> Seq<
    DepositMsgView,
> {
    if info.amount == 0 {
        Seq::empty()
    } else {
        seq![DepositMsgView::Return { denom: info.denom, recipient: receiver, amount: info.amount }]
    }
}

/// Whether the deposit of a proposal that is executed goes back to its
/// proposer; otherwise it goes to the DAO.
pub open spec fn refunds_proposer_on_execute(policy: DepositRefundPolicy) -> bool {
    policy != DepositRefundPolicy::Never
}

/// Whether the deposit of a proposal that is closed goes back to its
/// proposer; otherwise it goes to the DAO.
pub open spec fn refunds_proposer_on_close(policy: DepositRefundPolicy) -> bool {
    policy == DepositRefundPolicy::Always
}

/// The requests that settle the deposit of a proposal that is executed
/// (`passed`) or closed (not `passed`).
pub open spec fn settlement_msgs(
    info: Option<DepositView>,
    passed: bool,
    proposer: Seq<char>,
    dao: Seq<char>,
) -> Seq<DepositMsgView> {
    match info {
        Some(d) => {
            let to_proposer = if passed {
                refunds_proposer_on_execute(d.refund_policy)
            } else {
                refunds_proposer_on_close(d.refund_policy)
            };
            return_deposit_msgs(
                d,
                if to_proposer {
                    proposer
                } else {
                    dao
                },
            )
        },
        None => Seq::empty(),
    }
}

pub fn get_deposit_msg(info: &Option<CheckedDepositInfo>, contract: &Addr, sender: &Addr) -> (r:
    Vec<DepositMsg>)
    ensures
        crate::model::views(r@) == deposit_msgs(deposit_view(*info), contract@, sender@),
{
    let mut out: Vec<DepositMsg> = Vec::new();
    match info {
        Some(d) => {
            if d.amount != 0 {
                out.push(
                    DepositMsg::Take {
                        denom: d.denom.clone(),
                        owner: sender.clone(),
                        recipient: contract.clone(),
                        amount: d.amount,
                    },
                );
            }
        },
        None => {},
    }
    assert(crate::model::views(out@) =~= deposit_msgs(deposit_view(*info), contract@, sender@));
    out
}

pub fn get_return_deposit_msg(deposit_info: &CheckedDepositInfo, receiver: &Addr) -> (r: Vec<
    DepositMsg,
>)
    ensures
        crate::model::views(r@) == return_deposit_msgs(deposit_info@, receiver@),
{
    let mut out: Vec<DepositMsg> = Vec::new();
    if deposit_info.amount != 0 {
        out.push(
            DepositMsg::Return {
                denom: deposit_info.denom.clone(),
                recipient: receiver.clone(),
                amount: deposit_info.amount,
            },
        );
    }
    assert(crate::model::views(out@) =~= return_deposit_msgs(deposit_info@, receiver@));
    out
}

/// The requests that settle the deposit of a proposal on execution
/// (`passed`) or on closing.
pub fn get_settlement_msg(
    info: &Option<CheckedDepositInfo>,
    passed: bool,
    proposer: &Addr,
    dao: &Addr,
) -> (r: Vec<DepositMsg>)
    ensures
        crate::model::views(r@) == settlement_msgs(deposit_view(*info), passed, proposer@, dao@),
{
    match info {
        Some(d) => {
            let to_proposer = if passed {
                match d.refund_policy {
                    DepositRefundPolicy::Never => false,
                    _ => true,
                }
            } else {
                match d.refund_policy {
                    DepositRefundPolicy::Always => true,
                    _ => false,
                }
            };
            if to_proposer {
                get_return_deposit_msg(d, proposer)
            } else {
                get_return_deposit_msg(d, dao)
            }
        },
        None => {
            let out: Vec<DepositMsg> = Vec::new();
            assert(crate::model::views(out@) =~= Seq::<DepositMsgView>::empty());
            out
        },
    }
}

/// What a sequence of requests adds to the holdings of `who` in `denom`, on
/// the understanding that the escrow is held by `escrow`.
pub open spec fn net_gain(
    msgs: Seq<DepositMsgView>,
    who: Seq<char>,
    denom: DenomView,
    escrow: Seq<char>,
) -> int
    decreases msgs.len(),
{
    if msgs.len() == 0 {
        0
    } else {
        net_gain(msgs.drop_last(), who, denom, escrow) + match msgs.last() {
            DepositMsgView::Take { denom: d, owner, recipient, amount } => if d == denom {
                (if recipient == who {
                    amount as int
                } else {
                    0
                }) - (if owner == who {
                    amount as int
                } else {
                    0
                })
            } else {
                0
            },
            DepositMsgView::Return { denom: d, recipient, amount } => if d == denom {
                (if recipient == who {
                    amount as int
                } else {
                    0
                }) - (if escrow == who {
                    amount as int
                } else {
                    0
                })
            } else {
                0
            },
        }
    }
}

/// A deposit makes a round trip, or does not, as its refund policy says.
/// Over the escrow at proposal time and the settlement at execution
/// (`passed`) or closing, a proposer who is neither the module nor the DAO
/// is left with what they had under `Always`; is left short of the deposit
/// under `Never`; and under `OnlyPassed` is left with what they had exactly
/// when the proposal passed. What the proposer is short of, the DAO has
/// gained, and the module holds nothing of the deposit afterwards.
pub proof fn lemma_deposit_round_trip(
    info: DepositView,
    passed: bool,
    proposer: Seq<char>,
    dao: Seq<char>,
    contract: Seq<char>,
)
    requires
        proposer != contract,
        proposer != dao,
        dao != contract,
    ensures
        ({
            let msgs = deposit_msgs(Some(info), contract, proposer) + settlement_msgs(
                Some(info),
                passed,
                proposer,
                dao,
            );
            let refunded = match info.refund_policy {
                DepositRefundPolicy::Always => true,
                DepositRefundPolicy::OnlyPassed => passed,
                DepositRefundPolicy::Never => false,
            };
            &&& net_gain(msgs, proposer, info.denom, contract) == if refunded {
                0
            } else {
                -(info.amount as int)
            }
            &&& net_gain(msgs, dao, info.denom, contract) == if refunded {
                0
            } else {
                info.amount as int
            }
            &&& net_gain(msgs, contract, info.denom, contract) == 0
        }),
{
    let take = deposit_msgs(Some(info), contract, proposer);
    let back = settlement_msgs(Some(info), passed, proposer, dao);
    let msgs = take + back;
    if info.amount != 0 {
        assert(msgs.len() == 2);
        assert(msgs.drop_last() =~= take);
        assert(take.drop_last() =~= Seq::<DepositMsgView>::empty());
        assert(msgs.last() == back[0]);
        assert(take.last() == take[0]);
        reveal_with_fuel(net_gain, 3);
    } else {
        assert(msgs =~= Seq::<DepositMsgView>::empty());
    }
}

} // verus!
