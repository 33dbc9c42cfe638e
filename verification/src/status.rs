//! The states of a proposal.

use vstd::prelude::*;

verus! {

/// Where a proposal stands in its life.
#[derive(Clone, Copy, Debug, PartialEq, Eq, Structural)]
pub enum Status {
    /// Votes are being taken.
    Open,
    /// Voting ended without a winning choice.
    Rejected,
    /// A choice has won and may be executed.
    Passed,
    /// The winning choice's messages were handed to the DAO.
    Executed,
    /// A rejected proposal whose deposit has been settled.
    Closed,
    /// The DAO reported that the winning choice's messages failed.
    ExecutionFailed,
}

impl Status {
    /// The states that are written once and never derived again.
    pub open spec fn is_terminal(self) -> bool {
        self == Status::Executed || self == Status::Closed || self == Status::ExecutionFailed
    }

    /// The steps of the lifecycle: an open proposal passes or is rejected;
    /// a passed one is executed, or found to have failed; an executed one
    /// may still be found to have failed; a rejected one is closed.
    pub open spec fn may_become(self, next: Status) -> bool {
        match self {
            Status::Open => next == Status::Passed || next == Status::Rejected,
            Status::Passed => next == Status::Executed || next == Status::ExecutionFailed,
            Status::Executed => next == Status::ExecutionFailed,
            Status::Rejected => next == Status::Closed,
            Status::Closed => false,
            Status::ExecutionFailed => false,
        }
    }

    /// The name under which hooks and events report the state.
    pub open spec fn name(self) -> Seq<char> {
        match self {
            Status::Open => "open"@,
            Status::Rejected => "rejected"@,
            Status::Passed => "passed"@,
            Status::Executed => "executed"@,
            Status::Closed => "closed"@,
            Status::ExecutionFailed => "execution_failed"@,
        }
    }

    pub fn to_string(&self) -> (r: String)
        ensures
            r@ == self.name(),
    {
        match self {
            Status::Open => String::from_str("open"),
            Status::Rejected => String::from_str("rejected"),
            Status::Passed => String::from_str("passed"),
            Status::Executed => String::from_str("executed"),
            Status::Closed => String::from_str("closed"),
            Status::ExecutionFailed => String::from_str("execution_failed"),
        }
    }
}

} // verus!
