//! The lifecycle state of a task record.

use vstd::prelude::*;

verus! {

/// Status of a task record.
///
/// Transitions form a strict forward path: `Open` to `Approved` or
/// `Rejected`, `Rejected` to `Reclaimed`, and `Open` to `Reclaimed` once
/// the task has expired unaccepted. `Approved` and `Reclaimed` are
/// terminal. `Expired` belongs to the stored vocabulary but is never
/// assigned by any transition: expiry is judged from the record's
/// timestamps, not recorded as a status.
#[derive(Clone, Copy, Debug, PartialEq, Eq, Structural)]
pub enum TaskStatus {
    Open,
    Approved,
    Rejected,
    Expired,
    Reclaimed,
}

impl TaskStatus {
    /// Terminal states: no operation transitions out of them.
    pub open spec fn is_terminal(self) -> bool {
        self == TaskStatus::Approved || self == TaskStatus::Reclaimed
    }
}

} // verus!
