//! The task record: one escrow unit per (consigner, task identifier) pair.

use crate::identity::AccountId;
use crate::status::TaskStatus;
use vstd::prelude::*;

verus! {

/// One escrowed task.
///
/// `reward_amount_locked` is the amount held in the task's custody. It is
/// set once at creation and reset to exactly zero by the reclaim
/// transition, never partially adjusted. `expiration_timestamp` is
/// computed once at creation as `creation_timestamp + duration_seconds`
/// and never recomputed. `assigned_reporter` is set only on acceptance.
/// `report_pda` is an opaque reference to an external report object,
/// carried but never interpreted by the engine.
#[derive(Clone, Copy, Debug, PartialEq, Eq, Structural)]
pub struct TaskAccount {
    pub task_id: u64,
    pub consigner_wallet: AccountId,
    pub reward_amount_locked: u64,
    pub creation_timestamp: i64,
    pub duration_seconds: i64,
    pub expiration_timestamp: i64,
    pub status: TaskStatus,
    pub status_update_timestamp: i64,
    pub assigned_reporter: Option<AccountId>,
    pub report_pda: Option<AccountId>,
    pub is_initialized: bool,
}

impl TaskAccount {
    /// Well-formedness of a stored record: it has been initialized and its
    /// expiration timestamp is exactly the creation timestamp plus the
    /// duration. Creation establishes this and no transition touches the
    /// three timestamps involved.
    pub open spec fn wf(self) -> bool {
        &&& self.is_initialized
        &&& self.expiration_timestamp == self.creation_timestamp + self.duration_seconds
    }
}

} // verus!
