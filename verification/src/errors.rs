//! Errors returned by the lifecycle operations.

use vstd::prelude::*;

verus! {

/// Why a lifecycle operation refused to run.
///
/// Every error aborts the whole operation: the host's atomicity guarantee
/// means no field mutation or fund movement is observed on failure.
#[derive(Clone, Copy, Debug, PartialEq, Eq, Structural)]
pub enum SunpathError {
    /// The offered reward is below the configured minimum.
    RewardAmountTooLow,
    /// A timestamp computation would leave the representable range.
    TimestampOverflow,
    /// The caller is not the admin. No operation raises this error; it is
    /// kept as part of the declared vocabulary.
    NotAdmin,
    /// The task is not in the `Open` state required for this operation.
    TaskNotOpen,
    /// The task's expiration timestamp has passed.
    TaskExpired,
    /// The caller is not the consigner stored in the task record
    /// (raised by the reclaim operation).
    NotConsigner,
    /// The task is not eligible for reclaim in its current state and time
    /// window.
    CannotReclaimFunds,
    /// The denial lockup period after a rejection is still active.
    DenialLockupActive,
    /// An action counter is already at its maximum value.
    CounterOverflow,
    /// The caller is not the consigner stored in the task record
    /// (raised by the accept and reject operations).
    NotTaskConsigner,
}

} // verus!
