//! The task lifecycle engine: the state machine with coupled fund custody.
//!
//! Each operation takes the caller identity (already verified by the host)
//! and the wall-clock reading (sampled once per operation) as plain
//! arguments, validates its preconditions, mutates the record in place,
//! and returns the fund movement the host must perform in the same atomic
//! unit. On any error the record and counter are left untouched, matching
//! the host's all-or-nothing commit.

use crate::config::ProgramConfig;
use crate::counter::AdminActionCounter;
use crate::errors::SunpathError;
use crate::identity::AccountId;
use crate::status::TaskStatus;
use crate::task::TaskAccount;
use vstd::prelude::*;

verus! {

/// An engine-authorized transfer out of a task's custody.
///
/// Only the accept and reclaim transitions produce one; the custody
/// location holds no signing key of its own, so this value is the sole
/// channel through which funds leave custody.
#[derive(Clone, Copy, Debug, PartialEq, Eq, Structural)]
pub struct Payout {
    pub to: AccountId,
    pub amount: u64,
}

/// Whether `x` fits in the signed 64-bit range of a timestamp.
pub open spec fn fits_i64(x: int) -> bool {
    i64::MIN <= x <= i64::MAX
}

/// Why task creation is refused, if it is: a reward below the configured
/// floor, or an expiration timestamp that would leave the representable
/// range.
pub open spec fn create_refusal(
    config: ProgramConfig,
    reward_amount: u64,
    duration_seconds: i64,
    now: i64,
) -> Option<SunpathError> {
    if reward_amount < config.minimum_reward_amount {
        Some(SunpathError::RewardAmountTooLow)
    } else if !fits_i64(now + duration_seconds) {
        Some(SunpathError::TimestampOverflow)
    } else {
        None
    }
}

/// The record a successful creation stores: open, funded with the full
/// reward, expiring exactly `duration_seconds` after `now`.
pub open spec fn created_record(
    consigner: AccountId,
    task_id: u64,
    reward_amount: u64,
    duration_seconds: i64,
    now: i64,
) -> TaskAccount {
    TaskAccount {
        task_id,
        consigner_wallet: consigner,
        reward_amount_locked: reward_amount,
        creation_timestamp: now,
        duration_seconds,
        expiration_timestamp: (now + duration_seconds) as i64,
        status: TaskStatus::Open,
        status_update_timestamp: now,
        assigned_reporter: None,
        report_pda: None,
        is_initialized: true,
    }
}

/// Creates a task record, locking `reward_amount` into its custody.
///
/// `consigner` is the caller, already authenticated by the host, which
/// also moves `reward_amount` from the consigner's balance into the new
/// record's custody in the same atomic unit, and refuses creation if a
/// record already occupies the (consigner, task identifier) address.
pub fn create_task(
    config: &ProgramConfig,
    consigner: AccountId,
    task_id: u64,
    reward_amount: u64,
    duration_seconds: i64,
    now: i64,
) -> (r: Result<TaskAccount, SunpathError>)
    ensures
        match r {
            Ok(t) => {
                &&& create_refusal(*config, reward_amount, duration_seconds, now) is None
                &&& t == created_record(consigner, task_id, reward_amount, duration_seconds, now)
            },
            Err(e) => create_refusal(*config, reward_amount, duration_seconds, now) == Some(e),
        },
{
    if reward_amount < config.minimum_reward_amount {
        return Err(SunpathError::RewardAmountTooLow);
    }
    let expiration_timestamp = match now.checked_add(duration_seconds) {
        Some(t) => t,
        None => {
            return Err(SunpathError::TimestampOverflow);
        },
    };
    Ok(
        TaskAccount {
            task_id,
            consigner_wallet: consigner,
            reward_amount_locked: reward_amount,
            creation_timestamp: now,
            duration_seconds,
            expiration_timestamp,
            status: TaskStatus::Open,
            status_update_timestamp: now,
            assigned_reporter: None,
            report_pda: None,
            is_initialized: true,
        },
    )
}

/// The payout a successful acceptance orders: the record's full locked
/// reward, out of custody, to the chosen recipient.
pub open spec fn accept_payout(t: TaskAccount, recipient: AccountId) -> Payout {
    Payout { to: recipient, amount: t.reward_amount_locked }
}

/// The payout a successful reclaim orders: the record's full locked
/// reward, out of custody, back to the stored consigner.
pub open spec fn reclaim_payout(t: TaskAccount) -> Payout {
    Payout { to: t.consigner_wallet, amount: t.reward_amount_locked }
}

/// Why acceptance is refused, if it is, checked in the order the checks
/// run: caller authorization, then the record being open, then the
/// expiration window, then room in the accept counter.
pub open spec fn accept_refusal(
    t: TaskAccount,
    counter: AdminActionCounter,
    caller: AccountId,
    now: i64,
) -> Option<SunpathError> {
    if caller != t.consigner_wallet {
        Some(SunpathError::NotTaskConsigner)
    } else if t.status != TaskStatus::Open {
        Some(SunpathError::TaskNotOpen)
    } else if now > t.expiration_timestamp {
        Some(SunpathError::TaskExpired)
    } else if counter.accept_count == u64::MAX {
        Some(SunpathError::CounterOverflow)
    } else {
        None
    }
}

/// The record after a successful acceptance: approved, stamped with `now`,
/// with the recipient noted. The locked amount field keeps its value; the
/// payout returned alongside is what empties the custody.
pub open spec fn accepted_record(t: TaskAccount, recipient: AccountId, now: i64) -> TaskAccount {
    TaskAccount {
        task_id: t.task_id,
        consigner_wallet: t.consigner_wallet,
        reward_amount_locked: t.reward_amount_locked,
        creation_timestamp: t.creation_timestamp,
        duration_seconds: t.duration_seconds,
        expiration_timestamp: t.expiration_timestamp,
        status: TaskStatus::Approved,
        status_update_timestamp: now,
        assigned_reporter: Some(recipient),
        report_pda: t.report_pda,
        is_initialized: t.is_initialized,
    }
}

/// The caller's counter after a successful acceptance: the accept count
/// grows by exactly one, the reject count is untouched.
pub open spec fn counter_after_accept(
    counter: AdminActionCounter,
    caller: AccountId,
) -> AdminActionCounter {
    AdminActionCounter {
        admin: caller,
        accept_count: (counter.accept_count + 1) as u64,
        reject_count: counter.reject_count,
    }
}

/// The caller's counter after a successful rejection: the reject count
/// grows by exactly one, the accept count is untouched.
pub open spec fn counter_after_reject(
    counter: AdminActionCounter,
    caller: AccountId,
) -> AdminActionCounter {
    AdminActionCounter {
        admin: caller,
        accept_count: counter.accept_count,
        reject_count: (counter.reject_count + 1) as u64,
    }
}

/// Accepts an open, unexpired task: pays the full locked reward out of
/// custody to `recipient` and marks the record approved.
///
/// `caller` is the caller's identity, already authenticated by the host,
/// and must match the record's stored consigner. On success the returned
/// payout names `recipient` and exactly the locked amount; the host
/// performs it in the same atomic unit. On any error nothing changes.
pub fn accept_task(
    task: &mut TaskAccount,
    counter: &mut AdminActionCounter,
    caller: AccountId,
    recipient: AccountId,
    now: i64,
) -> (r: Result<Payout, SunpathError>)
    ensures
        match r {
            Ok(p) => {
                &&& accept_refusal(*old(task), *old(counter), caller, now) is None
                &&& *final(task) == accepted_record(*old(task), recipient, now)
                &&& *final(counter) == counter_after_accept(*old(counter), caller)
                &&& p == accept_payout(*old(task), recipient)
            },
            Err(e) => {
                &&& accept_refusal(*old(task), *old(counter), caller, now) == Some(e)
                &&& *final(task) == *old(task)
                &&& *final(counter) == *old(counter)
            },
        },
{
    if caller != task.consigner_wallet {
        return Err(SunpathError::NotTaskConsigner);
    }
    if task.status != TaskStatus::Open {
        return Err(SunpathError::TaskNotOpen);
    }
    if now > task.expiration_timestamp {
        return Err(SunpathError::TaskExpired);
    }
    if counter.accept_count == u64::MAX {
        return Err(SunpathError::CounterOverflow);
    }
    let amount_to_transfer = task.reward_amount_locked;
    task.status = TaskStatus::Approved;
    task.status_update_timestamp = now;
    task.assigned_reporter = Some(recipient);
    counter.admin = caller;
    counter.accept_count = counter.accept_count + 1;
    Ok(Payout { to: recipient, amount: amount_to_transfer })
}

/// Why rejection is refused, if it is: the same gates as acceptance, with
/// room required in the reject counter instead.
pub open spec fn reject_refusal(
    t: TaskAccount,
    counter: AdminActionCounter,
    caller: AccountId,
    now: i64,
) -> Option<SunpathError> {
    if caller != t.consigner_wallet {
        Some(SunpathError::NotTaskConsigner)
    } else if t.status != TaskStatus::Open {
        Some(SunpathError::TaskNotOpen)
    } else if now > t.expiration_timestamp {
        Some(SunpathError::TaskExpired)
    } else if counter.reject_count == u64::MAX {
        Some(SunpathError::CounterOverflow)
    } else {
        None
    }
}

/// The record after a successful rejection: rejected and stamped with
/// `now`; the reward stays in custody for the denial lockup.
pub open spec fn rejected_record(t: TaskAccount, now: i64) -> TaskAccount {
    TaskAccount {
        task_id: t.task_id,
        consigner_wallet: t.consigner_wallet,
        reward_amount_locked: t.reward_amount_locked,
        creation_timestamp: t.creation_timestamp,
        duration_seconds: t.duration_seconds,
        expiration_timestamp: t.expiration_timestamp,
        status: TaskStatus::Rejected,
        status_update_timestamp: now,
        assigned_reporter: t.assigned_reporter,
        report_pda: t.report_pda,
        is_initialized: t.is_initialized,
    }
}

/// Rejects an open, unexpired task: marks the record rejected and starts
/// the denial lockup. No funds move; the reward stays in custody.
///
/// `caller` is the caller's identity, already authenticated by the host,
/// and must match the record's stored consigner. On any error nothing
/// changes.
pub fn reject_task(
    task: &mut TaskAccount,
    counter: &mut AdminActionCounter,
    caller: AccountId,
    now: i64,
) -> (r: Result<(), SunpathError>)
    ensures
        match r {
            Ok(()) => {
                &&& reject_refusal(*old(task), *old(counter), caller, now) is None
                &&& *final(task) == rejected_record(*old(task), now)
                &&& *final(counter) == counter_after_reject(*old(counter), caller)
            },
            Err(e) => {
                &&& reject_refusal(*old(task), *old(counter), caller, now) == Some(e)
                &&& *final(task) == *old(task)
                &&& *final(counter) == *old(counter)
            },
        },
{
    if caller != task.consigner_wallet {
        return Err(SunpathError::NotTaskConsigner);
    }
    if task.status != TaskStatus::Open {
        return Err(SunpathError::TaskNotOpen);
    }
    if now > task.expiration_timestamp {
        return Err(SunpathError::TaskExpired);
    }
    if counter.reject_count == u64::MAX {
        return Err(SunpathError::CounterOverflow);
    }
    task.status = TaskStatus::Rejected;
    task.status_update_timestamp = now;
    counter.admin = caller;
    counter.reject_count = counter.reject_count + 1;
    Ok(())
}

/// Why a reclaim is refused, if it is, in the order the policy is
/// evaluated: caller authorization first; a rejected record is eligible
/// only once the denial lockup has elapsed (with the deadline computation
/// overflow-checked, and a still-active lockup reported as its own
/// error); an open record is eligible exactly when it has expired; every
/// other state can never be reclaimed.
pub open spec fn reclaim_refusal(
    t: TaskAccount,
    config: ProgramConfig,
    caller: AccountId,
    now: i64,
) -> Option<SunpathError> {
    if caller != t.consigner_wallet {
        Some(SunpathError::NotConsigner)
    } else if t.status == TaskStatus::Rejected {
        if !fits_i64(t.status_update_timestamp + config.denial_penalty_duration) {
            Some(SunpathError::TimestampOverflow)
        } else if now >= t.status_update_timestamp + config.denial_penalty_duration {
            None
        } else {
            Some(SunpathError::DenialLockupActive)
        }
    } else if t.status == TaskStatus::Open && now > t.expiration_timestamp {
        None
    } else {
        Some(SunpathError::CannotReclaimFunds)
    }
}

/// The record after a successful reclaim: reclaimed, stamped with `now`,
/// and with the custody amount reset to exactly zero, so a second reclaim
/// finds a terminal record and nothing left to move.
pub open spec fn reclaimed_record(t: TaskAccount, now: i64) -> TaskAccount {
    TaskAccount {
        task_id: t.task_id,
        consigner_wallet: t.consigner_wallet,
        reward_amount_locked: 0,
        creation_timestamp: t.creation_timestamp,
        duration_seconds: t.duration_seconds,
        expiration_timestamp: t.expiration_timestamp,
        status: TaskStatus::Reclaimed,
        status_update_timestamp: now,
        assigned_reporter: t.assigned_reporter,
        report_pda: t.report_pda,
        is_initialized: t.is_initialized,
    }
}

/// Returns the locked reward to the consigner once the record is eligible:
/// after the denial lockup of a rejection, or immediately once an open
/// task has expired unaccepted.
///
/// `caller` is the caller's identity, already authenticated by the host,
/// and must match the record's stored consigner. On success the returned
/// payout names the stored consigner and exactly the locked amount, and
/// the record's custody amount is zeroed in the same step, so no double
/// reclaim is possible. On any error nothing changes.
pub fn reclaim_task_funds(
    task: &mut TaskAccount,
    config: &ProgramConfig,
    caller: AccountId,
    now: i64,
) -> (r: Result<Payout, SunpathError>)
    ensures
        match r {
            Ok(p) => {
                &&& reclaim_refusal(*old(task), *config, caller, now) is None
                &&& *final(task) == reclaimed_record(*old(task), now)
                &&& p == reclaim_payout(*old(task))
            },
            Err(e) => {
                &&& reclaim_refusal(*old(task), *config, caller, now) == Some(e)
                &&& *final(task) == *old(task)
            },
        },
{
    if caller != task.consigner_wallet {
        return Err(SunpathError::NotConsigner);
    }
    let amount_to_reclaim = task.reward_amount_locked;
    if task.status == TaskStatus::Rejected {
        let reclaim_allowed_at = match task.status_update_timestamp.checked_add(
            config.denial_penalty_duration,
        ) {
            Some(t) => t,
            None => {
                return Err(SunpathError::TimestampOverflow);
            },
        };
        if now < reclaim_allowed_at {
            return Err(SunpathError::DenialLockupActive);
        }
    } else if task.status == TaskStatus::Open && now > task.expiration_timestamp {
        // eligible: the task expired with nobody acting on it
    } else {
        return Err(SunpathError::CannotReclaimFunds);
    }
    task.status = TaskStatus::Reclaimed;
    task.status_update_timestamp = now;
    task.reward_amount_locked = 0;
    Ok(Payout { to: task.consigner_wallet, amount: amount_to_reclaim })
}

} // verus!
