//! Laws of the lifecycle engine, each proved against the transition
//! specifications that the operations' contracts are stated over.

use crate::config::ProgramConfig;
use crate::counter::AdminActionCounter;
use crate::errors::SunpathError;
use crate::identity::AccountId;
use crate::lifecycle::accept_refusal;
use crate::lifecycle::accepted_record;
use crate::lifecycle::counter_after_accept;
use crate::lifecycle::counter_after_reject;
use crate::lifecycle::create_refusal;
use crate::lifecycle::created_record;
use crate::lifecycle::fits_i64;
use crate::lifecycle::reclaim_payout;
use crate::lifecycle::reclaim_refusal;
use crate::lifecycle::reclaimed_record;
use crate::lifecycle::reject_refusal;
use crate::lifecycle::rejected_record;
use crate::status::TaskStatus;
use crate::task::TaskAccount;
use vstd::prelude::*;

verus! {

/// A reward below the configured floor is always refused as too low, for
/// every input; nothing is created, so no balance moves.
pub proof fn lemma_reward_floor(
    config: ProgramConfig,
    reward_amount: u64,
    duration_seconds: i64,
    now: i64,
)
    requires
        reward_amount < config.minimum_reward_amount,
    ensures
        create_refusal(config, reward_amount, duration_seconds, now) == Some(
            SunpathError::RewardAmountTooLow,
        ),
{
}

/// The expiration timestamp is exactly the creation timestamp plus the
/// duration whenever that sum is representable; when it is not, creation
/// of an adequately funded task is refused with the overflow error and no
/// record comes into being.
pub proof fn lemma_expiration_exact(
    config: ProgramConfig,
    consigner: AccountId,
    task_id: u64,
    reward_amount: u64,
    duration_seconds: i64,
    now: i64,
)
    ensures
        fits_i64(now + duration_seconds) ==> created_record(
            consigner,
            task_id,
            reward_amount,
            duration_seconds,
            now,
        ).expiration_timestamp == now + duration_seconds,
        fits_i64(now + duration_seconds) ==> created_record(
            consigner,
            task_id,
            reward_amount,
            duration_seconds,
            now,
        ).creation_timestamp == now,
        !fits_i64(now + duration_seconds) && reward_amount >= config.minimum_reward_amount
            ==> create_refusal(config, reward_amount, duration_seconds, now) == Some(
            SunpathError::TimestampOverflow,
        ),
{
}

/// Once a record has left `Open`, both acceptance and rejection are
/// refused as not open, whatever else holds of the clock or the counter.
pub proof fn lemma_left_open_is_closed(
    t: TaskAccount,
    counter: AdminActionCounter,
    caller: AccountId,
    now: i64,
)
    requires
        caller == t.consigner_wallet,
        t.status != TaskStatus::Open,
    ensures
        accept_refusal(t, counter, caller, now) == Some(SunpathError::TaskNotOpen),
        reject_refusal(t, counter, caller, now) == Some(SunpathError::TaskNotOpen),
{
}

/// Past the expiration timestamp, acceptance and rejection are refused as
/// expired even while the stored status is still `Open`.
pub proof fn lemma_expiry_closes_open_task(
    t: TaskAccount,
    counter: AdminActionCounter,
    caller: AccountId,
    now: i64,
)
    requires
        caller == t.consigner_wallet,
        t.status == TaskStatus::Open,
        now > t.expiration_timestamp,
    ensures
        accept_refusal(t, counter, caller, now) == Some(SunpathError::TaskExpired),
        reject_refusal(t, counter, caller, now) == Some(SunpathError::TaskExpired),
{
}

/// For a rejected record whose lockup deadline is representable, a reclaim
/// strictly before `status_update_timestamp + denial_penalty_duration` is
/// refused with the lockup error, while at or after that instant it is
/// admitted, orders the full locked reward back to the consigner, marks
/// the record reclaimed, and zeroes the locked amount.
pub proof fn lemma_denial_lockup_window(t: TaskAccount, config: ProgramConfig, now: i64)
    requires
        t.status == TaskStatus::Rejected,
        fits_i64(t.status_update_timestamp + config.denial_penalty_duration),
    ensures
        now < t.status_update_timestamp + config.denial_penalty_duration ==> reclaim_refusal(
            t,
            config,
            t.consigner_wallet,
            now,
        ) == Some(SunpathError::DenialLockupActive),
        now >= t.status_update_timestamp + config.denial_penalty_duration ==> (reclaim_refusal(
            t,
            config,
            t.consigner_wallet,
            now,
        ) is None),
        reclaim_payout(t).to == t.consigner_wallet,
        reclaim_payout(t).amount == t.reward_amount_locked,
        reclaimed_record(t, now).status == TaskStatus::Reclaimed,
        reclaimed_record(t, now).reward_amount_locked == 0,
{
}

/// An open record that has expired is reclaimable at once: no lockup
/// delay applies on the expiration path.
pub proof fn lemma_expired_open_reclaims_immediately(
    t: TaskAccount,
    config: ProgramConfig,
    now: i64,
)
    requires
        t.status == TaskStatus::Open,
        now > t.expiration_timestamp,
    ensures
        (reclaim_refusal(t, config, t.consigner_wallet, now) is None),
{
}

/// A terminal record — approved, with the reward already paid out of
/// custody, or reclaimed — can never be reclaimed. In particular a second
/// reclaim of the same record, at any later reading of the clock, is
/// always refused.
pub proof fn lemma_terminal_records_not_reclaimable(
    t: TaskAccount,
    config: ProgramConfig,
    then: i64,
    now: i64,
)
    ensures
        t.status.is_terminal() ==> reclaim_refusal(t, config, t.consigner_wallet, now) == Some(
            SunpathError::CannotReclaimFunds,
        ),
        reclaimed_record(t, then).status.is_terminal(),
        reclaim_refusal(reclaimed_record(t, then), config, t.consigner_wallet, now) == Some(
            SunpathError::CannotReclaimFunds,
        ),
{
}

/// A successful acceptance or rejection moves exactly one of the caller's
/// two counters, and moves it by exactly one.
pub proof fn lemma_counter_moves_by_one(counter: AdminActionCounter, caller: AccountId)
    requires
        counter.accept_count < u64::MAX,
        counter.reject_count < u64::MAX,
    ensures
        counter_after_accept(counter, caller).accept_count == counter.accept_count + 1,
        counter_after_accept(counter, caller).reject_count == counter.reject_count,
        counter_after_reject(counter, caller).reject_count == counter.reject_count + 1,
        counter_after_reject(counter, caller).accept_count == counter.accept_count,
{
}

/// A counter already at the maximum representable value refuses the
/// operation that would move it, with the overflow error, once every
/// earlier gate has passed.
pub proof fn lemma_counter_overflow_refused(
    t: TaskAccount,
    counter: AdminActionCounter,
    caller: AccountId,
    now: i64,
)
    requires
        caller == t.consigner_wallet,
        t.status == TaskStatus::Open,
        now <= t.expiration_timestamp,
    ensures
        counter.accept_count == u64::MAX ==> accept_refusal(t, counter, caller, now) == Some(
            SunpathError::CounterOverflow,
        ),
        counter.reject_count == u64::MAX ==> reject_refusal(t, counter, caller, now) == Some(
            SunpathError::CounterOverflow,
        ),
{
}

/// The status transitions form a strict forward path: acceptance and
/// rejection are admitted only from `Open`, a reclaim only from
/// `Rejected` or `Open`, and no transition's result is ever `Open` again.
pub proof fn lemma_forward_path(
    t: TaskAccount,
    counter: AdminActionCounter,
    config: ProgramConfig,
    caller: AccountId,
    recipient: AccountId,
    now: i64,
)
    ensures
        (accept_refusal(t, counter, caller, now) is None) ==> t.status == TaskStatus::Open,
        (reject_refusal(t, counter, caller, now) is None) ==> t.status == TaskStatus::Open,
        (reclaim_refusal(t, config, caller, now) is None) ==> (t.status == TaskStatus::Rejected
            || t.status == TaskStatus::Open),
        accepted_record(t, recipient, now).status == TaskStatus::Approved,
        rejected_record(t, now).status == TaskStatus::Rejected,
        reclaimed_record(t, now).status == TaskStatus::Reclaimed,
{
}

/// Under the host's monotonic clock, the status-update timestamp never
/// decreases: each transition stamps the record with a reading at or
/// after the one it carried.
pub proof fn lemma_status_update_monotonic(t: TaskAccount, recipient: AccountId, now: i64)
    requires
        now >= t.status_update_timestamp,
    ensures
        accepted_record(t, recipient, now).status_update_timestamp >= t.status_update_timestamp,
        rejected_record(t, now).status_update_timestamp >= t.status_update_timestamp,
        reclaimed_record(t, now).status_update_timestamp >= t.status_update_timestamp,
{
}

/// Every transition preserves well-formedness of the record, and a
/// successful creation establishes it.
pub proof fn lemma_transitions_preserve_wf(
    t: TaskAccount,
    consigner: AccountId,
    task_id: u64,
    reward_amount: u64,
    duration_seconds: i64,
    recipient: AccountId,
    now: i64,
)
    requires
        t.wf(),
    ensures
        accepted_record(t, recipient, now).wf(),
        rejected_record(t, now).wf(),
        reclaimed_record(t, now).wf(),
        fits_i64(now + duration_seconds) ==> created_record(
            consigner,
            task_id,
            reward_amount,
            duration_seconds,
            now,
        ).wf(),
{
}

} // verus!
