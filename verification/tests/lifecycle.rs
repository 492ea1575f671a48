use sunpath::AccountId;
use sunpath::ProgramConfig;
use sunpath::SunpathError;
use sunpath::TaskAccount;
use sunpath::TaskStatus;
use sunpath::accept_task;
use sunpath::create_task;
use sunpath::initialize_admin_counter;
use sunpath::initialize_program;
use sunpath::reclaim_task_funds;
use sunpath::reject_task;

fn acct(n: u64) -> AccountId {
    AccountId::from_u64(n)
}

fn config(minimum_reward_amount: u64, denial_penalty_duration: i64) -> ProgramConfig {
    initialize_program(
        acct(1),
        acct(2),
        acct(3),
        minimum_reward_amount,
        5,
        denial_penalty_duration,
        0,
    )
}

fn open_task(cfg: &ProgramConfig, consigner: AccountId, reward: u64, duration: i64, now: i64) -> TaskAccount {
    create_task(cfg, consigner, 1, reward, duration, now).expect("creation should succeed")
}

#[test]
fn scenario_a_create_accept_then_closed() {
    let cfg = config(10, 86400);
    let consigner = acct(7);
    let recipient = acct(9);
    let t0: i64 = 100;

    let mut task = create_task(&cfg, consigner, 1, 1000, 3600, t0).unwrap();
    assert_eq!(task.status, TaskStatus::Open);
    assert_eq!(task.expiration_timestamp, t0 + 3600);
    assert_eq!(task.reward_amount_locked, 1000);
    assert_eq!(task.creation_timestamp, t0);
    assert_eq!(task.status_update_timestamp, t0);
    assert_eq!(task.consigner_wallet, consigner);
    assert_eq!(task.task_id, 1);
    assert_eq!(task.assigned_reporter, None);
    assert!(task.is_initialized);

    let mut counter = initialize_admin_counter(consigner);
    let payout = accept_task(&mut task, &mut counter, consigner, recipient, t0 + 10).unwrap();
    assert_eq!(payout.to, recipient);
    assert_eq!(payout.amount, 1000);
    assert_eq!(task.status, TaskStatus::Approved);
    assert_eq!(task.status_update_timestamp, t0 + 10);
    assert_eq!(task.assigned_reporter, Some(recipient));
    assert_eq!(counter.accept_count, 1);
    assert_eq!(counter.reject_count, 0);

    let second = accept_task(&mut task, &mut counter, consigner, recipient, t0 + 20);
    assert_eq!(second, Err(SunpathError::TaskNotOpen));
    assert_eq!(task.status, TaskStatus::Approved);
    assert_eq!(counter.accept_count, 1);
}

#[test]
fn scenario_b_reject_lockup_then_reclaim() {
    let penalty: i64 = 86400;
    let cfg = config(10, penalty);
    let consigner = acct(7);
    let t0: i64 = 1000;

    let mut task = create_task(&cfg, consigner, 2, 500, 100, t0).unwrap();
    let mut counter = initialize_admin_counter(consigner);

    reject_task(&mut task, &mut counter, consigner, t0 + 5).unwrap();
    assert_eq!(task.status, TaskStatus::Rejected);
    assert_eq!(task.status_update_timestamp, t0 + 5);
    assert_eq!(task.reward_amount_locked, 500);
    assert_eq!(counter.reject_count, 1);
    assert_eq!(counter.accept_count, 0);

    let early = reclaim_task_funds(&mut task, &cfg, consigner, t0 + 5 + penalty - 1);
    assert_eq!(early, Err(SunpathError::DenialLockupActive));
    assert_eq!(task.status, TaskStatus::Rejected);
    assert_eq!(task.reward_amount_locked, 500);

    let payout = reclaim_task_funds(&mut task, &cfg, consigner, t0 + 5 + penalty).unwrap();
    assert_eq!(payout.to, consigner);
    assert_eq!(payout.amount, 500);
    assert_eq!(task.status, TaskStatus::Reclaimed);
    assert_eq!(task.reward_amount_locked, 0);
    assert_eq!(task.status_update_timestamp, t0 + 5 + penalty);
}

#[test]
fn create_refuses_reward_below_minimum() {
    let cfg = config(1000, 86400);
    let consigner = acct(7);
    let r = create_task(&cfg, consigner, 1, 999, 3600, 100);
    assert_eq!(r, Err(SunpathError::RewardAmountTooLow));
}

#[test]
fn create_accepts_reward_at_minimum() {
    let cfg = config(1000, 86400);
    let consigner = acct(7);
    let t = create_task(&cfg, consigner, 1, 1000, 3600, 100).unwrap();
    assert_eq!(t.reward_amount_locked, 1000);
    assert_eq!(t.status, TaskStatus::Open);
}

#[test]
fn create_expiration_fills_the_representable_range() {
    let cfg = config(10, 86400);
    let consigner = acct(7);
    let t = create_task(&cfg, consigner, 1, 100, i64::MAX - 50, 50).unwrap();
    assert_eq!(t.expiration_timestamp, i64::MAX);
}

#[test]
fn create_refuses_expiration_overflow() {
    let cfg = config(10, 86400);
    let consigner = acct(7);
    let r = create_task(&cfg, consigner, 1, 100, 1, i64::MAX);
    assert_eq!(r, Err(SunpathError::TimestampOverflow));
    let r2 = create_task(&cfg, consigner, 1, 100, -1, i64::MIN);
    assert_eq!(r2, Err(SunpathError::TimestampOverflow));
}

#[test]
fn reward_floor_outranks_overflow_check() {
    let cfg = config(1000, 86400);
    let consigner = acct(7);
    let r = create_task(&cfg, consigner, 1, 1, 1, i64::MAX);
    assert_eq!(r, Err(SunpathError::RewardAmountTooLow));
}

#[test]
fn negative_duration_expires_in_the_past() {
    let cfg = config(10, 86400);
    let consigner = acct(7);
    let mut task = create_task(&cfg, consigner, 1, 100, -100, 1000).unwrap();
    assert_eq!(task.expiration_timestamp, 900);
    let mut counter = initialize_admin_counter(consigner);
    let a = accept_task(&mut task, &mut counter, consigner, acct(9), 1000);
    assert_eq!(a, Err(SunpathError::TaskExpired));
    let payout = reclaim_task_funds(&mut task, &cfg, consigner, 1000).unwrap();
    assert_eq!(payout.amount, 100);
}

#[test]
fn rejected_record_refuses_accept_and_reject() {
    let cfg = config(10, 86400);
    let consigner = acct(7);
    let mut task = open_task(&cfg, consigner, 100, 3600, 0);
    let mut counter = initialize_admin_counter(consigner);
    reject_task(&mut task, &mut counter, consigner, 5).unwrap();

    let a = accept_task(&mut task, &mut counter, consigner, acct(9), 6);
    assert_eq!(a, Err(SunpathError::TaskNotOpen));
    let r = reject_task(&mut task, &mut counter, consigner, 6);
    assert_eq!(r, Err(SunpathError::TaskNotOpen));
    assert_eq!(counter.accept_count, 0);
    assert_eq!(counter.reject_count, 1);
}

#[test]
fn approved_record_refuses_accept_and_reject() {
    let cfg = config(10, 86400);
    let consigner = acct(7);
    let mut task = open_task(&cfg, consigner, 100, 3600, 0);
    let mut counter = initialize_admin_counter(consigner);
    accept_task(&mut task, &mut counter, consigner, acct(9), 5).unwrap();

    let a = accept_task(&mut task, &mut counter, consigner, acct(9), 6);
    assert_eq!(a, Err(SunpathError::TaskNotOpen));
    let r = reject_task(&mut task, &mut counter, consigner, 6);
    assert_eq!(r, Err(SunpathError::TaskNotOpen));
}

#[test]
fn accept_allowed_at_the_expiration_instant() {
    let cfg = config(10, 86400);
    let consigner = acct(7);
    let mut task = open_task(&cfg, consigner, 100, 3600, 0);
    let mut counter = initialize_admin_counter(consigner);
    let payout = accept_task(&mut task, &mut counter, consigner, acct(9), 3600).unwrap();
    assert_eq!(payout.amount, 100);
}

#[test]
fn accept_and_reject_refused_past_expiration() {
    let cfg = config(10, 86400);
    let consigner = acct(7);
    let mut task = open_task(&cfg, consigner, 100, 3600, 0);
    let mut counter = initialize_admin_counter(consigner);

    let a = accept_task(&mut task, &mut counter, consigner, acct(9), 3601);
    assert_eq!(a, Err(SunpathError::TaskExpired));
    let r = reject_task(&mut task, &mut counter, consigner, 3601);
    assert_eq!(r, Err(SunpathError::TaskExpired));
    assert_eq!(task.status, TaskStatus::Open);
    assert_eq!(counter.accept_count, 0);
    assert_eq!(counter.reject_count, 0);
}

#[test]
fn reclaim_of_expired_open_task_has_no_delay() {
    let cfg = config(10, i64::MAX);
    let consigner = acct(7);
    let mut task = open_task(&cfg, consigner, 100, 3600, 0);
    let payout = reclaim_task_funds(&mut task, &cfg, consigner, 3601).unwrap();
    assert_eq!(payout.to, consigner);
    assert_eq!(payout.amount, 100);
    assert_eq!(task.status, TaskStatus::Reclaimed);
    assert_eq!(task.reward_amount_locked, 0);
}

#[test]
fn reclaim_of_unexpired_open_task_is_refused() {
    let cfg = config(10, 86400);
    let consigner = acct(7);
    let mut task = open_task(&cfg, consigner, 100, 3600, 0);
    let r = reclaim_task_funds(&mut task, &cfg, consigner, 3600);
    assert_eq!(r, Err(SunpathError::CannotReclaimFunds));
    assert_eq!(task.status, TaskStatus::Open);
    assert_eq!(task.reward_amount_locked, 100);
}

#[test]
fn reclaim_of_approved_task_is_refused() {
    let cfg = config(10, 86400);
    let consigner = acct(7);
    let mut task = open_task(&cfg, consigner, 100, 3600, 0);
    let mut counter = initialize_admin_counter(consigner);
    accept_task(&mut task, &mut counter, consigner, acct(9), 5).unwrap();

    let r = reclaim_task_funds(&mut task, &cfg, consigner, 1_000_000);
    assert_eq!(r, Err(SunpathError::CannotReclaimFunds));
}

#[test]
fn double_reclaim_is_refused() {
    let cfg = config(10, 0);
    let consigner = acct(7);
    let mut task = open_task(&cfg, consigner, 100, 3600, 0);
    let mut counter = initialize_admin_counter(consigner);
    reject_task(&mut task, &mut counter, consigner, 5).unwrap();
    reclaim_task_funds(&mut task, &cfg, consigner, 5).unwrap();
    assert_eq!(task.reward_amount_locked, 0);

    let again = reclaim_task_funds(&mut task, &cfg, consigner, 10);
    assert_eq!(again, Err(SunpathError::CannotReclaimFunds));
    assert_eq!(task.reward_amount_locked, 0);
    assert_eq!(task.status, TaskStatus::Reclaimed);
}

#[test]
fn reclaim_deadline_overflow_is_refused() {
    let cfg = config(10, i64::MAX);
    let consigner = acct(7);
    let mut task = open_task(&cfg, consigner, 100, 3600, 0);
    let mut counter = initialize_admin_counter(consigner);
    reject_task(&mut task, &mut counter, consigner, 5).unwrap();

    let r = reclaim_task_funds(&mut task, &cfg, consigner, i64::MAX);
    assert_eq!(r, Err(SunpathError::TimestampOverflow));
    assert_eq!(task.status, TaskStatus::Rejected);
    assert_eq!(task.reward_amount_locked, 100);
}

#[test]
fn wrong_caller_is_refused_everywhere() {
    let cfg = config(10, 0);
    let consigner = acct(7);
    let stranger = acct(8);
    let mut task = open_task(&cfg, consigner, 100, 3600, 0);
    let mut counter = initialize_admin_counter(stranger);

    let a = accept_task(&mut task, &mut counter, stranger, acct(9), 5);
    assert_eq!(a, Err(SunpathError::NotTaskConsigner));
    let r = reject_task(&mut task, &mut counter, stranger, 5);
    assert_eq!(r, Err(SunpathError::NotTaskConsigner));
    let c = reclaim_task_funds(&mut task, &cfg, stranger, 5000);
    assert_eq!(c, Err(SunpathError::NotConsigner));
    assert_eq!(task.status, TaskStatus::Open);
    assert_eq!(task.reward_amount_locked, 100);
    assert_eq!(counter.accept_count, 0);
    assert_eq!(counter.reject_count, 0);
}

#[test]
fn accept_counter_overflow_aborts_without_changes() {
    let cfg = config(10, 86400);
    let consigner = acct(7);
    let mut task = open_task(&cfg, consigner, 100, 3600, 0);
    let mut counter = initialize_admin_counter(consigner);
    counter.accept_count = u64::MAX;

    let a = accept_task(&mut task, &mut counter, consigner, acct(9), 5);
    assert_eq!(a, Err(SunpathError::CounterOverflow));
    assert_eq!(task.status, TaskStatus::Open);
    assert_eq!(task.assigned_reporter, None);
    assert_eq!(counter.accept_count, u64::MAX);
    assert_eq!(counter.reject_count, 0);
}

#[test]
fn reject_counter_overflow_aborts_without_changes() {
    let cfg = config(10, 86400);
    let consigner = acct(7);
    let mut task = open_task(&cfg, consigner, 100, 3600, 0);
    let mut counter = initialize_admin_counter(consigner);
    counter.reject_count = u64::MAX;

    let r = reject_task(&mut task, &mut counter, consigner, 5);
    assert_eq!(r, Err(SunpathError::CounterOverflow));
    assert_eq!(task.status, TaskStatus::Open);
    assert_eq!(counter.reject_count, u64::MAX);
    assert_eq!(counter.accept_count, 0);
}

#[test]
fn stored_expired_status_is_closed_and_not_reclaimable() {
    let cfg = config(10, 0);
    let consigner = acct(7);
    let mut task = open_task(&cfg, consigner, 100, 3600, 0);
    // No transition ever assigns `Expired`; a record carrying it is
    // neither open nor eligible for reclaim.
    task.status = TaskStatus::Expired;
    let mut counter = initialize_admin_counter(consigner);

    let a = accept_task(&mut task, &mut counter, consigner, acct(9), 5);
    assert_eq!(a, Err(SunpathError::TaskNotOpen));
    let r = reject_task(&mut task, &mut counter, consigner, 5);
    assert_eq!(r, Err(SunpathError::TaskNotOpen));
    let c = reclaim_task_funds(&mut task, &cfg, consigner, 1_000_000);
    assert_eq!(c, Err(SunpathError::CannotReclaimFunds));
    assert_eq!(task.status, TaskStatus::Expired);
    assert_eq!(task.reward_amount_locked, 100);
}

#[test]
fn accept_leaves_locked_amount_field_as_created() {
    let cfg = config(10, 86400);
    let consigner = acct(7);
    let mut task = open_task(&cfg, consigner, 100, 3600, 0);
    let mut counter = initialize_admin_counter(consigner);
    accept_task(&mut task, &mut counter, consigner, acct(9), 5).unwrap();
    assert_eq!(task.reward_amount_locked, 100);
}
