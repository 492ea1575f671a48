//! An escrow-style task-bounty ledger.
//!
//! A consigner locks a reward against a task; the task then resolves to one
//! of a small set of terminal outcomes: paid out to a recipient on
//! acceptance, rejected and held through a penalty window, or reclaimed by
//! the consigner after expiration or after the penalty window elapses.
//!
//! The crate holds the lifecycle engine itself: the state machine with its
//! timing windows, authorization checks, checked arithmetic, and
//! exactly-once fund movement. The host platform that surrounds it (atomic
//! transaction execution, signature verification of callers, the wall
//! clock, and the keyed persistent store) is a collaborator: each operation
//! here takes the already-verified caller identity and the clock reading as
//! plain arguments and returns the fund movement the host must perform in
//! the same atomic unit.

pub mod address;
pub mod config;
pub mod counter;
pub mod errors;
pub mod identity;
pub mod laws;
pub mod lifecycle;
pub mod status;
pub mod task;

pub use address::RecordAddress;
pub use config::ProgramConfig;
pub use config::initialize_program;
pub use counter::AdminActionCounter;
pub use counter::ensure_counter;
pub use counter::initialize_admin_counter;
pub use errors::SunpathError;
pub use identity::AccountId;
pub use lifecycle::Payout;
pub use lifecycle::accept_task;
pub use lifecycle::create_task;
pub use lifecycle::reclaim_task_funds;
pub use lifecycle::reject_task;
pub use status::TaskStatus;
pub use task::TaskAccount;
