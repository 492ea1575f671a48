//! Deterministic addresses in the host's keyed persistent store.

use crate::identity::AccountId;
use vstd::prelude::*;

verus! {

/// The address of a record in the keyed persistent store.
///
/// Each record kind lives under its own namespace tag: the configuration
/// singleton at one fixed address, each task record at an address derived
/// from its consigner identity and task identifier, and each action
/// counter at an address derived from its owner's identity. The store,
/// not the engine, guarantees that creation at an occupied address fails;
/// injectivity of this addressing (see the lemmas below) is what makes a
/// (consigner, task identifier) pair unique.
#[derive(Clone, Copy, Debug, PartialEq, Eq, Structural)]
pub enum RecordAddress {
    /// The single global configuration record.
    Config,
    /// The task record of `consigner_wallet`'s task `task_id`.
    Task { consigner_wallet: AccountId, task_id: u64 },
    /// The action counter owned by `admin`.
    AdminCounter { admin: AccountId },
}

/// The fixed address of the configuration singleton.
pub fn config_address() -> (a: RecordAddress)
    ensures
        a == RecordAddress::Config,
{
    RecordAddress::Config
}

/// The address of the task record for `consigner_wallet`'s task
/// `task_id`.
pub fn task_address(consigner_wallet: AccountId, task_id: u64) -> (a: RecordAddress)
    ensures
        a == (RecordAddress::Task { consigner_wallet, task_id }),
{
    RecordAddress::Task { consigner_wallet, task_id }
}

/// The address of the action counter owned by `admin`.
pub fn counter_address(admin: AccountId) -> (a: RecordAddress)
    ensures
        a == (RecordAddress::AdminCounter { admin }),
{
    RecordAddress::AdminCounter { admin }
}

/// Task addressing is injective: two task addresses coincide exactly when
/// both the consigner identity and the task identifier coincide. Together
/// with the store's refusal to create at an occupied address, this is what
/// forbids two task records sharing a (consigner, task identifier) pair.
pub proof fn lemma_task_address_injective(a1: AccountId, id1: u64, a2: AccountId, id2: u64)
    ensures
        ((RecordAddress::Task { consigner_wallet: a1, task_id: id1 }) == (RecordAddress::Task {
            consigner_wallet: a2,
            task_id: id2,
        })) <==> (a1 == a2 && id1 == id2),
{
}

/// Counter addressing is injective, and no counter address collides with
/// a task address or with the configuration address.
pub proof fn lemma_address_kinds_disjoint(owner: AccountId, consigner: AccountId, task_id: u64)
    ensures
        ((RecordAddress::AdminCounter { admin: owner }) == (RecordAddress::AdminCounter {
            admin: consigner,
        })) <==> owner == consigner,
        ((RecordAddress::AdminCounter { admin: owner }) != (RecordAddress::Task {
            consigner_wallet: consigner,
            task_id,
        })),
        ((RecordAddress::AdminCounter { admin: owner }) != RecordAddress::Config),
        ((RecordAddress::Task { consigner_wallet: consigner, task_id }) != RecordAddress::Config),
{
}

} // verus!
