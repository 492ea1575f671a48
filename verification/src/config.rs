//! Global, write-once configuration.

use crate::identity::AccountId;
use vstd::prelude::*;

verus! {

/// The global configuration singleton.
///
/// It is created exactly once and never mutated by the core afterwards;
/// the host store's uniqueness-on-create guarantee at the fixed
/// configuration address enforces the write-once property. Every lifecycle
/// operation reads it as an immutable snapshot. The governance-token,
/// fee-percentage, and patroller fields are stored but never read by any
/// transition.
#[derive(Clone, Copy, Debug, PartialEq, Eq, Structural)]
pub struct ProgramConfig {
    pub admin: AccountId,
    pub dao_treasury_address: AccountId,
    pub governance_token_mint: AccountId,
    pub minimum_reward_amount: u64,
    pub dao_fee_percentage: u8,
    pub denial_penalty_duration: i64,
    pub patroller_governance_token_amount: u64,
    pub is_initialized: bool,
}

/// Builds the configuration record exactly as given, marked initialized.
///
/// The host stores the result at the fixed configuration address and fails
/// the whole operation if a record already exists there.
pub fn initialize_program(
    admin: AccountId,
    dao_treasury_address: AccountId,
    governance_token_mint: AccountId,
    minimum_reward_amount: u64,
    dao_fee_percentage: u8,
    denial_penalty_duration: i64,
    patroller_governance_token_amount: u64,
) -> (config: ProgramConfig)
    ensures
        config == (ProgramConfig {
            admin,
            dao_treasury_address,
            governance_token_mint,
            minimum_reward_amount,
            dao_fee_percentage,
            denial_penalty_duration,
            patroller_governance_token_amount,
            is_initialized: true,
        }),
{
    ProgramConfig {
        admin,
        dao_treasury_address,
        governance_token_mint,
        minimum_reward_amount,
        dao_fee_percentage,
        denial_penalty_duration,
        patroller_governance_token_amount,
        is_initialized: true,
    }
}

} // verus!
