//! Per-consigner action counters.

use crate::errors::SunpathError;
use crate::identity::AccountId;
use vstd::prelude::*;

verus! {

/// Counts the accept and reject decisions a consigner has made.
///
/// Both counts are monotonically increasing; an increment past the maximum
/// representable value is a fatal operation error, never a wraparound or a
/// saturation. The counter is a side effect of the accept and reject
/// operations and is never read by the transition logic itself.
#[derive(Clone, Copy, Debug, PartialEq, Eq, Structural)]
pub struct AdminActionCounter {
    pub admin: AccountId,
    pub accept_count: u64,
    pub reject_count: u64,
}

/// Builds a fresh counter for `admin` with both counts at zero.
pub fn initialize_admin_counter(admin: AccountId) -> (counter: AdminActionCounter)
    ensures
        counter == (AdminActionCounter { admin, accept_count: 0, reject_count: 0 }),
{
    AdminActionCounter { admin, accept_count: 0, reject_count: 0 }
}

/// Returns the consigner's existing counter, or a fresh zeroed one if none
/// exists yet (the counter is created on first use).
pub fn ensure_counter(existing: Option<AdminActionCounter>, consigner: AccountId) -> (counter:
    AdminActionCounter)
    ensures
        existing matches Some(c) ==> counter == c,
        existing is None ==> counter == (AdminActionCounter {
            admin: consigner,
            accept_count: 0,
            reject_count: 0,
        }),
{
    match existing {
        Some(c) => c,
        None => AdminActionCounter { admin: consigner, accept_count: 0, reject_count: 0 },
    }
}

impl AdminActionCounter {
    /// Adds one to the accept count, failing if it is already at the
    /// maximum; on failure the counter is unchanged.
    pub fn increment_accept(&mut self) -> (r: Result<(), SunpathError>)
        ensures
            match r {
                Ok(()) => {
                    &&& old(self).accept_count < u64::MAX
                    &&& final(self).accept_count == old(self).accept_count + 1
                    &&& final(self).reject_count == old(self).reject_count
                    &&& final(self).admin == old(self).admin
                },
                Err(e) => {
                    &&& e == SunpathError::CounterOverflow
                    &&& old(self).accept_count == u64::MAX
                    &&& *final(self) == *old(self)
                },
            },
    {
        if self.accept_count == u64::MAX {
            Err(SunpathError::CounterOverflow)
        } else {
            self.accept_count = self.accept_count + 1;
            Ok(())
        }
    }

    /// Adds one to the reject count, failing if it is already at the
    /// maximum; on failure the counter is unchanged.
    pub fn increment_reject(&mut self) -> (r: Result<(), SunpathError>)
        ensures
            match r {
                Ok(()) => {
                    &&& old(self).reject_count < u64::MAX
                    &&& final(self).reject_count == old(self).reject_count + 1
                    &&& final(self).accept_count == old(self).accept_count
                    &&& final(self).admin == old(self).admin
                },
                Err(e) => {
                    &&& e == SunpathError::CounterOverflow
                    &&& old(self).reject_count == u64::MAX
                    &&& *final(self) == *old(self)
                },
            },
    {
        if self.reject_count == u64::MAX {
            Err(SunpathError::CounterOverflow)
        } else {
            self.reject_count = self.reject_count + 1;
            Ok(())
        }
    }
}

} // verus!
