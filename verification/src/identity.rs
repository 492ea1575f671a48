//! Account identities.

use vstd::prelude::*;

verus! {

/// A 256-bit account identity, held as four 64-bit words.
///
/// This stands for the public key of a wallet or of a derived storage
/// account. The lifecycle logic never inspects an identity: it only stores
/// identities and compares them for equality, so a plain value of four
/// words carries everything the engine reads. The host platform verifies
/// the caller's signature before an operation runs; the engine then
/// compares the already-verified caller identity against stored ones.
#[derive(Clone, Copy, Debug, PartialEq, Eq, Structural)]
pub struct AccountId {
    pub w0: u64,
    pub w1: u64,
    pub w2: u64,
    pub w3: u64,
}

impl AccountId {
    /// Builds an identity from its four words.
    pub fn from_words(w0: u64, w1: u64, w2: u64, w3: u64) -> (r: AccountId)
        ensures
            r == (AccountId { w0, w1, w2, w3 }),
    {
        AccountId { w0, w1, w2, w3 }
    }

    /// Builds an identity with the given low word and zero elsewhere.
    pub fn from_u64(n: u64) -> (r: AccountId)
        ensures
            r == (AccountId { w0: n, w1: 0, w2: 0, w3: 0 }),
    {
        AccountId { w0: n, w1: 0, w2: 0, w3: 0 }
    }
}

} // verus!
