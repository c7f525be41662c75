//! The ways in which a write to the ledger is refused.

use vstd::prelude::*;

verus! {

/// Why a mutating call was refused. A refused call changes nothing.
#[derive(Clone, Copy, Debug, PartialEq, Eq, Structural)]
pub enum LedgerError {
    /// The caller is not the allowed caller (or, for an owner-only
    /// operation, not the owner).
    Unauthorized,
    /// The commitment is not exactly 32 bytes long.
    InvalidCommitment,
    /// The claim already has an attestation.
    DuplicateClaim,
    /// The payroll run already has a receipt.
    DuplicateReceipt,
    /// The `(authorizer, nonce)` pair was already spent by a receipt.
    NonceReused,
}

} // verus!
