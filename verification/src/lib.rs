//! A privacy-preserving ledger for payroll attestations and receipts.
//!
//! The ledger stores, per claim, only a 32-byte commitment to the private
//! payment details, and per payroll run a receipt that burns the
//! `(authorizer, nonce)` pair that approved it. Every operation is a method
//! on one owned store value; the caller's identity and the clock reading are
//! handed in by the host.

pub mod access;
pub mod attestation;
pub mod commitment;
pub mod error;
pub mod keyed;
pub mod nonces;
pub mod receipt_logger;
pub mod records;

pub use access::AccessPolicy;
pub use attestation::store::PayrollAttestation;
pub use commitment::canonical_preimage;
pub use error::LedgerError;
pub use receipt_logger::store::PayrollReceiptLogger;
pub use records::{PaymentAttestation, Receipt, ReceiptRecord};
