//! The records that the stores keep, and what each one says.

use vstd::prelude::*;
use crate::keyed::Keyed;
use crate::nonces::SpendsNonce;

verus! {

/// What a payment attestation says.
pub struct PaymentView {
    pub claim_id: Seq<char>,
    pub execution_ref: Seq<char>,
    pub commitment: Seq<u8>,
    pub timestamp_nanos: u64,
}

/// What a receipt says.
pub struct ReceiptView {
    pub payroll_id: Seq<char>,
    pub batch_hash: Seq<char>,
    pub authorizer_id: Seq<char>,
    pub nonce: u64,
    pub executor_id: Seq<char>,
    pub status: Seq<char>,
    pub tx_refs_hash: Seq<char>,
    pub timestamp_nanos: u64,
}

impl ReceiptView {
    /// The `(authorizer, nonce)` pair that the receipt spends.
    pub open spec fn nonce_key(self) -> (Seq<char>, u64) {
        (self.authorizer_id, self.nonce)
    }
}

/// The attestation of one payment: a commitment to the private payment
/// details, never the details themselves.
#[derive(Debug, PartialEq, Eq)]
pub struct PaymentAttestation {
    pub claim_id: String,
    /// Cross-reference to the execution record kept elsewhere; not checked.
    pub execution_ref: String,
    /// SHA-256 digest of the canonical preimage of the payment.
    pub commitment: [u8; 32],
    /// The clock reading at which the attestation was recorded.
    pub timestamp_nanos: u64,
}

impl View for PaymentAttestation {
    type V = PaymentView;

    open spec fn view(&self) -> PaymentView {
        PaymentView {
            claim_id: self.claim_id@,
            execution_ref: self.execution_ref@,
            commitment: self.commitment@,
            timestamp_nanos: self.timestamp_nanos,
        }
    }
}

impl Keyed for PaymentAttestation {
    open spec fn key(&self) -> Seq<char> {
        self.claim_id@
    }

    fn key_ref(&self) -> (k: &String) {
        &self.claim_id
    }
}

impl Clone for PaymentAttestation {
    fn clone(&self) -> (copy: Self)
        ensures
            copy@ == self@,
    {
        PaymentAttestation {
            claim_id: self.claim_id.clone(),
            execution_ref: self.execution_ref.clone(),
            commitment: self.commitment,
            timestamp_nanos: self.timestamp_nanos,
        }
    }
}

impl PaymentAttestation {
    /// Whether a recomputed digest proves the claim: it does exactly when it
    /// is, byte for byte, the stored commitment.
    pub fn commitment_matches(&self, digest: &[u8]) -> (same: bool)
        ensures
            same == (digest@ == self.commitment@),
    {
        if digest.len() != 32 {
            return false;
        }
        let mut i: usize = 0;
        while i < 32
            invariant
                i <= 32,
                digest@.len() == 32,
                forall|k: int| 0 <= k < i ==> digest@[k] == self.commitment@[k],
            decreases 32 - i,
        {
            if digest[i] != self.commitment[i] {
                return false;
            }
            i += 1;
        }
        assert(digest@ =~= self.commitment@);
        true
    }
}

/// The receipt of one payroll run or deal payment: digests only, no amounts.
#[derive(Debug, PartialEq, Eq)]
pub struct ReceiptRecord {
    pub payroll_id: String,
    /// Digest that stands for the batch of payments.
    pub batch_hash: String,
    /// Who approved the run.
    pub authorizer_id: String,
    /// The one-time number under which the authorizer approved it.
    pub nonce: u64,
    /// Who carried the run out.
    pub executor_id: String,
    /// `success`, `partial` or `failed`; stored as given.
    pub status: String,
    /// Digest of the underlying transaction references.
    pub tx_refs_hash: String,
    /// The clock reading at which the receipt was recorded.
    pub timestamp_nanos: u64,
}

impl View for ReceiptRecord {
    type V = ReceiptView;

    open spec fn view(&self) -> ReceiptView {
        ReceiptView {
            payroll_id: self.payroll_id@,
            batch_hash: self.batch_hash@,
            authorizer_id: self.authorizer_id@,
            nonce: self.nonce,
            executor_id: self.executor_id@,
            status: self.status@,
            tx_refs_hash: self.tx_refs_hash@,
            timestamp_nanos: self.timestamp_nanos,
        }
    }
}

impl Keyed for ReceiptRecord {
    open spec fn key(&self) -> Seq<char> {
        self.payroll_id@
    }

    fn key_ref(&self) -> (k: &String) {
        &self.payroll_id
    }
}

impl SpendsNonce for ReceiptRecord {
    open spec fn spent(&self) -> (Seq<char>, u64) {
        self@.nonce_key()
    }

    fn spender(&self) -> (id: &String) {
        &self.authorizer_id
    }

    fn spent_nonce(&self) -> (nonce: u64) {
        self.nonce
    }
}

impl Clone for ReceiptRecord {
    fn clone(&self) -> (copy: Self)
        ensures
            copy@ == self@,
    {
        ReceiptRecord {
            payroll_id: self.payroll_id.clone(),
            batch_hash: self.batch_hash.clone(),
            authorizer_id: self.authorizer_id.clone(),
            nonce: self.nonce,
            executor_id: self.executor_id.clone(),
            status: self.status.clone(),
            tx_refs_hash: self.tx_refs_hash.clone(),
            timestamp_nanos: self.timestamp_nanos,
        }
    }
}

/// The receipt of one payroll run as the receipt logger keeps it: digests
/// only, no amounts.
#[derive(Debug, PartialEq, Eq)]
pub struct Receipt {
    pub payroll_id: String,
    /// Digest that stands for the batch of payments.
    pub batch_hash: String,
    /// Who approved the run.
    pub authorizer_id: String,
    /// The one-time number under which the authorizer approved it.
    pub nonce: u64,
    /// Who carried the run out.
    pub executor_id: String,
    /// `success`, `partial` or `failed`; stored as given.
    pub status: String,
    /// Digest of the underlying transaction references.
    pub tx_refs_hash: String,
    /// The clock reading at which the receipt was recorded.
    pub timestamp_nanos: u64,
}

impl View for Receipt {
    type V = ReceiptView;

    open spec fn view(&self) -> ReceiptView {
        ReceiptView {
            payroll_id: self.payroll_id@,
            batch_hash: self.batch_hash@,
            authorizer_id: self.authorizer_id@,
            nonce: self.nonce,
            executor_id: self.executor_id@,
            status: self.status@,
            tx_refs_hash: self.tx_refs_hash@,
            timestamp_nanos: self.timestamp_nanos,
        }
    }
}

impl Keyed for Receipt {
    open spec fn key(&self) -> Seq<char> {
        self.payroll_id@
    }

    fn key_ref(&self) -> (k: &String) {
        &self.payroll_id
    }
}

impl SpendsNonce for Receipt {
    open spec fn spent(&self) -> (Seq<char>, u64) {
        self@.nonce_key()
    }

    fn spender(&self) -> (id: &String) {
        &self.authorizer_id
    }

    fn spent_nonce(&self) -> (nonce: u64) {
        self.nonce
    }
}

impl Clone for Receipt {
    fn clone(&self) -> (copy: Self)
        ensures
            copy@ == self@,
    {
        Receipt {
            payroll_id: self.payroll_id.clone(),
            batch_hash: self.batch_hash.clone(),
            authorizer_id: self.authorizer_id.clone(),
            nonce: self.nonce,
            executor_id: self.executor_id.clone(),
            status: self.status.clone(),
            tx_refs_hash: self.tx_refs_hash.clone(),
            timestamp_nanos: self.timestamp_nanos,
        }
    }
}

} // verus!
