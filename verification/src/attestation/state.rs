//! What the attestation store holds, and what each call does to it.
//!
//! A repeated receipt for a payroll run that already has one is passed over
//! in silence: the call succeeds and nothing changes. The nonce is tested
//! first all the same, so a spent `(authorizer, nonce)` pair is refused
//! whatever payroll run it names.

use vstd::prelude::*;
use crate::access::{named, AccessView};
use crate::error::LedgerError;
use crate::keyed::{index_of, keys_distinct};
use crate::nonces::{spends_distinct, spent_by};
use crate::records::{PaymentAttestation, PaymentView, ReceiptRecord, ReceiptView};

verus! {

/// The contents of an attestation store.
pub struct AttestationState {
    pub access: AccessView,
    /// The attestations, by claim.
    pub payments: Map<Seq<char>, PaymentView>,
    /// The receipts, by payroll run.
    pub receipts: Map<Seq<char>, ReceiptView>,
    /// The `(authorizer, nonce)` pairs that receipts have spent.
    pub used_nonces: Set<(Seq<char>, u64)>,
}

/// A mutating call to an attestation store, with the caller's identity and
/// the clock reading that the host supplied.
pub enum AttestationCall {
    RecordPayment {
        caller: Seq<char>,
        timestamp_nanos: u64,
        claim_id: Seq<char>,
        execution_ref: Seq<char>,
        commitment: Seq<u8>,
    },
    /// The receipt holds the call's arguments and the clock reading.
    RecordReceipt { caller: Seq<char>, receipt: ReceiptView },
    SetAllowedCaller { caller: Seq<char>, account_id: Option<Seq<char>> },
}

impl AttestationState {
    /// The store that `owner_id` has just made. An empty `allowed_caller`
    /// leaves writing open to everybody.
    pub open spec fn initial(owner_id: Seq<char>, allowed_caller: Seq<char>) -> AttestationState {
        AttestationState {
            access: AccessView { owner_id, allowed_caller: named(Some(allowed_caller)) },
            payments: Map::empty(),
            receipts: Map::empty(),
            used_nonces: Set::empty(),
        }
    }

    /// Records from which a store can be made again: no two attestations for
    /// one claim, no two receipts for one payroll run, no two receipts under
    /// one `(authorizer, nonce)` pair.
    pub open spec fn restorable(
        payments: Seq<PaymentAttestation>,
        receipts: Seq<ReceiptRecord>,
    ) -> bool {
        keys_distinct(payments) && keys_distinct(receipts) && spends_distinct(receipts)
    }

    /// The store that holds the given records, the nonces of the receipts
    /// spent.
    pub open spec fn restored(
        owner_id: Seq<char>,
        allowed_caller: Option<Seq<char>>,
        payments: Seq<PaymentAttestation>,
        receipts: Seq<ReceiptRecord>,
    ) -> AttestationState {
        AttestationState {
            access: AccessView { owner_id, allowed_caller: named(allowed_caller) },
            payments: index_of(payments),
            receipts: index_of(receipts),
            used_nonces: spent_by(receipts),
        }
    }

    /// What holds of every store: each record is filed under its own key,
    /// every commitment has 32 bytes, and the spent nonces are exactly those
    /// of the receipts, no two receipts sharing one.
    pub open spec fn consistent(self) -> bool {
        &&& self.access.allowed_caller matches Some(id) ==> id.len() > 0
        &&& forall|id: Seq<char>| #[trigger]
            self.payments.contains_key(id) ==> self.payments[id].claim_id == id
                && self.payments[id].commitment.len() == 32
        &&& forall|id: Seq<char>| #[trigger]
            self.receipts.contains_key(id) ==> self.receipts[id].payroll_id == id
                && self.used_nonces.contains(self.receipts[id].nonce_key())
        &&& forall|id: Seq<char>, other: Seq<char>|
            #![trigger self.receipts.contains_key(id), self.receipts.contains_key(other)]
            self.receipts.contains_key(id) && self.receipts.contains_key(other)
                && self.receipts[id].nonce_key() == self.receipts[other].nonce_key() ==> id
                == other
        &&& forall|key: (Seq<char>, u64)| #[trigger]
            self.used_nonces.contains(key) ==> exists|id: Seq<char>| #[trigger]
                self.receipts.contains_key(id) && self.receipts[id].nonce_key() == key
    }

    /// Why a request to record a payment is refused, if it is.
    pub open spec fn payment_refusal(
        self,
        caller: Seq<char>,
        claim_id: Seq<char>,
        commitment: Seq<u8>,
    ) -> Option<LedgerError> {
        if !self.access.permits(caller) {
            Some(LedgerError::Unauthorized)
        } else if commitment.len() != 32 {
            Some(LedgerError::InvalidCommitment)
        } else if self.payments.contains_key(claim_id) {
            Some(LedgerError::DuplicateClaim)
        } else {
            None
        }
    }

    /// The store with one more attestation.
    pub open spec fn with_payment(self, payment: PaymentView) -> AttestationState {
        AttestationState { payments: self.payments.insert(payment.claim_id, payment), ..self }
    }

    /// The store after a request to record a payment: with the attestation
    /// where the request is accepted, unchanged where it is refused.
    pub open spec fn after_record_payment(
        self,
        caller: Seq<char>,
        timestamp_nanos: u64,
        claim_id: Seq<char>,
        execution_ref: Seq<char>,
        commitment: Seq<u8>,
    ) -> AttestationState {
        if self.payment_refusal(caller, claim_id, commitment) is None {
            self.with_payment(PaymentView { claim_id, execution_ref, commitment, timestamp_nanos })
        } else {
            self
        }
    }

    /// Why a request to record a receipt is refused, if it is.
    pub open spec fn receipt_refusal(self, caller: Seq<char>, receipt: ReceiptView) -> Option<
        LedgerError,
    > {
        if !self.access.permits(caller) {
            Some(LedgerError::Unauthorized)
        } else if self.used_nonces.contains(receipt.nonce_key()) {
            Some(LedgerError::NonceReused)
        } else {
            None
        }
    }

    /// The store with one more receipt, whose nonce is spent.
    pub open spec fn with_receipt(self, receipt: ReceiptView) -> AttestationState {
        AttestationState {
            receipts: self.receipts.insert(receipt.payroll_id, receipt),
            used_nonces: self.used_nonces.insert(receipt.nonce_key()),
            ..self
        }
    }

    /// A request to record `receipt` is accepted and files it: the payroll
    /// run has no receipt yet.
    pub open spec fn files_receipt(self, caller: Seq<char>, receipt: ReceiptView) -> bool {
        self.receipt_refusal(caller, receipt) is None && !self.receipts.contains_key(
            receipt.payroll_id,
        )
    }

    /// The store after a request to record a receipt: with the receipt where
    /// the request files it, unchanged where the request is refused or the
    /// payroll run already has a receipt.
    pub open spec fn after_record_receipt(
        self,
        caller: Seq<char>,
        receipt: ReceiptView,
    ) -> AttestationState {
        if self.files_receipt(caller, receipt) {
            self.with_receipt(receipt)
        } else {
            self
        }
    }

    /// Why a request to set the allowed caller is refused, if it is.
    pub open spec fn set_allowed_caller_refusal(self, caller: Seq<char>) -> Option<LedgerError> {
        if self.access.is_owner(caller) {
            None
        } else {
            Some(LedgerError::Unauthorized)
        }
    }

    /// The store after a request to set the allowed caller.
    pub open spec fn after_set_allowed_caller(
        self,
        caller: Seq<char>,
        account_id: Option<Seq<char>>,
    ) -> AttestationState {
        AttestationState {
            access: self.access.after_set_allowed_caller(caller, account_id),
            ..self
        }
    }

    /// The store after `call`.
    pub open spec fn after(self, call: AttestationCall) -> AttestationState {
        match call {
            AttestationCall::RecordPayment {
                caller,
                timestamp_nanos,
                claim_id,
                execution_ref,
                commitment,
            } => self.after_record_payment(
                caller,
                timestamp_nanos,
                claim_id,
                execution_ref,
                commitment,
            ),
            AttestationCall::RecordReceipt { caller, receipt } => self.after_record_receipt(
                caller,
                receipt,
            ),
            AttestationCall::SetAllowedCaller { caller, account_id } => self.after_set_allowed_caller(
                caller,
                account_id,
            ),
        }
    }

    /// The store after `calls`, made one after the other.
    pub open spec fn after_all(self, calls: Seq<AttestationCall>) -> AttestationState
        decreases calls.len(),
    {
        if calls.len() == 0 {
            self
        } else {
            self.after_all(calls.drop_last()).after(calls.last())
        }
    }
}

} // verus!
