//! The attestation store itself.

use vstd::prelude::*;
use crate::access::AccessPolicy;
use crate::attestation::laws::{
    call_keeps_consistency,
    initial_is_consistent,
    restored_is_consistent,
};
use crate::attestation::state::{AttestationCall, AttestationState};
use crate::error::LedgerError;
use crate::keyed::{
    all_distinct,
    find,
    index_of,
    keys_distinct,
    lemma_index_of_dom,
    lemma_index_of_get,
    lemma_index_of_push,
};
use crate::nonces::NonceLedger;
use crate::records::{PaymentAttestation, ReceiptRecord, ReceiptView};

verus! {

/// A store of payment attestations and payroll receipts.
///
/// Every write names the caller and carries the clock reading of the host.
/// A write that is refused leaves the store as it was.
pub struct PayrollAttestation {
    access: AccessPolicy,
    /// One attestation per claim, in the order of recording.
    payments: Vec<PaymentAttestation>,
    /// One receipt per payroll run, in the order of recording.
    receipts: Vec<ReceiptRecord>,
    used_receipt_nonces: NonceLedger,
}

impl View for PayrollAttestation {
    type V = AttestationState;

    closed spec fn view(&self) -> AttestationState {
        AttestationState {
            access: self.access@,
            payments: index_of(self.payments@),
            receipts: index_of(self.receipts@),
            used_nonces: self.used_receipt_nonces@,
        }
    }
}

/// The 32 bytes of a commitment as an array.
fn commitment_array(bytes: &Vec<u8>) -> (array: [u8; 32])
    requires
        bytes@.len() == 32,
    ensures
        array@ == bytes@,
{
    let mut array: [u8; 32] = [0u8; 32];
    let mut i: usize = 0;
    while i < 32
        invariant
            i <= 32,
            bytes@.len() == 32,
            forall|k: int| 0 <= k < i ==> array@[k] == bytes@[k],
        decreases 32 - i,
    {
        array[i] = bytes[i];
        i += 1;
    }
    array
}

impl PayrollAttestation {
    /// The store holds no two records under one key, and its contents are
    /// consistent.
    pub closed spec fn wf(&self) -> bool {
        &&& keys_distinct(self.payments@)
        &&& keys_distinct(self.receipts@)
        &&& self@.consistent()
    }

    /// The contents of a well-formed store are consistent.
    pub proof fn lemma_wf_consistent(&self)
        requires
            self.wf(),
        ensures
            self@.consistent(),
    {
    }

    /// Makes an empty store for `owner_id`. Only `allowed_caller` may then
    /// write to it; an empty `allowed_caller` lets everybody write.
    pub fn new(owner_id: String, allowed_caller: String) -> (store: Self)
        ensures
            store.wf(),
            store@ == AttestationState::initial(owner_id@, allowed_caller@),
    {
        let store = PayrollAttestation {
            access: AccessPolicy::new(owner_id, Some(allowed_caller)),
            payments: Vec::new(),
            receipts: Vec::new(),
            used_receipt_nonces: NonceLedger::new(),
        };
        proof {
            initial_is_consistent(owner_id@, allowed_caller@);
        }
        store
    }

    /// Makes a store again from records that were read out of one:
    /// `payments` and `receipts` become its records, and the nonces of the
    /// receipts are spent. There is no such store, and the result is `None`,
    /// where two attestations share a claim, two receipts a payroll run, or
    /// two receipts an `(authorizer, nonce)` pair.
    pub fn restore(
        owner_id: String,
        allowed_caller: Option<String>,
        payments: Vec<PaymentAttestation>,
        receipts: Vec<ReceiptRecord>,
    ) -> (restored: Option<Self>)
        ensures
            match restored {
                Some(store) => {
                    &&& AttestationState::restorable(payments@, receipts@)
                    &&& store.wf()
                    &&& store@ == AttestationState::restored(
                        owner_id@,
                        allowed_caller.deep_view(),
                        payments@,
                        receipts@,
                    )
                },
                None => !AttestationState::restorable(payments@, receipts@),
            },
    {
        if !all_distinct(&payments) || !all_distinct(&receipts) {
            return None;
        }
        match NonceLedger::of_receipts(&receipts) {
            Some(used_receipt_nonces) => {
                proof {
                    restored_is_consistent(
                        owner_id@,
                        allowed_caller.deep_view(),
                        payments@,
                        receipts@,
                    );
                }
                Some(
                    PayrollAttestation {
                        access: AccessPolicy::new(owner_id, allowed_caller),
                        payments,
                        receipts,
                        used_receipt_nonces,
                    },
                )
            },
            None => None,
        }
    }

    /// The owner's identity.
    pub fn owner_id(&self) -> (id: &String)
        ensures
            id@ == self@.access.owner_id,
    {
        self.access.owner_id()
    }

    /// The allowed caller, if one is set.
    pub fn allowed_caller(&self) -> (id: Option<&String>)
        ensures
            id.deep_view() == self@.access.allowed_caller,
    {
        self.access.allowed_caller()
    }

    /// Every attestation of the store, each once.
    pub fn payments(&self) -> (all: &Vec<PaymentAttestation>)
        requires
            self.wf(),
        ensures
            keys_distinct(all@),
            index_of(all@) == self@.payments,
    {
        &self.payments
    }

    /// Every receipt of the store, each once.
    pub fn receipts(&self) -> (all: &Vec<ReceiptRecord>)
        requires
            self.wf(),
        ensures
            keys_distinct(all@),
            index_of(all@) == self@.receipts,
    {
        &self.receipts
    }

    /// Records the attestation of a payment under `claim_id`, stamped with
    /// `timestamp_nanos`.
    ///
    /// Refused as `Unauthorized` where `caller` may not write, else as
    /// `InvalidCommitment` where `commitment` is not 32 bytes long, else as
    /// `DuplicateClaim` where the claim has an attestation already.
    pub fn record_payment(
        &mut self,
        caller: &str,
        timestamp_nanos: u64,
        claim_id: String,
        execution_ref: String,
        commitment: Vec<u8>,
    ) -> (result: Result<(), LedgerError>)
        requires
            old(self).wf(),
        ensures
            final(self).wf(),
            result == match old(self)@.payment_refusal(caller@, claim_id@, commitment@) {
                Some(refusal) => Err::<(), LedgerError>(refusal),
                None => Ok(()),
            },
            final(self)@ == old(self)@.after_record_payment(
                caller@,
                timestamp_nanos,
                claim_id@,
                execution_ref@,
                commitment@,
            ),
    {
        proof {
            lemma_index_of_dom(self.payments@);
        }
        if !self.access.permits(caller) {
            return Err(LedgerError::Unauthorized);
        }
        if commitment.len() != 32 {
            return Err(LedgerError::InvalidCommitment);
        }
        if find(&self.payments, &claim_id).is_some() {
            return Err(LedgerError::DuplicateClaim);
        }
        let payment = PaymentAttestation {
            claim_id,
            execution_ref,
            commitment: commitment_array(&commitment),
            timestamp_nanos,
        };
        proof {
            lemma_index_of_push(self.payments@, payment);
            call_keeps_consistency(
                self@,
                AttestationCall::RecordPayment {
                    caller: caller@,
                    timestamp_nanos,
                    claim_id: claim_id@,
                    execution_ref: execution_ref@,
                    commitment: commitment@,
                },
            );
        }
        self.payments.push(payment);
        Ok(())
    }

    /// The attestation recorded for `claim_id`, if there is one. Anybody may
    /// ask.
    pub fn get_payment(&self, claim_id: String) -> (found: Option<PaymentAttestation>)
        requires
            self.wf(),
        ensures
            match found {
                Some(payment) => self@.payments.contains_key(claim_id@) && payment@
                    == self@.payments[claim_id@],
                None => !self@.payments.contains_key(claim_id@),
            },
    {
        proof {
            lemma_index_of_dom(self.payments@);
        }
        match find(&self.payments, &claim_id) {
            Some(i) => {
                proof {
                    lemma_index_of_get(self.payments@, i as int);
                }
                Some(self.payments[i].clone())
            },
            None => None,
        }
    }

    /// Sets the allowed caller to `account_id`, or clears it where
    /// `account_id` is `None` or empty. Refused as `Unauthorized` unless
    /// `caller` is the owner.
    pub fn set_allowed_caller(&mut self, caller: &str, account_id: Option<String>) -> (result:
        Result<(), LedgerError>)
        requires
            old(self).wf(),
        ensures
            final(self).wf(),
            result == match old(self)@.set_allowed_caller_refusal(caller@) {
                Some(refusal) => Err::<(), LedgerError>(refusal),
                None => Ok(()),
            },
            final(self)@ == old(self)@.after_set_allowed_caller(caller@, account_id.deep_view()),
    {
        proof {
            call_keeps_consistency(
                self@,
                AttestationCall::SetAllowedCaller {
                    caller: caller@,
                    account_id: account_id.deep_view(),
                },
            );
        }
        self.access.set_allowed_caller(caller, account_id)
    }

    /// Records the receipt of a payroll run under `payroll_id`, stamped with
    /// `timestamp_nanos`, and spends `nonce` for `authorizer_id`.
    ///
    /// Refused as `Unauthorized` where `caller` may not write, else as
    /// `NonceReused` where `authorizer_id` has spent `nonce` already. A
    /// request that is not refused succeeds; where the payroll run has a
    /// receipt already it changes nothing and spends nothing.
    pub fn record_receipt(
        &mut self,
        caller: &str,
        timestamp_nanos: u64,
        payroll_id: String,
        batch_hash: String,
        authorizer_id: String,
        nonce: u64,
        executor_id: String,
        status: String,
        tx_refs_hash: String,
    ) -> (result: Result<(), LedgerError>)
        requires
            old(self).wf(),
        ensures
            final(self).wf(),
            ({
                let receipt = ReceiptView {
                    payroll_id: payroll_id@,
                    batch_hash: batch_hash@,
                    authorizer_id: authorizer_id@,
                    nonce,
                    executor_id: executor_id@,
                    status: status@,
                    tx_refs_hash: tx_refs_hash@,
                    timestamp_nanos,
                };
                &&& result == match old(self)@.receipt_refusal(caller@, receipt) {
                    Some(refusal) => Err::<(), LedgerError>(refusal),
                    None => Ok(()),
                }
                &&& final(self)@ == old(self)@.after_record_receipt(caller@, receipt)
            }),
    {
        proof {
            lemma_index_of_dom(self.receipts@);
        }
        if !self.access.permits(caller) {
            return Err(LedgerError::Unauthorized);
        }
        if self.used_receipt_nonces.contains(authorizer_id.as_str(), nonce) {
            return Err(LedgerError::NonceReused);
        }
        if find(&self.receipts, &payroll_id).is_some() {
            return Ok(());
        }
        let spender = authorizer_id.clone();
        let receipt = ReceiptRecord {
            payroll_id,
            batch_hash,
            authorizer_id,
            nonce,
            executor_id,
            status,
            tx_refs_hash,
            timestamp_nanos,
        };
        proof {
            lemma_index_of_push(self.receipts@, receipt);
            call_keeps_consistency(
                self@,
                AttestationCall::RecordReceipt { caller: caller@, receipt: receipt@ },
            );
        }
        self.receipts.push(receipt);
        self.used_receipt_nonces.insert(spender, nonce);
        Ok(())
    }

    /// The receipt recorded for `payroll_id`, if there is one. Anybody may
    /// ask.
    pub fn get_receipt(&self, payroll_id: String) -> (found: Option<ReceiptRecord>)
        requires
            self.wf(),
        ensures
            match found {
                Some(receipt) => self@.receipts.contains_key(payroll_id@) && receipt@
                    == self@.receipts[payroll_id@],
                None => !self@.receipts.contains_key(payroll_id@),
            },
    {
        proof {
            lemma_index_of_dom(self.receipts@);
        }
        match find(&self.receipts, &payroll_id) {
            Some(i) => {
                proof {
                    lemma_index_of_get(self.receipts@, i as int);
                }
                Some(self.receipts[i].clone())
            },
            None => None,
        }
    }

    /// Whether `authorizer_id` has spent `nonce`. Anybody may ask.
    pub fn is_nonce_used(&self, authorizer_id: String, nonce: u64) -> (used: bool)
        ensures
            used == self@.used_nonces.contains((authorizer_id@, nonce)),
    {
        self.used_receipt_nonces.contains(authorizer_id.as_str(), nonce)
    }
}

impl Default for PayrollAttestation {
    /// An empty store that nobody owns and to which everybody may write.
    fn default() -> (store: Self)
        ensures
            store.wf(),
            store@ == AttestationState::initial(Seq::empty(), Seq::empty()),
    {
        PayrollAttestation::new(String::new(), String::new())
    }
}

} // verus!
