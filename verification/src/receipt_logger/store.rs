//! The receipt logger itself.

use vstd::prelude::*;
use crate::access::AccessPolicy;
use crate::error::LedgerError;
use crate::keyed::{
    all_distinct,
    find,
    index_of,
    keys_distinct,
    lemma_index_of_dom,
    lemma_index_of_get,
    lemma_index_of_push,
};
use crate::nonces::NonceLedger;
use crate::receipt_logger::laws::{
    call_keeps_consistency,
    initial_is_consistent,
    restored_is_consistent,
};
use crate::receipt_logger::state::{ReceiptLogCall, ReceiptLogState};
use crate::records::{Receipt, ReceiptView};

verus! {

/// A log of payroll receipts that guards against paying a run twice.
///
/// Every write names the caller and carries the clock reading of the host.
/// A write that is refused leaves the logger as it was.
pub struct PayrollReceiptLogger {
    access: AccessPolicy,
    /// One receipt per payroll run, in the order of recording.
    receipts: Vec<Receipt>,
    used_nonces: NonceLedger,
}

impl View for PayrollReceiptLogger {
    type V = ReceiptLogState;

    closed spec fn view(&self) -> ReceiptLogState {
        ReceiptLogState {
            access: self.access@,
            receipts: index_of(self.receipts@),
            used_nonces: self.used_nonces@,
        }
    }
}

impl PayrollReceiptLogger {
    /// The logger holds no two receipts for one payroll run, and its
    /// contents are consistent.
    pub closed spec fn wf(&self) -> bool {
        &&& keys_distinct(self.receipts@)
        &&& self@.consistent()
    }

    /// The contents of a well-formed logger are consistent.
    pub proof fn lemma_wf_consistent(&self)
        requires
            self.wf(),
        ensures
            self@.consistent(),
    {
    }

    /// Makes an empty logger for `owner_id`. Only `allowed_caller` may then
    /// write to it; where it is `None` or empty, everybody may.
    pub fn new(owner_id: String, allowed_caller: Option<String>) -> (logger: Self)
        ensures
            logger.wf(),
            logger@ == ReceiptLogState::initial(owner_id@, allowed_caller.deep_view()),
    {
        let logger = PayrollReceiptLogger {
            access: AccessPolicy::new(owner_id, allowed_caller),
            receipts: Vec::new(),
            used_nonces: NonceLedger::new(),
        };
        proof {
            initial_is_consistent(owner_id@, allowed_caller.deep_view());
        }
        logger
    }

    /// Makes a logger again from receipts that were read out of one:
    /// `receipts` become its receipts, and their nonces are spent. There is
    /// no such logger, and the result is `None`, where two receipts share a
    /// payroll run or an `(authorizer, nonce)` pair.
    pub fn restore(owner_id: String, allowed_caller: Option<String>, receipts: Vec<Receipt>) -> (restored:
        Option<Self>)
        ensures
            match restored {
                Some(logger) => {
                    &&& ReceiptLogState::restorable(receipts@)
                    &&& logger.wf()
                    &&& logger@ == ReceiptLogState::restored(
                        owner_id@,
                        allowed_caller.deep_view(),
                        receipts@,
                    )
                },
                None => !ReceiptLogState::restorable(receipts@),
            },
    {
        if !all_distinct(&receipts) {
            return None;
        }
        match NonceLedger::of_receipts(&receipts) {
            Some(used_nonces) => {
                proof {
                    restored_is_consistent(owner_id@, allowed_caller.deep_view(), receipts@);
                }
                Some(
                    PayrollReceiptLogger {
                        access: AccessPolicy::new(owner_id, allowed_caller),
                        receipts,
                        used_nonces,
                    },
                )
            },
            None => None,
        }
    }

    /// The owner's identity.
    pub fn owner_id(&self) -> (id: &String)
        ensures
            id@ == self@.access.owner_id,
    {
        self.access.owner_id()
    }

    /// The allowed caller, if one is set.
    pub fn allowed_caller(&self) -> (id: Option<&String>)
        ensures
            id.deep_view() == self@.access.allowed_caller,
    {
        self.access.allowed_caller()
    }

    /// Every receipt of the logger, each once.
    pub fn receipts(&self) -> (all: &Vec<Receipt>)
        requires
            self.wf(),
        ensures
            keys_distinct(all@),
            index_of(all@) == self@.receipts,
    {
        &self.receipts
    }

    /// Records the receipt of a payroll run under `payroll_id`, stamped with
    /// `timestamp_nanos`, and spends `nonce` for `authorizer_id`.
    ///
    /// Refused as `Unauthorized` where `caller` may not write, else as
    /// `DuplicateReceipt` where the payroll run has a receipt already, else
    /// as `NonceReused` where `authorizer_id` has spent `nonce` already.
    pub fn record_receipt(
        &mut self,
        caller: &str,
        timestamp_nanos: u64,
        payroll_id: String,
        batch_hash: String,
        authorizer_id: String,
        nonce: u64,
        executor_id: String,
        status: String,
        tx_refs_hash: String,
    ) -> (result: Result<(), LedgerError>)
        requires
            old(self).wf(),
        ensures
            final(self).wf(),
            ({
                let receipt = ReceiptView {
                    payroll_id: payroll_id@,
                    batch_hash: batch_hash@,
                    authorizer_id: authorizer_id@,
                    nonce,
                    executor_id: executor_id@,
                    status: status@,
                    tx_refs_hash: tx_refs_hash@,
                    timestamp_nanos,
                };
                &&& result == match old(self)@.receipt_refusal(caller@, receipt) {
                    Some(refusal) => Err::<(), LedgerError>(refusal),
                    None => Ok(()),
                }
                &&& final(self)@ == old(self)@.after_record_receipt(caller@, receipt)
            }),
    {
        proof {
            lemma_index_of_dom(self.receipts@);
        }
        if !self.access.permits(caller) {
            return Err(LedgerError::Unauthorized);
        }
        if find(&self.receipts, &payroll_id).is_some() {
            return Err(LedgerError::DuplicateReceipt);
        }
        if self.used_nonces.contains(authorizer_id.as_str(), nonce) {
            return Err(LedgerError::NonceReused);
        }
        let spender = authorizer_id.clone();
        let receipt = Receipt {
            payroll_id,
            batch_hash,
            authorizer_id,
            nonce,
            executor_id,
            status,
            tx_refs_hash,
            timestamp_nanos,
        };
        proof {
            lemma_index_of_push(self.receipts@, receipt);
            call_keeps_consistency(
                self@,
                ReceiptLogCall::RecordReceipt { caller: caller@, receipt: receipt@ },
            );
        }
        self.receipts.push(receipt);
        self.used_nonces.insert(spender, nonce);
        Ok(())
    }

    /// The receipt recorded for `payroll_id`, if there is one. Anybody may
    /// ask.
    pub fn get_receipt(&self, payroll_id: String) -> (found: Option<Receipt>)
        requires
            self.wf(),
        ensures
            match found {
                Some(receipt) => self@.receipts.contains_key(payroll_id@) && receipt@
                    == self@.receipts[payroll_id@],
                None => !self@.receipts.contains_key(payroll_id@),
            },
    {
        proof {
            lemma_index_of_dom(self.receipts@);
        }
        match find(&self.receipts, &payroll_id) {
            Some(i) => {
                proof {
                    lemma_index_of_get(self.receipts@, i as int);
                }
                Some(self.receipts[i].clone())
            },
            None => None,
        }
    }

    /// Whether `authorizer_id` has spent `nonce`. Anybody may ask.
    pub fn is_nonce_used(&self, authorizer_id: String, nonce: u64) -> (used: bool)
        ensures
            used == self@.used_nonces.contains((authorizer_id@, nonce)),
    {
        self.used_nonces.contains(authorizer_id.as_str(), nonce)
    }

    /// Sets the allowed caller to `account_id`, or clears it where
    /// `account_id` is `None` or empty. Refused as `Unauthorized` unless
    /// `caller` is the owner.
    pub fn set_allowed_caller(&mut self, caller: &str, account_id: Option<String>) -> (result:
        Result<(), LedgerError>)
        requires
            old(self).wf(),
        ensures
            final(self).wf(),
            result == match old(self)@.set_allowed_caller_refusal(caller@) {
                Some(refusal) => Err::<(), LedgerError>(refusal),
                None => Ok(()),
            },
            final(self)@ == old(self)@.after_set_allowed_caller(caller@, account_id.deep_view()),
    {
        proof {
            call_keeps_consistency(
                self@,
                ReceiptLogCall::SetAllowedCaller {
                    caller: caller@,
                    account_id: account_id.deep_view(),
                },
            );
        }
        self.access.set_allowed_caller(caller, account_id)
    }
}

impl Default for PayrollReceiptLogger {
    /// An empty logger that nobody owns and to which everybody may write.
    fn default() -> (logger: Self)
        ensures
            logger.wf(),
            logger@ == ReceiptLogState::initial(Seq::empty(), None),
    {
        PayrollReceiptLogger::new(String::new(), None)
    }
}

} // verus!
