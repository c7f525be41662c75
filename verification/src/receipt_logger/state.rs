//! What the receipt logger holds, and what each call does to it.
//!
//! A repeated receipt for a payroll run that already has one is refused as
//! `DuplicateReceipt`; a receipt for another run under a spent
//! `(authorizer, nonce)` pair is refused as `NonceReused`.

use vstd::prelude::*;
use crate::access::{named, AccessView};
use crate::error::LedgerError;
use crate::keyed::{index_of, keys_distinct};
use crate::nonces::{spends_distinct, spent_by};
use crate::records::{Receipt, ReceiptView};

verus! {

/// The contents of a receipt logger.
pub struct ReceiptLogState {
    pub access: AccessView,
    /// The receipts, by payroll run.
    pub receipts: Map<Seq<char>, ReceiptView>,
    /// The `(authorizer, nonce)` pairs that receipts have spent.
    pub used_nonces: Set<(Seq<char>, u64)>,
}

/// A mutating call to a receipt logger, with the caller's identity and the
/// clock reading that the host supplied.
pub enum ReceiptLogCall {
    /// The receipt holds the call's arguments and the clock reading.
    RecordReceipt { caller: Seq<char>, receipt: ReceiptView },
    SetAllowedCaller { caller: Seq<char>, account_id: Option<Seq<char>> },
}

impl ReceiptLogState {
    /// The logger that `owner_id` has just made. An `allowed_caller` that is
    /// `None` or empty leaves writing open to everybody.
    pub open spec fn initial(
        owner_id: Seq<char>,
        allowed_caller: Option<Seq<char>>,
    ) -> ReceiptLogState {
        ReceiptLogState {
            access: AccessView { owner_id, allowed_caller: named(allowed_caller) },
            receipts: Map::empty(),
            used_nonces: Set::empty(),
        }
    }

    /// Receipts from which a logger can be made again: no two for one payroll
    /// run, no two under one `(authorizer, nonce)` pair.
    pub open spec fn restorable(receipts: Seq<Receipt>) -> bool {
        keys_distinct(receipts) && spends_distinct(receipts)
    }

    /// The logger that holds the given receipts, their nonces spent.
    pub open spec fn restored(
        owner_id: Seq<char>,
        allowed_caller: Option<Seq<char>>,
        receipts: Seq<Receipt>,
    ) -> ReceiptLogState {
        ReceiptLogState {
            access: AccessView { owner_id, allowed_caller: named(allowed_caller) },
            receipts: index_of(receipts),
            used_nonces: spent_by(receipts),
        }
    }

    /// What holds of every logger: each receipt is filed under its own
    /// payroll run, and the spent nonces are exactly those of the receipts,
    /// no two receipts sharing one.
    pub open spec fn consistent(self) -> bool {
        &&& self.access.allowed_caller matches Some(id) ==> id.len() > 0
        &&& forall|id: Seq<char>| #[trigger]
            self.receipts.contains_key(id) ==> self.receipts[id].payroll_id == id
                && self.used_nonces.contains(self.receipts[id].nonce_key())
        &&& forall|id: Seq<char>, other: Seq<char>|
            #![trigger self.receipts.contains_key(id), self.receipts.contains_key(other)]
            self.receipts.contains_key(id) && self.receipts.contains_key(other)
                && self.receipts[id].nonce_key() == self.receipts[other].nonce_key() ==> id
                == other
        &&& forall|key: (Seq<char>, u64)| #[trigger]
            self.used_nonces.contains(key) ==> exists|id: Seq<char>| #[trigger]
                self.receipts.contains_key(id) && self.receipts[id].nonce_key() == key
    }

    /// Why a request to record a receipt is refused, if it is.
    pub open spec fn receipt_refusal(self, caller: Seq<char>, receipt: ReceiptView) -> Option<
        LedgerError,
    > {
        if !self.access.permits(caller) {
            Some(LedgerError::Unauthorized)
        } else if self.receipts.contains_key(receipt.payroll_id) {
            Some(LedgerError::DuplicateReceipt)
        } else if self.used_nonces.contains(receipt.nonce_key()) {
            Some(LedgerError::NonceReused)
        } else {
            None
        }
    }

    /// The logger with one more receipt, whose nonce is spent.
    pub open spec fn with_receipt(self, receipt: ReceiptView) -> ReceiptLogState {
        ReceiptLogState {
            receipts: self.receipts.insert(receipt.payroll_id, receipt),
            used_nonces: self.used_nonces.insert(receipt.nonce_key()),
            ..self
        }
    }

    /// The logger after a request to record a receipt: with the receipt where
    /// the request is accepted, unchanged where it is refused.
    pub open spec fn after_record_receipt(
        self,
        caller: Seq<char>,
        receipt: ReceiptView,
    ) -> ReceiptLogState {
        if self.receipt_refusal(caller, receipt) is None {
            self.with_receipt(receipt)
        } else {
            self
        }
    }

    /// Why a request to set the allowed caller is refused, if it is.
    pub open spec fn set_allowed_caller_refusal(self, caller: Seq<char>) -> Option<LedgerError> {
        if self.access.is_owner(caller) {
            None
        } else {
            Some(LedgerError::Unauthorized)
        }
    }

    /// The logger after a request to set the allowed caller.
    pub open spec fn after_set_allowed_caller(
        self,
        caller: Seq<char>,
        account_id: Option<Seq<char>>,
    ) -> ReceiptLogState {
        ReceiptLogState {
            access: self.access.after_set_allowed_caller(caller, account_id),
            ..self
        }
    }

    /// The logger after `call`.
    pub open spec fn after(self, call: ReceiptLogCall) -> ReceiptLogState {
        match call {
            ReceiptLogCall::RecordReceipt { caller, receipt } => self.after_record_receipt(
                caller,
                receipt,
            ),
            ReceiptLogCall::SetAllowedCaller { caller, account_id } => self.after_set_allowed_caller(
                caller,
                account_id,
            ),
        }
    }

    /// The logger after `calls`, made one after the other.
    pub open spec fn after_all(self, calls: Seq<ReceiptLogCall>) -> ReceiptLogState
        decreases calls.len(),
    {
        if calls.len() == 0 {
            self
        } else {
            self.after_all(calls.drop_last()).after(calls.last())
        }
    }
}

} // verus!
