//! What holds of the receipt logger over one call and over any run of calls.

use vstd::prelude::*;
use crate::access::named;
use crate::error::LedgerError;
use crate::keyed::{
    index_of,
    keys_distinct,
    lemma_index_of_get,
    lemma_index_of_source,
    Keyed,
};
use crate::nonces::{spent_by, SpendsNonce};
use crate::receipt_logger::state::{ReceiptLogCall, ReceiptLogState};
use crate::records::{Receipt, ReceiptView};

verus! {

/// A new logger is consistent.
pub proof fn initial_is_consistent(owner_id: Seq<char>, allowed_caller: Option<Seq<char>>)
    ensures
        ReceiptLogState::initial(owner_id, allowed_caller).consistent(),
{
}

/// A logger made again from restorable receipts is consistent.
pub proof fn restored_is_consistent(
    owner_id: Seq<char>,
    allowed_caller: Option<Seq<char>>,
    receipts: Seq<Receipt>,
)
    requires
        ReceiptLogState::restorable(receipts),
    ensures
        ReceiptLogState::restored(owner_id, allowed_caller, receipts).consistent(),
{
    let state = ReceiptLogState::restored(owner_id, allowed_caller, receipts);
    assert forall|id: Seq<char>| #[trigger] state.receipts.contains_key(id) implies {
        &&& state.receipts[id].payroll_id == id
        &&& state.used_nonces.contains(state.receipts[id].nonce_key())
    } by {
        let i = lemma_index_of_source(receipts, id);
        assert(receipts[i].spent() == state.receipts[id].nonce_key());
    }
    assert forall|id: Seq<char>, other: Seq<char>|
        #![trigger state.receipts.contains_key(id), state.receipts.contains_key(other)]
        {
            &&& state.receipts.contains_key(id)
            &&& state.receipts.contains_key(other)
            &&& state.receipts[id].nonce_key() == state.receipts[other].nonce_key()
        } implies id == other by {
        let i = lemma_index_of_source(receipts, id);
        let j = lemma_index_of_source(receipts, other);
    }
    assert forall|key: (Seq<char>, u64)| #[trigger] state.used_nonces.contains(key) implies (
    exists|id: Seq<char>| #[trigger]
        state.receipts.contains_key(id) && state.receipts[id].nonce_key() == key) by {
        let i = choose|i: int| 0 <= i < receipts.len() && #[trigger] receipts[i].spent() == key;
        lemma_index_of_get(receipts, i);
        assert(state.receipts.contains_key(receipts[i].key()));
    }
}

/// A logger is made again from its own receipts: where the receipts are
/// those of a consistent logger, each once, they are restorable, and the
/// logger restored from them, with the same owner and allowed caller, is that
/// logger.
pub proof fn own_receipts_restore_the_logger(state: ReceiptLogState, receipts: Seq<Receipt>)
    requires
        state.consistent(),
        keys_distinct(receipts),
        index_of(receipts) == state.receipts,
    ensures
        ReceiptLogState::restorable(receipts),
        ReceiptLogState::restored(state.access.owner_id, state.access.allowed_caller, receipts)
            == state,
{
    assert forall|i: int, j: int| 0 <= i < j < receipts.len() implies receipts[i].spent()
        != receipts[j].spent() by {
        lemma_index_of_get(receipts, i);
        lemma_index_of_get(receipts, j);
    }
    assert forall|key: (Seq<char>, u64)|
        spent_by(receipts).contains(key) <==> state.used_nonces.contains(key) by {
        if spent_by(receipts).contains(key) {
            let i = choose|i: int| 0 <= i < receipts.len() && #[trigger] receipts[i].spent() == key;
            lemma_index_of_get(receipts, i);
            assert(state.receipts.contains_key(receipts[i].key()));
        }
        if state.used_nonces.contains(key) {
            let id = choose|id: Seq<char>| #[trigger]
                state.receipts.contains_key(id) && state.receipts[id].nonce_key() == key;
            let i = lemma_index_of_source(receipts, id);
            assert(receipts[i].spent() == key);
        }
    }
    assert(spent_by(receipts) =~= state.used_nonces);
}

/// No call breaks the consistency of a logger.
pub proof fn call_keeps_consistency(state: ReceiptLogState, call: ReceiptLogCall)
    requires
        state.consistent(),
    ensures
        state.after(call).consistent(),
{
    let next = state.after(call);
    assert forall|key: (Seq<char>, u64)| #[trigger] next.used_nonces.contains(key) implies (
    exists|id: Seq<char>| #[trigger]
        next.receipts.contains_key(id) && next.receipts[id].nonce_key() == key) by {
        if state.used_nonces.contains(key) {
            let id = choose|id: Seq<char>| #[trigger]
                state.receipts.contains_key(id) && state.receipts[id].nonce_key() == key;
            assert(next.receipts.contains_key(id));
        } else {
            let receipt = call->RecordReceipt_receipt;
            assert(next.receipts.contains_key(receipt.payroll_id));
        }
    }
}

/// No run of calls breaks the consistency of a logger.
pub proof fn calls_keep_consistency(state: ReceiptLogState, calls: Seq<ReceiptLogCall>)
    requires
        state.consistent(),
    ensures
        state.after_all(calls).consistent(),
    decreases calls.len(),
{
    if calls.len() > 0 {
        calls_keep_consistency(state, calls.drop_last());
        call_keeps_consistency(state.after_all(calls.drop_last()), calls.last());
    }
}

/// Once a receipt is recorded for a payroll run, a lookup of the run gives
/// exactly what was recorded.
pub proof fn recorded_receipt_is_served(
    state: ReceiptLogState,
    caller: Seq<char>,
    receipt: ReceiptView,
)
    requires
        state.receipt_refusal(caller, receipt) is None,
    ensures
        state.after_record_receipt(caller, receipt).receipts.contains_key(receipt.payroll_id),
        state.after_record_receipt(caller, receipt).receipts[receipt.payroll_id] == receipt,
{
}

/// From a permitted caller, a second receipt for a payroll run that has one
/// is refused as `DuplicateReceipt`, and the logger is unchanged.
pub proof fn repeated_payroll_is_refused(
    state: ReceiptLogState,
    caller: Seq<char>,
    receipt: ReceiptView,
)
    requires
        state.access.permits(caller),
        state.receipts.contains_key(receipt.payroll_id),
    ensures
        state.receipt_refusal(caller, receipt) == Some(LedgerError::DuplicateReceipt),
        state.after_record_receipt(caller, receipt) == state,
{
}

/// While an allowed caller is set, a receipt from anybody else is refused as
/// `Unauthorized`, and the logger is unchanged.
pub proof fn stranger_is_refused(
    state: ReceiptLogState,
    allowed: Seq<char>,
    caller: Seq<char>,
    receipt: ReceiptView,
)
    requires
        state.access.allowed_caller == Some(allowed),
        caller != allowed,
    ensures
        state.receipt_refusal(caller, receipt) == Some(LedgerError::Unauthorized),
        state.after_record_receipt(caller, receipt) == state,
{
}

/// A request to set the allowed caller is refused from anybody but the owner
/// and changes nothing then. From the owner it is accepted, and from then on
/// exactly the named identity may write, or everybody where none is named.
pub proof fn owner_alone_sets_allowed_caller(
    state: ReceiptLogState,
    caller: Seq<char>,
    account_id: Option<Seq<char>>,
    writer: Seq<char>,
)
    ensures
        caller != state.access.owner_id ==> state.set_allowed_caller_refusal(caller) == Some(
            LedgerError::Unauthorized,
        ) && state.after_set_allowed_caller(caller, account_id) == state,
        caller == state.access.owner_id ==> state.set_allowed_caller_refusal(caller) is None
            && state.after_set_allowed_caller(caller, account_id).access.permits(writer) == (
        match named(account_id) {
            Some(id) => writer == id,
            None => true,
        }),
{
}

/// No call changes the owner.
pub proof fn owner_never_changes(state: ReceiptLogState, calls: Seq<ReceiptLogCall>)
    ensures
        state.after_all(calls).access.owner_id == state.access.owner_id,
    decreases calls.len(),
{
    if calls.len() > 0 {
        owner_never_changes(state, calls.drop_last());
    }
}

/// A receipt, once recorded, stays as it is through any run of calls.
pub proof fn receipts_are_permanent(state: ReceiptLogState, calls: Seq<ReceiptLogCall>)
    ensures
        forall|id: Seq<char>|
            state.receipts.contains_key(id) ==> #[trigger] state.after_all(
                calls,
            ).receipts.contains_key(id) && state.after_all(calls).receipts[id]
                == state.receipts[id],
    decreases calls.len(),
{
    if calls.len() > 0 {
        receipts_are_permanent(state, calls.drop_last());
        let before = state.after_all(calls.drop_last());
        assert forall|id: Seq<char>| state.receipts.contains_key(id) implies #[trigger]
            state.after_all(calls).receipts.contains_key(id) && state.after_all(
            calls,
        ).receipts[id] == state.receipts[id] by {
            assert(before.receipts.contains_key(id));
        }
    }
}

/// A call spends a nonce only by recording a receipt, and then the receipt's
/// own: every other pair is spent after the call exactly if it was before.
pub proof fn call_spends_its_own_nonce_only(
    state: ReceiptLogState,
    call: ReceiptLogCall,
    key: (Seq<char>, u64),
)
    ensures
        state.after(call).used_nonces.contains(key) <==> state.used_nonces.contains(key) || (
        call matches ReceiptLogCall::RecordReceipt { caller, receipt } && state.receipt_refusal(
            caller,
            receipt,
        ) is None && receipt.nonce_key() == key),
{
}

/// In a new logger no nonce is spent, and a nonce stays unspent through
/// every run of calls of which none is a receipt under that nonce.
pub proof fn nonce_is_unused_until_spent(
    owner_id: Seq<char>,
    allowed_caller: Option<Seq<char>>,
    calls: Seq<ReceiptLogCall>,
    key: (Seq<char>, u64),
)
    requires
        forall|i: int|
            0 <= i < calls.len() ==> !(#[trigger] calls[i] matches ReceiptLogCall::RecordReceipt {
                receipt,
                ..
            } && receipt.nonce_key() == key),
    ensures
        !ReceiptLogState::initial(owner_id, allowed_caller).after_all(calls).used_nonces.contains(
            key,
        ),
    decreases calls.len(),
{
    if calls.len() > 0 {
        let front = calls.drop_last();
        assert forall|i: int| 0 <= i < front.len() implies !(#[trigger] front[i] matches
            ReceiptLogCall::RecordReceipt { receipt, .. } && receipt.nonce_key() == key) by {
            assert(front[i] == calls[i]);
        }
        nonce_is_unused_until_spent(owner_id, allowed_caller, front, key);
    }
}

/// A receipt that is recorded spends its nonce.
pub proof fn recorded_receipt_spends_nonce(
    state: ReceiptLogState,
    caller: Seq<char>,
    receipt: ReceiptView,
)
    requires
        state.receipt_refusal(caller, receipt) is None,
    ensures
        state.after_record_receipt(caller, receipt).used_nonces.contains(receipt.nonce_key()),
{
}

/// A spent nonce stays spent through any run of calls.
pub proof fn spent_nonce_stays_spent(
    state: ReceiptLogState,
    calls: Seq<ReceiptLogCall>,
    key: (Seq<char>, u64),
)
    requires
        state.used_nonces.contains(key),
    ensures
        state.after_all(calls).used_nonces.contains(key),
    decreases calls.len(),
{
    if calls.len() > 0 {
        spent_nonce_stays_spent(state, calls.drop_last(), key);
    }
}

/// After a receipt is recorded under an `(authorizer, nonce)` pair, and
/// after whatever calls follow, a request from a permitted caller to record
/// a receipt for another payroll run under the same pair is refused as
/// `NonceReused`, and the logger is unchanged. For the same payroll run the
/// request is refused too, as `DuplicateReceipt`.
pub proof fn spent_nonce_is_refused(
    state: ReceiptLogState,
    caller: Seq<char>,
    receipt: ReceiptView,
    calls: Seq<ReceiptLogCall>,
    later_caller: Seq<char>,
    later: ReceiptView,
)
    requires
        state.receipt_refusal(caller, receipt) is None,
        later.nonce_key() == receipt.nonce_key(),
        state.after_record_receipt(caller, receipt).after_all(calls).access.permits(later_caller),
    ensures
        ({
            let then = state.after_record_receipt(caller, receipt).after_all(calls);
            &&& then.receipt_refusal(later_caller, later) == Some(
                if then.receipts.contains_key(later.payroll_id) {
                    LedgerError::DuplicateReceipt
                } else {
                    LedgerError::NonceReused
                },
            )
            &&& later.payroll_id == receipt.payroll_id ==> then.receipts.contains_key(
                later.payroll_id,
            )
            &&& then.after_record_receipt(later_caller, later) == then
        }),
{
    let recorded = state.after_record_receipt(caller, receipt);
    spent_nonce_stays_spent(recorded, calls, receipt.nonce_key());
    receipts_are_permanent(recorded, calls);
    assert(recorded.receipts.contains_key(receipt.payroll_id));
}

} // verus!
