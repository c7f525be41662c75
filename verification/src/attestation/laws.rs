//! What holds of the attestation store over one call and over any run of
//! calls.

use vstd::prelude::*;
use crate::access::named;
use crate::attestation::state::{AttestationCall, AttestationState};
use crate::error::LedgerError;
use crate::keyed::{
    index_of,
    keys_distinct,
    lemma_index_of_get,
    lemma_index_of_source,
    Keyed,
};
use crate::nonces::{spent_by, SpendsNonce};
use crate::records::{PaymentAttestation, PaymentView, ReceiptRecord, ReceiptView};

verus! {

/// A new store is consistent.
pub proof fn initial_is_consistent(owner_id: Seq<char>, allowed_caller: Seq<char>)
    ensures
        AttestationState::initial(owner_id, allowed_caller).consistent(),
{
}

/// A store made again from restorable records is consistent.
pub proof fn restored_is_consistent(
    owner_id: Seq<char>,
    allowed_caller: Option<Seq<char>>,
    payments: Seq<PaymentAttestation>,
    receipts: Seq<ReceiptRecord>,
)
    requires
        AttestationState::restorable(payments, receipts),
    ensures
        AttestationState::restored(owner_id, allowed_caller, payments, receipts).consistent(),
{
    let state = AttestationState::restored(owner_id, allowed_caller, payments, receipts);
    assert forall|id: Seq<char>| #[trigger] state.payments.contains_key(id) implies {
        &&& state.payments[id].claim_id == id
        &&& state.payments[id].commitment.len() == 32
    } by {
        let i = lemma_index_of_source(payments, id);
    }
    assert forall|id: Seq<char>| #[trigger] state.receipts.contains_key(id) implies {
        &&& state.receipts[id].payroll_id == id
        &&& state.used_nonces.contains(state.receipts[id].nonce_key())
    } by {
        let i = lemma_index_of_source(receipts, id);
        assert(receipts[i].spent() == state.receipts[id].nonce_key());
    }
    assert forall|id: Seq<char>, other: Seq<char>|
        #![trigger state.receipts.contains_key(id), state.receipts.contains_key(other)]
        {
            &&& state.receipts.contains_key(id)
            &&& state.receipts.contains_key(other)
            &&& state.receipts[id].nonce_key() == state.receipts[other].nonce_key()
        } implies id == other by {
        let i = lemma_index_of_source(receipts, id);
        let j = lemma_index_of_source(receipts, other);
    }
    assert forall|key: (Seq<char>, u64)| #[trigger] state.used_nonces.contains(key) implies (
    exists|id: Seq<char>| #[trigger]
        state.receipts.contains_key(id) && state.receipts[id].nonce_key() == key) by {
        let i = choose|i: int| 0 <= i < receipts.len() && #[trigger] receipts[i].spent() == key;
        lemma_index_of_get(receipts, i);
        assert(state.receipts.contains_key(receipts[i].key()));
    }
}

/// A store is made again from its own records: where the records are those
/// of a consistent store, each once, they are restorable, and the store
/// restored from them, with the same owner and allowed caller, is that store.
pub proof fn own_records_restore_the_store(
    state: AttestationState,
    payments: Seq<PaymentAttestation>,
    receipts: Seq<ReceiptRecord>,
)
    requires
        state.consistent(),
        keys_distinct(payments),
        index_of(payments) == state.payments,
        keys_distinct(receipts),
        index_of(receipts) == state.receipts,
    ensures
        AttestationState::restorable(payments, receipts),
        AttestationState::restored(
            state.access.owner_id,
            state.access.allowed_caller,
            payments,
            receipts,
        ) == state,
{
    assert forall|i: int, j: int| 0 <= i < j < receipts.len() implies receipts[i].spent()
        != receipts[j].spent() by {
        lemma_index_of_get(receipts, i);
        lemma_index_of_get(receipts, j);
    }
    assert forall|key: (Seq<char>, u64)|
        spent_by(receipts).contains(key) <==> state.used_nonces.contains(key) by {
        if spent_by(receipts).contains(key) {
            let i = choose|i: int| 0 <= i < receipts.len() && #[trigger] receipts[i].spent() == key;
            lemma_index_of_get(receipts, i);
            assert(state.receipts.contains_key(receipts[i].key()));
        }
        if state.used_nonces.contains(key) {
            let id = choose|id: Seq<char>| #[trigger]
                state.receipts.contains_key(id) && state.receipts[id].nonce_key() == key;
            let i = lemma_index_of_source(receipts, id);
            assert(receipts[i].spent() == key);
        }
    }
    assert(spent_by(receipts) =~= state.used_nonces);
}

/// No call breaks the consistency of a store.
pub proof fn call_keeps_consistency(state: AttestationState, call: AttestationCall)
    requires
        state.consistent(),
    ensures
        state.after(call).consistent(),
{
    let next = state.after(call);
    assert forall|key: (Seq<char>, u64)| #[trigger] next.used_nonces.contains(key) implies (
    exists|id: Seq<char>| #[trigger]
        next.receipts.contains_key(id) && next.receipts[id].nonce_key() == key) by {
        if state.used_nonces.contains(key) {
            let id = choose|id: Seq<char>| #[trigger]
                state.receipts.contains_key(id) && state.receipts[id].nonce_key() == key;
            assert(next.receipts.contains_key(id));
        } else {
            let receipt = call->RecordReceipt_receipt;
            assert(next.receipts.contains_key(receipt.payroll_id));
        }
    }
}

/// No run of calls breaks the consistency of a store.
pub proof fn calls_keep_consistency(state: AttestationState, calls: Seq<AttestationCall>)
    requires
        state.consistent(),
    ensures
        state.after_all(calls).consistent(),
    decreases calls.len(),
{
    if calls.len() > 0 {
        calls_keep_consistency(state, calls.drop_last());
        call_keeps_consistency(state.after_all(calls.drop_last()), calls.last());
    }
}

/// Once a payment is recorded for a claim, a lookup of the claim gives
/// exactly what was recorded: the claim, the execution reference, the
/// commitment byte for byte, and the clock reading of the call.
pub proof fn recorded_payment_is_served(
    state: AttestationState,
    caller: Seq<char>,
    timestamp_nanos: u64,
    claim_id: Seq<char>,
    execution_ref: Seq<char>,
    commitment: Seq<u8>,
)
    requires
        state.access.permits(caller),
        commitment.len() == 32,
        !state.payments.contains_key(claim_id),
    ensures
        state.payment_refusal(caller, claim_id, commitment) is None,
        ({
            let next = state.after_record_payment(
                caller,
                timestamp_nanos,
                claim_id,
                execution_ref,
                commitment,
            );
            &&& next.payments.contains_key(claim_id)
            &&& next.payments[claim_id] == PaymentView {
                claim_id,
                execution_ref,
                commitment,
                timestamp_nanos,
            }
        }),
{
}

/// A second request for a claim that has an attestation is refused, whatever
/// its other arguments, and the store keeps the first attestation alone. From
/// a permitted caller with a commitment of 32 bytes the refusal is
/// `DuplicateClaim`.
pub proof fn repeated_claim_is_refused(
    state: AttestationState,
    claim_id: Seq<char>,
    caller: Seq<char>,
    timestamp_nanos: u64,
    execution_ref: Seq<char>,
    commitment: Seq<u8>,
)
    requires
        state.payments.contains_key(claim_id),
    ensures
        state.payment_refusal(caller, claim_id, commitment) is Some,
        state.access.permits(caller) && commitment.len() == 32 ==> state.payment_refusal(
            caller,
            claim_id,
            commitment,
        ) == Some(LedgerError::DuplicateClaim),
        state.after_record_payment(caller, timestamp_nanos, claim_id, execution_ref, commitment)
            == state,
{
}

/// From a permitted caller, a commitment that is not 32 bytes long is
/// refused as `InvalidCommitment`, and the store is unchanged.
pub proof fn wrong_length_commitment_is_refused(
    state: AttestationState,
    caller: Seq<char>,
    timestamp_nanos: u64,
    claim_id: Seq<char>,
    execution_ref: Seq<char>,
    commitment: Seq<u8>,
)
    requires
        state.access.permits(caller),
        commitment.len() != 32,
    ensures
        state.payment_refusal(caller, claim_id, commitment) == Some(
            LedgerError::InvalidCommitment,
        ),
        state.after_record_payment(caller, timestamp_nanos, claim_id, execution_ref, commitment)
            == state,
{
}

/// While an allowed caller is set, a payment or a receipt from anybody else
/// is refused as `Unauthorized`, and the store is unchanged.
pub proof fn stranger_is_refused(
    state: AttestationState,
    allowed: Seq<char>,
    caller: Seq<char>,
    timestamp_nanos: u64,
    claim_id: Seq<char>,
    execution_ref: Seq<char>,
    commitment: Seq<u8>,
    receipt: ReceiptView,
)
    requires
        state.access.allowed_caller == Some(allowed),
        caller != allowed,
    ensures
        state.payment_refusal(caller, claim_id, commitment) == Some(LedgerError::Unauthorized),
        state.after_record_payment(caller, timestamp_nanos, claim_id, execution_ref, commitment)
            == state,
        state.receipt_refusal(caller, receipt) == Some(LedgerError::Unauthorized),
        state.after_record_receipt(caller, receipt) == state,
{
}

/// A request to set the allowed caller is refused from anybody but the owner
/// and changes nothing then. From the owner it is accepted, and from then on
/// exactly the named identity may write, or everybody where none is named.
pub proof fn owner_alone_sets_allowed_caller(
    state: AttestationState,
    caller: Seq<char>,
    account_id: Option<Seq<char>>,
    writer: Seq<char>,
)
    ensures
        caller != state.access.owner_id ==> state.set_allowed_caller_refusal(caller) == Some(
            LedgerError::Unauthorized,
        ) && state.after_set_allowed_caller(caller, account_id) == state,
        caller == state.access.owner_id ==> state.set_allowed_caller_refusal(caller) is None
            && state.after_set_allowed_caller(caller, account_id).access.permits(writer) == (
        match named(account_id) {
            Some(id) => writer == id,
            None => true,
        }),
{
}

/// No call changes the owner.
pub proof fn owner_never_changes(state: AttestationState, calls: Seq<AttestationCall>)
    ensures
        state.after_all(calls).access.owner_id == state.access.owner_id,
    decreases calls.len(),
{
    if calls.len() > 0 {
        owner_never_changes(state, calls.drop_last());
    }
}

/// An attestation and a receipt, once recorded, stay as they are through any
/// run of calls.
pub proof fn records_are_permanent(state: AttestationState, calls: Seq<AttestationCall>)
    ensures
        forall|id: Seq<char>|
            state.payments.contains_key(id) ==> #[trigger] state.after_all(
                calls,
            ).payments.contains_key(id) && state.after_all(calls).payments[id]
                == state.payments[id],
        forall|id: Seq<char>|
            state.receipts.contains_key(id) ==> #[trigger] state.after_all(
                calls,
            ).receipts.contains_key(id) && state.after_all(calls).receipts[id]
                == state.receipts[id],
    decreases calls.len(),
{
    if calls.len() > 0 {
        records_are_permanent(state, calls.drop_last());
        let before = state.after_all(calls.drop_last());
        assert forall|id: Seq<char>| state.payments.contains_key(id) implies #[trigger]
            state.after_all(calls).payments.contains_key(id) && state.after_all(
            calls,
        ).payments[id] == state.payments[id] by {
            assert(before.payments.contains_key(id));
        }
        assert forall|id: Seq<char>| state.receipts.contains_key(id) implies #[trigger]
            state.after_all(calls).receipts.contains_key(id) && state.after_all(
            calls,
        ).receipts[id] == state.receipts[id] by {
            assert(before.receipts.contains_key(id));
        }
    }
}

/// A call spends a nonce only by filing a receipt, and then the receipt's
/// own: every other pair is spent after the call exactly if it was before.
pub proof fn call_spends_its_own_nonce_only(
    state: AttestationState,
    call: AttestationCall,
    key: (Seq<char>, u64),
)
    ensures
        state.after(call).used_nonces.contains(key) <==> state.used_nonces.contains(key) || (
        call matches AttestationCall::RecordReceipt { caller, receipt } && state.files_receipt(
            caller,
            receipt,
        ) && receipt.nonce_key() == key),
{
}

/// In a new store no nonce is spent, and a nonce stays unspent through every
/// run of calls of which none is a receipt under that nonce.
pub proof fn nonce_is_unused_until_spent(
    owner_id: Seq<char>,
    allowed_caller: Seq<char>,
    calls: Seq<AttestationCall>,
    key: (Seq<char>, u64),
)
    requires
        forall|i: int|
            0 <= i < calls.len() ==> !(#[trigger] calls[i] matches AttestationCall::RecordReceipt {
                receipt,
                ..
            } && receipt.nonce_key() == key),
    ensures
        !AttestationState::initial(owner_id, allowed_caller).after_all(calls).used_nonces.contains(
            key,
        ),
    decreases calls.len(),
{
    if calls.len() > 0 {
        let front = calls.drop_last();
        assert forall|i: int| 0 <= i < front.len() implies !(#[trigger] front[i] matches
            AttestationCall::RecordReceipt { receipt, .. } && receipt.nonce_key() == key) by {
            assert(front[i] == calls[i]);
        }
        nonce_is_unused_until_spent(owner_id, allowed_caller, front, key);
    }
}

/// A receipt that is filed spends its nonce.
pub proof fn filed_receipt_spends_nonce(
    state: AttestationState,
    caller: Seq<char>,
    receipt: ReceiptView,
)
    requires
        state.files_receipt(caller, receipt),
    ensures
        state.after_record_receipt(caller, receipt).used_nonces.contains(receipt.nonce_key()),
{
}

/// A spent nonce stays spent through any run of calls.
pub proof fn spent_nonce_stays_spent(
    state: AttestationState,
    calls: Seq<AttestationCall>,
    key: (Seq<char>, u64),
)
    requires
        state.used_nonces.contains(key),
    ensures
        state.after_all(calls).used_nonces.contains(key),
    decreases calls.len(),
{
    if calls.len() > 0 {
        spent_nonce_stays_spent(state, calls.drop_last(), key);
    }
}

/// After a receipt is filed under an `(authorizer, nonce)` pair, and after
/// whatever calls follow, a request from a permitted caller to record a
/// receipt under the same pair is refused as `NonceReused`, for the same
/// payroll run or another, and the store is unchanged.
pub proof fn spent_nonce_is_refused(
    state: AttestationState,
    caller: Seq<char>,
    receipt: ReceiptView,
    calls: Seq<AttestationCall>,
    later_caller: Seq<char>,
    later: ReceiptView,
)
    requires
        state.files_receipt(caller, receipt),
        later.nonce_key() == receipt.nonce_key(),
        state.after_record_receipt(caller, receipt).after_all(calls).access.permits(later_caller),
    ensures
        ({
            let then = state.after_record_receipt(caller, receipt).after_all(calls);
            &&& then.receipt_refusal(later_caller, later) == Some(LedgerError::NonceReused)
            &&& then.after_record_receipt(later_caller, later) == then
        }),
{
    spent_nonce_stays_spent(
        state.after_record_receipt(caller, receipt),
        calls,
        receipt.nonce_key(),
    );
}

} // verus!
