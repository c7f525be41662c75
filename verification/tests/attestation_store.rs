use payroll_attestation::{LedgerError, PaymentAttestation, PayrollAttestation, ReceiptRecord};

fn s(text: &str) -> String {
    text.to_string()
}

fn digest(fill: u8) -> Vec<u8> {
    vec![fill; 32]
}

fn receipt_p1(store: &mut PayrollAttestation, caller: &str, now: u64) -> Result<(), LedgerError> {
    store.record_receipt(caller, now, s("p1"), s("bh"), s("auth1"), 1, s("exec1"), s("success"), s("th1"))
}

#[test]
fn recorded_payment_is_returned_with_its_fields() {
    let mut store = PayrollAttestation::new(s("owner"), s(""));
    let commitment: Vec<u8> = (0u8..32).collect();
    assert_eq!(
        store.record_payment("backend", 1_700_000_000_000_000_000, s("c1"), s("e1"), commitment.clone()),
        Ok(())
    );
    let found = store.get_payment(s("c1")).expect("the attestation was recorded");
    let mut expected = [0u8; 32];
    expected.copy_from_slice(&commitment);
    assert_eq!(
        found,
        PaymentAttestation {
            claim_id: s("c1"),
            execution_ref: s("e1"),
            commitment: expected,
            timestamp_nanos: 1_700_000_000_000_000_000,
        }
    );
}

#[test]
fn unknown_claim_has_no_payment() {
    let mut store = PayrollAttestation::new(s("owner"), s(""));
    assert_eq!(store.get_payment(s("c1")), None);
    store.record_payment("backend", 5, s("c1"), s("e1"), digest(1)).unwrap();
    assert_eq!(store.get_payment(s("c2")), None);
    assert_eq!(store.get_payment(s("")), None);
}

#[test]
fn second_payment_for_a_claim_is_a_duplicate() {
    let mut store = PayrollAttestation::new(s("owner"), s(""));
    assert_eq!(store.record_payment("backend", 10, s("c1"), s("e1"), digest(1)), Ok(()));
    assert_eq!(
        store.record_payment("backend", 10, s("c1"), s("e1"), digest(1)),
        Err(LedgerError::DuplicateClaim)
    );
    assert_eq!(
        store.record_payment("other", 20, s("c1"), s("e2"), digest(2)),
        Err(LedgerError::DuplicateClaim)
    );
    let kept = store.get_payment(s("c1")).unwrap();
    assert_eq!(kept.execution_ref, "e1");
    assert_eq!(kept.commitment, [1u8; 32]);
    assert_eq!(kept.timestamp_nanos, 10);
}

#[test]
fn second_payment_with_a_bad_commitment_is_invalid_first() {
    let mut store = PayrollAttestation::new(s("owner"), s(""));
    store.record_payment("backend", 10, s("c1"), s("e1"), digest(1)).unwrap();
    assert_eq!(
        store.record_payment("backend", 11, s("c1"), s("e1"), vec![1u8; 31]),
        Err(LedgerError::InvalidCommitment)
    );
    assert_eq!(store.get_payment(s("c1")).unwrap().timestamp_nanos, 10);
}

#[test]
fn commitment_of_wrong_length_is_invalid() {
    let mut store = PayrollAttestation::new(s("owner"), s(""));
    for length in [0usize, 1, 31, 33, 64] {
        assert_eq!(
            store.record_payment("backend", 10, s("c1"), s("e1"), vec![9u8; length]),
            Err(LedgerError::InvalidCommitment)
        );
        assert_eq!(store.get_payment(s("c1")), None);
    }
    assert_eq!(store.record_payment("backend", 10, s("c1"), s("e1"), digest(9)), Ok(()));
}

#[test]
fn only_the_allowed_caller_records() {
    let mut store = PayrollAttestation::new(s("owner"), s("alice"));
    assert_eq!(
        store.record_payment("bob", 10, s("c1"), s("e1"), digest(1)),
        Err(LedgerError::Unauthorized)
    );
    assert_eq!(receipt_p1(&mut store, "bob", 10), Err(LedgerError::Unauthorized));
    assert_eq!(store.get_payment(s("c1")), None);
    assert_eq!(store.get_receipt(s("p1")), None);
    assert!(!store.is_nonce_used(s("auth1"), 1));

    assert_eq!(store.record_payment("alice", 10, s("c1"), s("e1"), digest(1)), Ok(()));
    assert_eq!(receipt_p1(&mut store, "alice", 10), Ok(()));
    assert!(store.get_payment(s("c1")).is_some());
    assert!(store.get_receipt(s("p1")).is_some());
}

#[test]
fn the_owner_is_not_thereby_allowed_to_record() {
    let mut store = PayrollAttestation::new(s("owner"), s("alice"));
    assert_eq!(
        store.record_payment("owner", 10, s("c1"), s("e1"), digest(1)),
        Err(LedgerError::Unauthorized)
    );
}

#[test]
fn unauthorized_comes_before_the_other_refusals() {
    let mut store = PayrollAttestation::new(s("owner"), s("alice"));
    store.record_payment("alice", 10, s("c1"), s("e1"), digest(1)).unwrap();
    receipt_p1(&mut store, "alice", 10).unwrap();
    assert_eq!(
        store.record_payment("bob", 10, s("c1"), s("e1"), vec![]),
        Err(LedgerError::Unauthorized)
    );
    assert_eq!(receipt_p1(&mut store, "bob", 11), Err(LedgerError::Unauthorized));
}

#[test]
fn only_the_owner_sets_the_allowed_caller() {
    let mut store = PayrollAttestation::new(s("owner"), s("alice"));
    assert_eq!(store.set_allowed_caller("alice", Some(s("bob"))), Err(LedgerError::Unauthorized));
    assert_eq!(store.set_allowed_caller("bob", None), Err(LedgerError::Unauthorized));
    assert_eq!(store.set_allowed_caller("", None), Err(LedgerError::Unauthorized));
    assert_eq!(
        store.record_payment("bob", 10, s("c1"), s("e1"), digest(1)),
        Err(LedgerError::Unauthorized)
    );

    assert_eq!(store.set_allowed_caller("owner", Some(s("bob"))), Ok(()));
    assert_eq!(store.record_payment("bob", 10, s("c1"), s("e1"), digest(1)), Ok(()));
    assert_eq!(
        store.record_payment("alice", 10, s("c2"), s("e2"), digest(2)),
        Err(LedgerError::Unauthorized)
    );
}

#[test]
fn clearing_the_allowed_caller_opens_the_store() {
    let mut store = PayrollAttestation::new(s("owner"), s("alice"));
    assert_eq!(store.set_allowed_caller("owner", None), Ok(()));
    assert_eq!(store.record_payment("bob", 10, s("c1"), s("e1"), digest(1)), Ok(()));

    assert_eq!(store.set_allowed_caller("owner", Some(s("alice"))), Ok(()));
    assert_eq!(
        store.record_payment("bob", 10, s("c2"), s("e2"), digest(2)),
        Err(LedgerError::Unauthorized)
    );
    assert_eq!(store.set_allowed_caller("owner", Some(s(""))), Ok(()));
    assert_eq!(store.record_payment("bob", 10, s("c2"), s("e2"), digest(2)), Ok(()));
}

#[test]
fn setting_the_allowed_caller_keeps_the_records() {
    let mut store = PayrollAttestation::new(s("owner"), s(""));
    store.record_payment("x", 10, s("c1"), s("e1"), digest(1)).unwrap();
    receipt_p1(&mut store, "x", 11).unwrap();
    store.set_allowed_caller("owner", Some(s("alice"))).unwrap();
    assert_eq!(store.get_payment(s("c1")).unwrap().timestamp_nanos, 10);
    assert_eq!(store.get_receipt(s("p1")).unwrap().timestamp_nanos, 11);
    assert!(store.is_nonce_used(s("auth1"), 1));
}

#[test]
fn receipt_round_trip_and_nonce_reuse() {
    let mut store = PayrollAttestation::new(s("owner"), s(""));
    assert_eq!(receipt_p1(&mut store, "backend", 1_234_567), Ok(()));
    let found = store.get_receipt(s("p1")).expect("the receipt was recorded");
    assert_eq!(
        found,
        ReceiptRecord {
            payroll_id: s("p1"),
            batch_hash: s("bh"),
            authorizer_id: s("auth1"),
            nonce: 1,
            executor_id: s("exec1"),
            status: s("success"),
            tx_refs_hash: s("th1"),
            timestamp_nanos: 1_234_567,
        }
    );
    assert_ne!(found.timestamp_nanos, 0);
    assert_eq!(
        store.record_receipt("backend", 1_234_568, s("p2"), s("bh2"), s("auth1"), 1, s("exec1"), s("success"), s("th2")),
        Err(LedgerError::NonceReused)
    );
    assert_eq!(store.get_receipt(s("p2")), None);
}

#[test]
fn nonce_is_used_only_after_a_receipt_spends_it() {
    let mut store = PayrollAttestation::new(s("owner"), s(""));
    assert!(!store.is_nonce_used(s("auth1"), 1));
    store.record_payment("x", 1, s("c1"), s("e1"), digest(1)).unwrap();
    assert!(!store.is_nonce_used(s("auth1"), 1));
    receipt_p1(&mut store, "x", 2).unwrap();
    assert!(store.is_nonce_used(s("auth1"), 1));
    assert!(!store.is_nonce_used(s("auth1"), 2));
    assert!(!store.is_nonce_used(s("auth2"), 1));
    assert!(!store.is_nonce_used(s("auth"), 11));

    store.record_receipt("x", 3, s("p2"), s("bh"), s("auth2"), 1, s("exec1"), s("failed"), s("th")).unwrap();
    store.set_allowed_caller("owner", Some(s("alice"))).unwrap();
    assert!(store.is_nonce_used(s("auth1"), 1));
    assert!(store.is_nonce_used(s("auth2"), 1));
}

#[test]
fn spent_nonce_is_refused_for_the_same_payroll_run_too() {
    let mut store = PayrollAttestation::new(s("owner"), s(""));
    receipt_p1(&mut store, "x", 2).unwrap();
    assert_eq!(receipt_p1(&mut store, "x", 3), Err(LedgerError::NonceReused));
    assert_eq!(store.get_receipt(s("p1")).unwrap().timestamp_nanos, 2);
}

#[test]
fn repeated_payroll_run_under_a_fresh_nonce_is_passed_over() {
    let mut store = PayrollAttestation::new(s("owner"), s(""));
    receipt_p1(&mut store, "x", 2).unwrap();
    assert_eq!(
        store.record_receipt("x", 3, s("p1"), s("other"), s("auth1"), 2, s("exec2"), s("failed"), s("th9")),
        Ok(())
    );
    let kept = store.get_receipt(s("p1")).unwrap();
    assert_eq!(kept.batch_hash, "bh");
    assert_eq!(kept.nonce, 1);
    assert_eq!(kept.timestamp_nanos, 2);
    assert!(!store.is_nonce_used(s("auth1"), 2));
    assert_eq!(
        store.record_receipt("x", 4, s("p2"), s("bh"), s("auth1"), 2, s("exec1"), s("success"), s("th")),
        Ok(())
    );
    assert!(store.is_nonce_used(s("auth1"), 2));
}

#[test]
fn nonce_keys_do_not_run_into_each_other() {
    let mut store = PayrollAttestation::new(s("owner"), s(""));
    store.record_receipt("x", 1, s("p1"), s("bh"), s("a::1"), 2, s("e"), s("success"), s("th")).unwrap();
    assert!(store.is_nonce_used(s("a::1"), 2));
    assert!(!store.is_nonce_used(s("a"), 12));
    assert!(!store.is_nonce_used(s("a::1::2"), 0));
    assert_eq!(
        store.record_receipt("x", 1, s("p2"), s("bh"), s("a"), 1, s("e"), s("success"), s("th")),
        Ok(())
    );
    assert_eq!(
        store.record_receipt("x", 1, s("p3"), s("bh"), s("a::1"), u64::MAX, s("e"), s("success"), s("th")),
        Ok(())
    );
    assert!(store.is_nonce_used(s("a::1"), u64::MAX));
}

#[test]
fn default_store_is_empty_and_open() {
    let mut store = PayrollAttestation::default();
    assert_eq!(store.get_payment(s("c1")), None);
    assert_eq!(store.get_receipt(s("p1")), None);
    assert!(!store.is_nonce_used(s("auth1"), 1));
    assert_eq!(store.record_payment("anyone", 1, s("c1"), s("e1"), digest(3)), Ok(()));
    assert_eq!(store.set_allowed_caller("somebody", None), Err(LedgerError::Unauthorized));
    assert_eq!(store.set_allowed_caller("", Some(s("alice"))), Ok(()));
}
