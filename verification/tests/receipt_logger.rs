use payroll_attestation::{LedgerError, PayrollReceiptLogger, Receipt};

fn s(text: &str) -> String {
    text.to_string()
}

fn log_p1(logger: &mut PayrollReceiptLogger, caller: &str, now: u64) -> Result<(), LedgerError> {
    logger.record_receipt(caller, now, s("p1"), s("bh"), s("auth1"), 1, s("exec1"), s("success"), s("th1"))
}

#[test]
fn logged_receipt_is_returned_with_its_fields() {
    let mut logger = PayrollReceiptLogger::new(s("owner"), None);
    assert_eq!(log_p1(&mut logger, "backend", 42), Ok(()));
    assert_eq!(
        logger.get_receipt(s("p1")),
        Some(Receipt {
            payroll_id: s("p1"),
            batch_hash: s("bh"),
            authorizer_id: s("auth1"),
            nonce: 1,
            executor_id: s("exec1"),
            status: s("success"),
            tx_refs_hash: s("th1"),
            timestamp_nanos: 42,
        })
    );
    assert_eq!(logger.get_receipt(s("p2")), None);
}

#[test]
fn logger_refuses_a_second_receipt_for_a_payroll_run() {
    let mut logger = PayrollReceiptLogger::new(s("owner"), None);
    log_p1(&mut logger, "backend", 42).unwrap();
    assert_eq!(log_p1(&mut logger, "backend", 43), Err(LedgerError::DuplicateReceipt));
    assert_eq!(
        logger.record_receipt("backend", 44, s("p1"), s("bh"), s("auth1"), 2, s("exec1"), s("success"), s("th1")),
        Err(LedgerError::DuplicateReceipt)
    );
    assert_eq!(logger.get_receipt(s("p1")).unwrap().timestamp_nanos, 42);
    assert!(!logger.is_nonce_used(s("auth1"), 2));
}

#[test]
fn logger_refuses_a_spent_nonce_for_another_payroll_run() {
    let mut logger = PayrollReceiptLogger::new(s("owner"), None);
    log_p1(&mut logger, "backend", 42).unwrap();
    assert_eq!(
        logger.record_receipt("backend", 43, s("p2"), s("bh2"), s("auth1"), 1, s("exec1"), s("success"), s("th2")),
        Err(LedgerError::NonceReused)
    );
    assert_eq!(logger.get_receipt(s("p2")), None);
    assert_eq!(
        logger.record_receipt("backend", 43, s("p2"), s("bh2"), s("auth2"), 1, s("exec1"), s("success"), s("th2")),
        Ok(())
    );
    assert_eq!(
        logger.record_receipt("backend", 43, s("p3"), s("bh2"), s("auth1"), 2, s("exec1"), s("partial"), s("th2")),
        Ok(())
    );
}

#[test]
fn logger_nonce_is_used_only_after_a_receipt_spends_it() {
    let mut logger = PayrollReceiptLogger::new(s("owner"), None);
    assert!(!logger.is_nonce_used(s("auth1"), 1));
    log_p1(&mut logger, "backend", 42).unwrap();
    assert!(logger.is_nonce_used(s("auth1"), 1));
    assert!(!logger.is_nonce_used(s("auth1"), 0));
    assert!(!logger.is_nonce_used(s("auth"), 1));
    logger.set_allowed_caller("owner", Some(s("alice"))).unwrap();
    assert!(logger.is_nonce_used(s("auth1"), 1));
}

#[test]
fn logger_admits_only_the_allowed_caller() {
    let mut logger = PayrollReceiptLogger::new(s("owner"), Some(s("alice")));
    assert_eq!(log_p1(&mut logger, "bob", 42), Err(LedgerError::Unauthorized));
    assert_eq!(log_p1(&mut logger, "owner", 42), Err(LedgerError::Unauthorized));
    assert_eq!(logger.get_receipt(s("p1")), None);
    assert!(!logger.is_nonce_used(s("auth1"), 1));
    assert_eq!(log_p1(&mut logger, "alice", 42), Ok(()));
    assert_eq!(log_p1(&mut logger, "bob", 43), Err(LedgerError::Unauthorized));
}

#[test]
fn logger_with_an_empty_allowed_caller_is_open() {
    let mut logger = PayrollReceiptLogger::new(s("owner"), Some(s("")));
    assert_eq!(log_p1(&mut logger, "bob", 42), Ok(()));
}

#[test]
fn logger_lets_only_the_owner_set_the_allowed_caller() {
    let mut logger = PayrollReceiptLogger::new(s("owner"), Some(s("alice")));
    assert_eq!(logger.set_allowed_caller("alice", None), Err(LedgerError::Unauthorized));
    assert_eq!(log_p1(&mut logger, "bob", 42), Err(LedgerError::Unauthorized));
    assert_eq!(logger.set_allowed_caller("owner", Some(s("bob"))), Ok(()));
    assert_eq!(log_p1(&mut logger, "alice", 42), Err(LedgerError::Unauthorized));
    assert_eq!(log_p1(&mut logger, "bob", 42), Ok(()));
    assert_eq!(logger.set_allowed_caller("owner", None), Ok(()));
    assert_eq!(
        logger.record_receipt("carol", 43, s("p2"), s("bh"), s("auth1"), 2, s("exec1"), s("failed"), s("th")),
        Ok(())
    );
}

#[test]
fn default_logger_is_empty_and_open() {
    let mut logger = PayrollReceiptLogger::default();
    assert_eq!(logger.get_receipt(s("p1")), None);
    assert!(!logger.is_nonce_used(s("auth1"), 1));
    assert_eq!(log_p1(&mut logger, "anyone", 7), Ok(()));
    assert_eq!(logger.set_allowed_caller("somebody", None), Err(LedgerError::Unauthorized));
}
