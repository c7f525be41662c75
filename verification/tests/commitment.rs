use payroll_attestation::{canonical_preimage, PayrollAttestation};
use sha2::{Digest, Sha256};

const SAMPLE_DIGEST: [u8; 32] = [
    208, 209, 135, 65, 250, 126, 152, 196, 230, 13, 65, 233, 57, 29, 217, 33, 179, 194, 52, 174,
    175, 148, 253, 55, 56, 149, 139, 195, 107, 164, 218, 231,
];

fn sample_with(change: usize) -> Vec<u8> {
    let mut fields = ["c1", "e1", "100", "USDC", "near", "", "ab12"];
    let changed = ["c2", "e2", "101", "USDT", "eth", "bob", "ab13"];
    if change < fields.len() {
        fields[change] = changed[change];
    }
    let recipient = if fields[5].is_empty() { None } else { Some(fields[5]) };
    canonical_preimage(fields[0], fields[1], fields[2], fields[3], fields[4], recipient, fields[6])
}

#[test]
fn preimage_joins_the_fields_with_newlines() {
    assert_eq!(sample_with(usize::MAX), b"c1\ne1\n100\nUSDC\nnear\n\nab12".to_vec());
    assert_eq!(
        canonical_preimage("c1", "e1", "100", "USDC", "near", Some("bob.near"), "ab12"),
        b"c1\ne1\n100\nUSDC\nnear\nbob.near\nab12".to_vec()
    );
    assert_eq!(canonical_preimage("", "", "", "", "", None, ""), b"\n\n\n\n\n\n".to_vec());
}

#[test]
fn absent_recipient_is_the_empty_string() {
    assert_eq!(
        canonical_preimage("c1", "e1", "100", "USDC", "near", None, "ab12"),
        canonical_preimage("c1", "e1", "100", "USDC", "near", Some(""), "ab12")
    );
}

#[test]
fn preimage_is_utf8() {
    assert_eq!(
        canonical_preimage("é", "e1", "1", "€", "near", None, "00"),
        "é\ne1\n1\n€\nnear\n\n00".as_bytes().to_vec()
    );
}

#[test]
fn commitment_round_trip() {
    let digest = Sha256::digest(sample_with(usize::MAX)).to_vec();
    assert_eq!(digest, SAMPLE_DIGEST.to_vec());

    let mut store = PayrollAttestation::new("owner".to_string(), String::new());
    store
        .record_payment("backend", 77, "c1".to_string(), "e1".to_string(), digest.clone())
        .unwrap();
    let stored = store.get_payment("c1".to_string()).unwrap();
    assert_eq!(stored.commitment, SAMPLE_DIGEST);
    assert!(stored.commitment_matches(&digest));

    for change in 0..7 {
        let other = Sha256::digest(sample_with(change)).to_vec();
        assert_ne!(other, digest, "field {change}");
        assert!(!stored.commitment_matches(&other), "field {change}");
    }
}

#[test]
fn commitment_matches_only_the_same_32_bytes() {
    let mut store = PayrollAttestation::new("owner".to_string(), String::new());
    store
        .record_payment("backend", 77, "c1".to_string(), "e1".to_string(), SAMPLE_DIGEST.to_vec())
        .unwrap();
    let stored = store.get_payment("c1".to_string()).unwrap();
    assert!(stored.commitment_matches(&SAMPLE_DIGEST));
    assert!(!stored.commitment_matches(&SAMPLE_DIGEST[..31]));
    assert!(!stored.commitment_matches(&[]));
    let mut longer = SAMPLE_DIGEST.to_vec();
    longer.push(0);
    assert!(!stored.commitment_matches(&longer));
    let mut flipped = SAMPLE_DIGEST;
    flipped[31] ^= 1;
    assert!(!stored.commitment_matches(&flipped));
}
