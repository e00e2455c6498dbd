use sig_tool::crypto::bls::{aggregate_pair_order_irrelevant, BLSSignature};
use sig_tool::crypto::scheme::{SignatureError, SignatureScheme};
use sig_tool::crypto::BLS;
use sig_tool::ops::{
    aggregate_records, verify_aggregate_with_entries, AGGREGATED_SCHEME_NAME,
};
use sig_tool::storage::{build_key_entry, KeyEntry, StorageError};

fn bls_signature(message: &[u8]) -> (BLSSignature, Vec<u8>) {
    let (sk, _) = BLS::generate_keypair().unwrap();
    let sig = BLS::sign(&sk, message).unwrap();
    let bytes = BLS::serialize_signature(&sig).unwrap();
    (sig, bytes)
}

#[test]
fn aggregate_of_nothing_fails() {
    let r = BLSSignature::aggregate(&[]);
    assert!(matches!(r, Err(SignatureError::Aggregation(_))));
}

#[test]
fn aggregate_of_one_signature_is_that_signature() {
    let (sig, bytes) = bls_signature(b"solo");
    let aggregated = BLSSignature::aggregate(&[sig]).unwrap();
    assert_eq!(BLS::serialize_signature(&aggregated).unwrap(), bytes);
}

#[test]
fn aggregate_pair_commutes() {
    let (_, a) = bls_signature(b"first");
    let (_, b) = bls_signature(b"second");
    let (ab, ba) = aggregate_pair_order_irrelevant(&a, &b).unwrap();
    assert_eq!(
        BLS::serialize_signature(&ab).unwrap(),
        BLS::serialize_signature(&ba).unwrap()
    );

    let sig_a = BLS::deserialize_signature(&a).unwrap();
    let sig_b = BLS::deserialize_signature(&b).unwrap();
    let order_one = BLSSignature::aggregate(&[sig_a, sig_b]).unwrap();
    let sig_a = BLS::deserialize_signature(&a).unwrap();
    let sig_b = BLS::deserialize_signature(&b).unwrap();
    let order_two = BLSSignature::aggregate(&[sig_b, sig_a]).unwrap();
    assert_eq!(
        BLS::serialize_signature(&order_one).unwrap(),
        BLS::serialize_signature(&order_two).unwrap()
    );
}

#[test]
fn aggregate_pair_rejects_malformed_input() {
    let (_, a) = bls_signature(b"first");
    assert!(matches!(
        aggregate_pair_order_irrelevant(&a, &[0x01, 0x02]),
        Err(SignatureError::Deserialization(_))
    ));
}

#[test]
fn aggregate_three_in_any_tested_order_agrees() {
    let (_, a) = bls_signature(b"vote");
    let (_, b) = bls_signature(b"vote");
    let (_, c) = bls_signature(b"vote");
    let parse = |bytes: &Vec<u8>| BLS::deserialize_signature(bytes).unwrap();
    let forward =
        BLSSignature::aggregate(&[parse(&a), parse(&b), parse(&c)]).unwrap();
    let backward =
        BLSSignature::aggregate(&[parse(&c), parse(&b), parse(&a)]).unwrap();
    let rotated =
        BLSSignature::aggregate(&[parse(&b), parse(&c), parse(&a)]).unwrap();
    let forward = BLS::serialize_signature(&forward).unwrap();
    assert_eq!(forward, BLS::serialize_signature(&backward).unwrap());
    assert_eq!(forward, BLS::serialize_signature(&rotated).unwrap());
}

#[test]
fn aggregate_records_of_three_votes() {
    let scheme = "BLS12-381-min-pk".to_string();
    let (_, a) = bls_signature(b"vote:yes");
    let (_, b) = bls_signature(b"vote:yes");
    let (_, c) = bls_signature(b"vote:yes");
    let records = vec![
        (scheme.clone(), a.clone()),
        (scheme.clone(), b.clone()),
        (scheme.clone(), c.clone()),
    ];
    let (out_scheme, aggregate) = aggregate_records(&records).unwrap();
    assert_eq!(out_scheme, AGGREGATED_SCHEME_NAME);
    assert_ne!(aggregate, a);
    assert_ne!(aggregate, b);
    assert_ne!(aggregate, c);
    assert_eq!(aggregate.len(), 96);
}

#[test]
fn aggregate_records_rejects_empty_and_foreign_schemes() {
    let empty: Vec<(String, Vec<u8>)> = Vec::new();
    assert!(matches!(
        aggregate_records(&empty),
        Err(StorageError::Signature(SignatureError::Aggregation(_)))
    ));

    let (_, a) = bls_signature(b"vote");
    let records = vec![
        ("BLS12-381-min-pk".to_string(), a.clone()),
        ("ECDSA-secp256k1".to_string(), a.clone()),
    ];
    assert!(matches!(
        aggregate_records(&records),
        Err(StorageError::Signature(SignatureError::SchemeMismatch(_)))
    ));

    let records = vec![
        ("BLS12-381-min-pk".to_string(), a),
        ("BLS12-381-min-pk".to_string(), vec![0x00, 0x01]),
    ];
    assert!(matches!(
        aggregate_records(&records),
        Err(StorageError::Signature(SignatureError::Deserialization(_)))
    ));
}

fn signer_entry(name: &str) -> (KeyEntry, Vec<u8>, Vec<u8>) {
    let (sk, pk) = BLS::generate_keypair().unwrap();
    let entry = build_key_entry::<BLS>(name, &sk, &pk, 11).unwrap();
    let sk_bytes = BLS::serialize_private_key(&sk).unwrap();
    let pk_bytes = BLS::serialize_public_key(&pk).unwrap();
    (entry, sk_bytes, pk_bytes)
}

#[test]
fn aggregate_verifies_against_its_signers() {
    let message = b"vote:yes";
    let mut entries: Vec<KeyEntry> = Vec::new();
    let mut sigs: Vec<BLSSignature> = Vec::new();
    for name in ["alice", "bob", "carol"] {
        let (entry, sk_bytes, _) = signer_entry(name);
        let sk = BLS::deserialize_private_key(&sk_bytes).unwrap();
        sigs.push(BLS::sign(&sk, message).unwrap());
        entries.push(entry);
    }
    let aggregate = BLSSignature::aggregate(&sigs).unwrap();
    let aggregate_bytes = BLS::serialize_signature(&aggregate).unwrap();
    let scheme = AGGREGATED_SCHEME_NAME.to_string();

    let ok = verify_aggregate_with_entries(&entries, message, &scheme, &aggregate_bytes);
    assert_eq!(ok.unwrap(), true);

    let wrong = verify_aggregate_with_entries(&entries, b"vote:no", &scheme, &aggregate_bytes);
    assert_eq!(wrong.unwrap(), false);

    let plain_scheme = "BLS12-381-min-pk".to_string();
    assert!(matches!(
        verify_aggregate_with_entries(&entries, message, &plain_scheme, &aggregate_bytes),
        Err(StorageError::Signature(SignatureError::SchemeMismatch(_)))
    ));

    let no_signers: Vec<KeyEntry> = Vec::new();
    assert!(matches!(
        verify_aggregate_with_entries(&no_signers, message, &scheme, &aggregate_bytes),
        Err(StorageError::Signature(SignatureError::Verification(_)))
    ));

    let mut duplicated = Vec::new();
    duplicated.push(entries[0].clone());
    duplicated.push(entries[0].clone());
    assert!(matches!(
        verify_aggregate_with_entries(&duplicated, message, &scheme, &aggregate_bytes),
        Err(StorageError::Signature(SignatureError::Verification(_)))
    ));
}

#[test]
fn aggregate_does_not_verify_with_missing_signer() {
    let message = b"vote:yes";
    let mut entries: Vec<KeyEntry> = Vec::new();
    let mut sigs: Vec<BLSSignature> = Vec::new();
    for name in ["alice", "bob", "carol"] {
        let (entry, sk_bytes, _) = signer_entry(name);
        let sk = BLS::deserialize_private_key(&sk_bytes).unwrap();
        sigs.push(BLS::sign(&sk, message).unwrap());
        entries.push(entry);
    }
    let aggregate = BLSSignature::aggregate(&sigs).unwrap();
    let aggregate_bytes = BLS::serialize_signature(&aggregate).unwrap();
    let scheme = AGGREGATED_SCHEME_NAME.to_string();

    entries.pop();
    let r = verify_aggregate_with_entries(&entries, message, &scheme, &aggregate_bytes);
    assert_eq!(r.unwrap(), false);
}
