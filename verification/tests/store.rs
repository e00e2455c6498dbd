use sig_tool::crypto::scheme::{SignatureError, SignatureScheme};
use sig_tool::crypto::{BLS, ECDSA};
use sig_tool::ops::{sign_with_entry, verify_with_entry};
use sig_tool::storage::{
    build_key_entry, check_key_entry, make_signature_record, parse_signature_record, KeyEntry,
    KeyMetadata, KeyStore, SignatureRecord, StorageError,
};

#[test]
fn save_then_load_returns_what_was_saved() {
    let mut store = KeyStore::new("keys".to_string());
    let (sk, pk) = ECDSA::generate_keypair().unwrap();
    store.save_keypair::<ECDSA>("alice", &sk, &pk, 1234).unwrap();

    let entry = store.load_key_entry("alice").unwrap();
    assert_eq!(entry.metadata.name, "alice");
    assert_eq!(entry.metadata.scheme, "ECDSA-secp256k1");
    assert_eq!(entry.metadata.created_at, 1234);
    assert_eq!(
        entry.private_key,
        hex::encode(ECDSA::serialize_private_key(&sk).unwrap())
    );
    assert_eq!(
        entry.public_key,
        hex::encode(ECDSA::serialize_public_key(&pk).unwrap())
    );
    assert!(check_key_entry(&entry).is_ok());
}

#[test]
fn load_missing_key_fails_with_key_not_found() {
    let store = KeyStore::new("keys".to_string());
    assert!(matches!(
        store.load_key_entry("missing"),
        Err(StorageError::KeyNotFound(_))
    ));
}

#[test]
fn saving_twice_overwrites_the_record() {
    let mut store = KeyStore::new("keys".to_string());
    let (sk, pk) = BLS::generate_keypair().unwrap();
    store.save_keypair::<BLS>("alice", &sk, &pk, 1).unwrap();
    let (sk2, pk2) = BLS::generate_keypair().unwrap();
    store.save_keypair::<BLS>("alice", &sk2, &pk2, 2).unwrap();

    let entry = store.load_key_entry("alice").unwrap();
    assert_eq!(entry.metadata.created_at, 2);
    assert_eq!(
        entry.public_key,
        hex::encode(BLS::serialize_public_key(&pk2).unwrap())
    );
    let keys = store.list_keys().unwrap();
    assert_eq!(keys.len(), 1);
}

#[test]
fn list_keys_returns_every_record() {
    let mut store = KeyStore::new("keys".to_string());
    let (sk, pk) = ECDSA::generate_keypair().unwrap();
    store.save_keypair::<ECDSA>("alice", &sk, &pk, 10).unwrap();
    let (sk2, pk2) = BLS::generate_keypair().unwrap();
    store.save_keypair::<BLS>("bob", &sk2, &pk2, 20).unwrap();

    let keys: Vec<KeyMetadata> = store.list_keys().unwrap();
    assert_eq!(keys.len(), 2);
    assert_eq!(keys[0].name, "alice");
    assert_eq!(keys[0].scheme, "ECDSA-secp256k1");
    assert_eq!(keys[1].name, "bob");
    assert_eq!(keys[1].scheme, "BLS12-381-min-pk");
}

#[test]
fn key_path_is_one_file_per_name() {
    let store = KeyStore::new("/tmp/sig-keys".to_string());
    assert_eq!(store.key_path("alice"), "/tmp/sig-keys/alice.json");
}

#[test]
fn signature_record_round_trips() {
    let record = make_signature_record("BLS12-381-min-pk", &[0x01, 0x02, 0xff], 7);
    assert_eq!(record.scheme, "BLS12-381-min-pk");
    assert_eq!(record.signature, "0102ff");
    assert_eq!(record.timestamp, 7);
    let (scheme, bytes) = parse_signature_record(&record).unwrap();
    assert_eq!(scheme, "BLS12-381-min-pk");
    assert_eq!(bytes, vec![0x01, 0x02, 0xff]);
}

#[test]
fn signature_record_with_bad_hex_is_invalid_format() {
    let record = SignatureRecord {
        scheme: "BLS12-381-min-pk".to_string(),
        signature: "zz".to_string(),
        timestamp: 0,
    };
    assert!(matches!(
        parse_signature_record(&record),
        Err(StorageError::InvalidFormat)
    ));
}

#[test]
fn corrupt_key_entry_is_detected() {
    let (sk, pk) = ECDSA::generate_keypair().unwrap();
    let mut entry = build_key_entry::<ECDSA>("alice", &sk, &pk, 0).unwrap();
    entry.private_key = "not hex".to_string();
    assert!(matches!(
        check_key_entry(&entry),
        Err(StorageError::CorruptRecord(_))
    ));
}

#[test]
fn sign_and_verify_through_a_store_record() {
    let mut store = KeyStore::new("keys".to_string());
    let (sk, pk) = ECDSA::generate_keypair().unwrap();
    store.save_keypair::<ECDSA>("alice", &sk, &pk, 99).unwrap();
    let entry = store.load_key_entry("alice").unwrap();

    let (scheme, sig_bytes) = sign_with_entry(&entry, b"hello").unwrap();
    assert_eq!(scheme, "ECDSA-secp256k1");

    let valid = verify_with_entry(&entry, b"hello", &scheme, &sig_bytes);
    assert_eq!(valid.unwrap(), true);

    let invalid = verify_with_entry(&entry, b"hello!", &scheme, &sig_bytes);
    assert_eq!(invalid.unwrap(), false);
}

#[test]
fn bls_sign_and_verify_through_a_store_record() {
    let (sk, pk) = BLS::generate_keypair().unwrap();
    let entry = build_key_entry::<BLS>("bob", &sk, &pk, 99).unwrap();

    let (scheme, sig_bytes) = sign_with_entry(&entry, b"hello").unwrap();
    assert_eq!(scheme, "BLS12-381-min-pk");

    let valid = verify_with_entry(&entry, b"hello", &scheme, &sig_bytes);
    assert_eq!(valid.unwrap(), true);

    let invalid = verify_with_entry(&entry, b"hello!", &scheme, &sig_bytes);
    assert_eq!(invalid.unwrap(), false);
}

#[test]
fn mismatched_scheme_identifiers_are_a_hard_error() {
    let (sk, pk) = ECDSA::generate_keypair().unwrap();
    let entry = build_key_entry::<ECDSA>("alice", &sk, &pk, 0).unwrap();
    let (_, sig_bytes) = sign_with_entry(&entry, b"msg").unwrap();

    let foreign = "BLS12-381-min-pk".to_string();
    assert!(matches!(
        verify_with_entry(&entry, b"msg", &foreign, &sig_bytes),
        Err(StorageError::Signature(SignatureError::SchemeMismatch(_)))
    ));
}

#[test]
fn unknown_scheme_identifier_is_a_corrupt_record() {
    let entry = KeyEntry {
        metadata: KeyMetadata {
            scheme: "RSA-2048".to_string(),
            created_at: 0,
            name: "alice".to_string(),
        },
        private_key: "00".to_string(),
        public_key: "00".to_string(),
    };
    assert!(matches!(
        sign_with_entry(&entry, b"msg"),
        Err(StorageError::CorruptRecord(_))
    ));
    let scheme = "RSA-2048".to_string();
    assert!(matches!(
        verify_with_entry(&entry, b"msg", &scheme, &[0x00]),
        Err(StorageError::CorruptRecord(_))
    ));
}

#[test]
fn bad_key_material_errors_are_distinguished() {
    let (sk, pk) = ECDSA::generate_keypair().unwrap();
    let mut entry = build_key_entry::<ECDSA>("alice", &sk, &pk, 0).unwrap();

    entry.private_key = "xx".to_string();
    assert!(matches!(
        sign_with_entry(&entry, b"msg"),
        Err(StorageError::InvalidFormat)
    ));

    entry.private_key = "0011".to_string();
    assert!(matches!(
        sign_with_entry(&entry, b"msg"),
        Err(StorageError::Signature(SignatureError::Deserialization(_)))
    ));
}
