use sig_tool::crypto::scheme::{
    private_key_round_trips, public_key_round_trips, signature_round_trips,
    signed_message_verifies, SignatureError, SignatureScheme,
};
use sig_tool::crypto::{BLS, ECDSA};
use sig_tool::hexstr::{hex_decode, hex_encode};
use sig_tool::ops::deserialize_signature_under_both_schemes;

#[test]
fn ecdsa_round_trip() {
    let (sk, pk) = ECDSA::generate_keypair().unwrap();
    let sig = ECDSA::sign(&sk, b"round trip").unwrap();

    let sk_bytes = ECDSA::serialize_private_key(&sk).unwrap();
    assert_eq!(sk_bytes.len(), 32);
    assert_eq!(ECDSA::deserialize_private_key(&sk_bytes).unwrap(), sk);

    let pk_bytes = ECDSA::serialize_public_key(&pk).unwrap();
    assert_eq!(pk_bytes.len(), 33);
    assert_eq!(ECDSA::deserialize_public_key(&pk_bytes).unwrap(), pk);

    let sig_bytes = ECDSA::serialize_signature(&sig).unwrap();
    assert!(sig_bytes.len() <= 72);
    assert_eq!(ECDSA::deserialize_signature(&sig_bytes).unwrap(), sig);
}

#[test]
fn bls_round_trip() {
    let (sk, pk) = BLS::generate_keypair().unwrap();
    let sig = BLS::sign(&sk, b"round trip").unwrap();

    let sk_bytes = BLS::serialize_private_key(&sk).unwrap();
    assert_eq!(sk_bytes.len(), 32);
    assert_eq!(BLS::deserialize_private_key(&sk_bytes).unwrap(), sk);

    let pk_bytes = BLS::serialize_public_key(&pk).unwrap();
    assert_eq!(pk_bytes.len(), 48);
    assert_eq!(BLS::deserialize_public_key(&pk_bytes).unwrap(), pk);

    let sig_bytes = BLS::serialize_signature(&sig).unwrap();
    assert_eq!(sig_bytes.len(), 96);
    assert_eq!(BLS::deserialize_signature(&sig_bytes).unwrap(), sig);
}

#[test]
fn round_trip_laws_hold_at_runtime() {
    let (sk, pk) = ECDSA::generate_keypair().unwrap();
    let sig = ECDSA::sign(&sk, b"law").unwrap();
    assert_eq!(private_key_round_trips::<ECDSA>(&sk).unwrap(), sk);
    assert_eq!(public_key_round_trips::<ECDSA>(&pk).unwrap(), pk);
    assert_eq!(signature_round_trips::<ECDSA>(&sig).unwrap(), sig);

    let (sk, pk) = BLS::generate_keypair().unwrap();
    let sig = BLS::sign(&sk, b"law").unwrap();
    assert_eq!(private_key_round_trips::<BLS>(&sk).unwrap(), sk);
    assert_eq!(public_key_round_trips::<BLS>(&pk).unwrap(), pk);
    assert_eq!(signature_round_trips::<BLS>(&sig).unwrap(), sig);
}

#[test]
fn ecdsa_sign_verify() {
    let (sk, pk) = ECDSA::generate_keypair().unwrap();
    let sig = ECDSA::sign(&sk, b"a message").unwrap();
    assert_eq!(ECDSA::verify(&pk, b"a message", &sig).unwrap(), true);
    assert_eq!(ECDSA::verify(&pk, b"another message", &sig).unwrap(), false);

    let (_, other_pk) = ECDSA::generate_keypair().unwrap();
    assert_eq!(ECDSA::verify(&other_pk, b"a message", &sig).unwrap(), false);

    assert_eq!(signed_message_verifies::<ECDSA>(&sk, &pk, b"any message").unwrap(), true);
}

#[test]
fn bls_sign_verify() {
    let (sk, pk) = BLS::generate_keypair().unwrap();
    let sig = BLS::sign(&sk, b"a message").unwrap();
    assert_eq!(BLS::verify(&pk, b"a message", &sig).unwrap(), true);
    assert_eq!(BLS::verify(&pk, b"another message", &sig).unwrap(), false);

    let (_, other_pk) = BLS::generate_keypair().unwrap();
    assert_eq!(BLS::verify(&other_pk, b"a message", &sig).unwrap(), false);

    assert_eq!(signed_message_verifies::<BLS>(&sk, &pk, b"any message").unwrap(), true);
}

#[test]
fn ecdsa_flipped_signature_never_verifies() {
    let (sk, pk) = ECDSA::generate_keypair().unwrap();
    let sig = ECDSA::sign(&sk, b"flip me").unwrap();
    let bytes = ECDSA::serialize_signature(&sig).unwrap();
    for i in 0..bytes.len() {
        for flip in [0x01u8, 0x80u8] {
            let mut mutated = bytes.clone();
            mutated[i] ^= flip;
            if mutated == bytes {
                continue;
            }
            match ECDSA::deserialize_signature(&mutated) {
                Ok(parsed) => {
                    assert_eq!(ECDSA::verify(&pk, b"flip me", &parsed).unwrap(), false);
                }
                Err(e) => {
                    assert!(matches!(e, SignatureError::Deserialization(_)));
                }
            }
        }
    }
}

#[test]
fn bls_flipped_signature_never_verifies() {
    let (sk, pk) = BLS::generate_keypair().unwrap();
    let sig = BLS::sign(&sk, b"flip me").unwrap();
    let bytes = BLS::serialize_signature(&sig).unwrap();
    for i in 0..bytes.len() {
        let mut mutated = bytes.clone();
        mutated[i] ^= 0x01;
        match BLS::deserialize_signature(&mutated) {
            Ok(parsed) => {
                assert_eq!(BLS::verify(&pk, b"flip me", &parsed).unwrap(), false);
            }
            Err(e) => {
                assert!(matches!(e, SignatureError::Deserialization(_)));
            }
        }
    }
}

#[test]
fn scheme_isolation_signatures_do_not_cross_deserialize() {
    let (ecdsa_sk, _) = ECDSA::generate_keypair().unwrap();
    let ecdsa_sig = ECDSA::serialize_signature(&ECDSA::sign(&ecdsa_sk, b"msg").unwrap()).unwrap();
    let (bls_sk, _) = BLS::generate_keypair().unwrap();
    let bls_sig = BLS::serialize_signature(&BLS::sign(&bls_sk, b"msg").unwrap()).unwrap();

    assert!(matches!(
        BLS::deserialize_signature(&ecdsa_sig),
        Err(SignatureError::Deserialization(_))
    ));
    assert!(matches!(
        ECDSA::deserialize_signature(&bls_sig),
        Err(SignatureError::Deserialization(_))
    ));

    let (e1, b1) = deserialize_signature_under_both_schemes(&ecdsa_sig);
    assert!(!(e1.is_ok() && b1.is_ok()));
    let (e2, b2) = deserialize_signature_under_both_schemes(&bls_sig);
    assert!(!(e2.is_ok() && b2.is_ok()));
}

#[test]
fn hex_encoding_matches_expected_text() {
    assert_eq!(hex_encode(&[0x00, 0xff, 0x10]), "00ff10");
    assert_eq!(hex_encode(&[]), "");
    assert_eq!(hex_decode("00ff10").unwrap(), vec![0x00, 0xff, 0x10]);
    assert_eq!(hex_decode("AB").unwrap(), vec![0xab]);
    assert_eq!(hex_decode(""), Some(vec![]));
    assert_eq!(hex_decode("abc"), None);
    assert_eq!(hex_decode("0g"), None);
}

#[test]
fn only_the_compressed_encodings_are_accepted() {
    let (_, pk) = ECDSA::generate_keypair().unwrap();
    let compressed = ECDSA::serialize_public_key(&pk).unwrap();
    let parsed = k256::ecdsa::VerifyingKey::from_sec1_bytes(&compressed).unwrap();
    let uncompressed = parsed.to_encoded_point(false).as_bytes().to_vec();
    assert_eq!(uncompressed.len(), 65);
    assert!(ECDSA::deserialize_public_key(&uncompressed).is_err());

    let (sk, pk) = BLS::generate_keypair().unwrap();
    let compressed = BLS::serialize_public_key(&pk).unwrap();
    let point = blst::min_pk::PublicKey::uncompress(&compressed).unwrap();
    let uncompressed = point.serialize().to_vec();
    assert_eq!(uncompressed.len(), 96);
    assert!(BLS::deserialize_public_key(&uncompressed).is_err());

    let sig = BLS::sign(&sk, b"canonical").unwrap();
    let sig_compressed = BLS::serialize_signature(&sig).unwrap();
    let sig_point = blst::min_pk::Signature::uncompress(&sig_compressed).unwrap();
    let sig_uncompressed = sig_point.serialize().to_vec();
    assert_eq!(sig_uncompressed.len(), 192);
    assert!(BLS::deserialize_signature(&sig_uncompressed).is_err());
}

#[test]
fn ecdsa_private_key_rejects_wrong_length() {
    assert!(ECDSA::deserialize_private_key(&[0x11; 31]).is_err());
    assert!(ECDSA::deserialize_private_key(&[0x11; 33]).is_err());
    assert!(ECDSA::deserialize_private_key(&[0x00; 32]).is_err());
}

#[test]
fn bls_private_key_rejects_wrong_length() {
    assert!(BLS::deserialize_private_key(&[0x11; 31]).is_err());
    assert!(BLS::deserialize_private_key(&[0x11; 33]).is_err());
    assert!(BLS::deserialize_private_key(&[0x00; 32]).is_err());
}
