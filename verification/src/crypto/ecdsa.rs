//! The discrete-log adapter: ECDSA over secp256k1, delegating the curve
//! arithmetic to the `k256` crate.  Keys and signatures are held by their
//! canonical encodings: the private key as its 32 secret scalar bytes, the
//! public key as a SEC1 point encoding, the signature as ASN.1 DER.
use super::scheme::{SignatureError, SignatureScheme};
use vstd::prelude::*;
use vstd::slice::slice_to_vec;

verus! {

/// Whether `k256::ecdsa::SigningKey::from_slice` accepts these bytes as a
/// nonzero secret scalar below the curve order.  `from_slice` left-pads
/// byte strings shorter than 32 bytes, so the scheme enforces the exact
/// length itself, in `sk_wf`.
pub uninterp spec fn ecdsa_sk_parses(bytes: Seq<u8>) -> bool;

/// Whether `k256::ecdsa::VerifyingKey::from_sec1_bytes` accepts these bytes
/// as a SEC1-encoded curve point.  `from_sec1_bytes` accepts several SEC1
/// forms, so the scheme enforces the canonical 33-byte compressed shape
/// itself, in `pk_wf`.
pub uninterp spec fn ecdsa_pk_parses(bytes: Seq<u8>) -> bool;

/// Whether `k256::ecdsa::Signature::from_der` accepts these bytes as a
/// strict ASN.1 DER ECDSA signature with nothing trailing.
pub uninterp spec fn ecdsa_sig_parses(bytes: Seq<u8>) -> bool;

/// The compressed SEC1 encoding of the public key derived from a private
/// key, a pure function of the secret scalar.
pub uninterp spec fn ecdsa_pk_of_sk(sk: Seq<u8>) -> Seq<u8>;

/// The DER encoding of the RFC 6979 deterministic ECDSA signature over a
/// message, a pure function of the private key and the message.
pub uninterp spec fn ecdsa_sig_over(sk: Seq<u8>, msg: Seq<u8>) -> Seq<u8>;

/// Whether k256's `Signer::try_sign` succeeds for this key and message.
/// RFC 6979 signing uses no randomness, so success is a function of the
/// two arguments alone.
pub uninterp spec fn ecdsa_sign_ok(sk: Seq<u8>, msg: Seq<u8>) -> bool;

/// Whether the DER signature is valid for the message under the
/// SEC1-encoded public key.
pub uninterp spec fn ecdsa_accepts(pk: Seq<u8>, msg: Seq<u8>, sig: Seq<u8>) -> bool;

/// The discrete-log scheme selector.
#[derive(Debug)]
pub struct ECDSA;

/// A secp256k1 private key, held as its 32 secret scalar bytes.
#[derive(Debug, PartialEq, Eq)]
pub struct ECDSAPrivateKey {
    pub(crate) bytes: Vec<u8>,
}

/// A secp256k1 public key, held as its canonical SEC1 compressed point
/// encoding: 33 bytes, the first being the tag 2 or 3.
#[derive(Debug, PartialEq, Eq)]
pub struct ECDSAPublicKey {
    pub(crate) bytes: Vec<u8>,
}

/// An ECDSA signature, held as its ASN.1 DER encoding.
#[derive(Debug, PartialEq, Eq)]
pub struct ECDSASignature {
    pub(crate) bytes: Vec<u8>,
}

impl View for ECDSAPrivateKey {
    type V = Seq<u8>;

    closed spec fn view(&self) -> Seq<u8> {
        self.bytes@
    }
}

impl View for ECDSAPublicKey {
    type V = Seq<u8>;

    closed spec fn view(&self) -> Seq<u8> {
        self.bytes@
    }
}

impl View for ECDSASignature {
    type V = Seq<u8>;

    closed spec fn view(&self) -> Seq<u8> {
        self.bytes@
    }
}

impl Clone for ECDSAPrivateKey {
    fn clone(&self) -> (r: Self)
        ensures
            r@ == self@,
    {
        ECDSAPrivateKey { bytes: slice_to_vec(self.bytes.as_slice()) }
    }
}

impl Clone for ECDSAPublicKey {
    fn clone(&self) -> (r: Self)
        ensures
            r@ == self@,
    {
        ECDSAPublicKey { bytes: slice_to_vec(self.bytes.as_slice()) }
    }
}

impl Clone for ECDSASignature {
    fn clone(&self) -> (r: Self)
        ensures
            r@ == self@,
    {
        ECDSASignature { bytes: slice_to_vec(self.bytes.as_slice()) }
    }
}

/// Relies on `k256::ecdsa::SigningKey::random` over the operating system's
/// randomness, and on `VerifyingKey::from`: the public key is derived from
/// the private key alone, and is returned compressed (SEC1, 33 bytes).
#[verifier::external_body]
fn ecdsa_generate() -> (r: (Vec<u8>, Vec<u8>))
    ensures
        ecdsa_sk_parses(r.0@),
        r.0@.len() == 32,
        r.1@ == ecdsa_pk_of_sk(r.0@),
        ecdsa_pk_parses(r.1@),
        r.1@.len() == 33,
        r.1@[0] == 2 || r.1@[0] == 3,
{
    let sk = k256::ecdsa::SigningKey::random(&mut rand::rngs::OsRng);
    let pk = k256::ecdsa::VerifyingKey::from(&sk);
    let pk_bytes = pk.to_encoded_point(true);
    (sk.to_bytes().to_vec(), pk_bytes.as_bytes().to_vec())
}

/// Relies on `k256::ecdsa::SigningKey::from_slice` for validation only.
#[verifier::external_body]
fn ecdsa_check_sk(bytes: &[u8]) -> (r: bool)
    ensures
        r == ecdsa_sk_parses(bytes@),
{
    k256::ecdsa::SigningKey::from_slice(bytes).is_ok()
}

/// Relies on `k256::ecdsa::VerifyingKey::from_sec1_bytes` for validation
/// only.
#[verifier::external_body]
fn ecdsa_check_pk(bytes: &[u8]) -> (r: bool)
    ensures
        r == ecdsa_pk_parses(bytes@),
{
    k256::ecdsa::VerifyingKey::from_sec1_bytes(bytes).is_ok()
}

/// Relies on `k256::ecdsa::Signature::from_der` for validation only.  A DER
/// ECDSA signature over secp256k1 is at most 73 bytes (the crate's own maximum), and `from_der`
/// rejects trailing input, so nothing longer is accepted.
#[verifier::external_body]
fn ecdsa_check_sig(bytes: &[u8]) -> (r: bool)
    ensures
        r == ecdsa_sig_parses(bytes@),
        r ==> bytes@.len() <= 73,
{
    k256::ecdsa::Signature::from_der(bytes).is_ok()
}

/// Relies on k256's `Signer::try_sign`: RFC 6979 deterministic ECDSA, so
/// both the signature and whether signing succeeds are functions of the key
/// and the message alone; a signature it produces is well formed and
/// verifies under the public key derived from the same private key.
#[verifier::external_body]
fn ecdsa_sign_bytes(sk: &[u8], message: &[u8]) -> (r: Result<Vec<u8>, ()>)
    requires
        ecdsa_sk_parses(sk@),
    ensures
        (r is Ok) == ecdsa_sign_ok(sk@, message@),
        r matches Ok(v) ==> {
            &&& v@ == ecdsa_sig_over(sk@, message@)
            &&& ecdsa_sig_parses(v@)
            &&& ecdsa_accepts(ecdsa_pk_of_sk(sk@), message@, v@)
        },
{
    let key = match k256::ecdsa::SigningKey::from_slice(sk) {
        Ok(k) => k,
        Err(_) => return Err(()),
    };
    let sig: k256::ecdsa::Signature = match k256::ecdsa::signature::Signer::try_sign(
        &key,
        message,
    ) {
        Ok(s) => s,
        Err(_) => return Err(()),
    };
    Ok(sig.to_der().as_bytes().to_vec())
}

/// Relies on k256's `Verifier::verify`: true exactly when the DER signature
/// is valid for the message under the SEC1-encoded public key.
#[verifier::external_body]
fn ecdsa_verify_bytes(pk: &[u8], message: &[u8], sig: &[u8]) -> (r: bool)
    requires
        ecdsa_pk_parses(pk@),
        ecdsa_sig_parses(sig@),
    ensures
        r == ecdsa_accepts(pk@, message@, sig@),
{
    let key = match k256::ecdsa::VerifyingKey::from_sec1_bytes(pk) {
        Ok(k) => k,
        Err(_) => return false,
    };
    let parsed = match k256::ecdsa::Signature::from_der(sig) {
        Ok(s) => s,
        Err(_) => return false,
    };
    k256::ecdsa::signature::Verifier::verify(&key, message, &parsed).is_ok()
}

impl SignatureScheme for ECDSA {
    type PrivateKey = ECDSAPrivateKey;

    type PublicKey = ECDSAPublicKey;

    type Signature = ECDSASignature;

    open spec fn spec_name() -> Seq<char> {
        "ECDSA-secp256k1"@
    }

    open spec fn sk_wf(bytes: Seq<u8>) -> bool {
        bytes.len() == 32 && ecdsa_sk_parses(bytes)
    }

    open spec fn pk_wf(bytes: Seq<u8>) -> bool {
        bytes.len() == 33 && (bytes[0] == 2 || bytes[0] == 3) && ecdsa_pk_parses(bytes)
    }

    open spec fn sig_wf(bytes: Seq<u8>) -> bool {
        ecdsa_sig_parses(bytes)
    }

    open spec fn pk_of(sk: Seq<u8>) -> Seq<u8> {
        ecdsa_pk_of_sk(sk)
    }

    open spec fn sig_of(sk: Seq<u8>, msg: Seq<u8>) -> Seq<u8> {
        ecdsa_sig_over(sk, msg)
    }

    open spec fn sign_ok(sk: Seq<u8>, msg: Seq<u8>) -> bool {
        ecdsa_sign_ok(sk, msg)
    }

    open spec fn verifies(pk: Seq<u8>, msg: Seq<u8>, sig: Seq<u8>) -> bool {
        ecdsa_accepts(pk, msg, sig)
    }

    fn name() -> (r: &'static str) {
        "ECDSA-secp256k1"
    }

    fn generate_keypair() -> (r: Result<(ECDSAPrivateKey, ECDSAPublicKey), SignatureError>)
        ensures
            r is Ok,
    {
        let (sk_bytes, pk_bytes) = ecdsa_generate();
        Ok((ECDSAPrivateKey { bytes: sk_bytes }, ECDSAPublicKey { bytes: pk_bytes }))
    }

    fn sign(private_key: &ECDSAPrivateKey, message: &[u8]) -> (r: Result<
        ECDSASignature,
        SignatureError,
    >) {
        match ecdsa_sign_bytes(private_key.bytes.as_slice(), message) {
            Ok(bytes) => Ok(ECDSASignature { bytes }),
            Err(_) => Err(SignatureError::Signing("ECDSA signing failed".to_owned())),
        }
    }

    fn verify(public_key: &ECDSAPublicKey, message: &[u8], signature: &ECDSASignature) -> (r:
        Result<bool, SignatureError>) {
        Ok(ecdsa_verify_bytes(public_key.bytes.as_slice(), message, signature.bytes.as_slice()))
    }

    fn serialize_private_key(private_key: &ECDSAPrivateKey) -> (r: Result<
        Vec<u8>,
        SignatureError,
    >) {
        Ok(slice_to_vec(private_key.bytes.as_slice()))
    }

    fn serialize_public_key(public_key: &ECDSAPublicKey) -> (r: Result<Vec<u8>, SignatureError>) {
        Ok(slice_to_vec(public_key.bytes.as_slice()))
    }

    fn serialize_signature(signature: &ECDSASignature) -> (r: Result<Vec<u8>, SignatureError>) {
        Ok(slice_to_vec(signature.bytes.as_slice()))
    }

    fn deserialize_private_key(bytes: &[u8]) -> (r: Result<ECDSAPrivateKey, SignatureError>) {
        if bytes.len() == 32 && ecdsa_check_sk(bytes) {
            Ok(ECDSAPrivateKey { bytes: slice_to_vec(bytes) })
        } else {
            Err(SignatureError::Deserialization("not a valid ECDSA private key".to_owned()))
        }
    }

    fn deserialize_public_key(bytes: &[u8]) -> (r: Result<ECDSAPublicKey, SignatureError>)
        ensures
            r is Ok ==> bytes@.len() == 33,
    {
        if bytes.len() == 33 {
            let tag = *vstd::slice::slice_index_get(bytes, 0);
            if (tag == 2 || tag == 3) && ecdsa_check_pk(bytes) {
                return Ok(ECDSAPublicKey { bytes: slice_to_vec(bytes) });
            }
        }
        Err(SignatureError::Deserialization("not a compressed SEC1 public key".to_owned()))
    }

    fn deserialize_signature(bytes: &[u8]) -> (r: Result<ECDSASignature, SignatureError>)
        ensures
            r is Ok ==> bytes@.len() <= 73,
    {
        if ecdsa_check_sig(bytes) {
            Ok(ECDSASignature { bytes: slice_to_vec(bytes) })
        } else {
            Err(SignatureError::Deserialization("not a valid ECDSA signature".to_owned()))
        }
    }
}

} // verus!
