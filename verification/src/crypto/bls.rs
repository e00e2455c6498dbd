//! The pairing-based adapter: BLS signatures over BLS12-381 in the min-pk
//! convention (public keys in G1, signatures in G2), delegating the group
//! and pairing arithmetic to the `blst` crate.
use super::scheme::{SignatureError, SignatureScheme};
use vstd::prelude::*;
use vstd::slice::slice_index_get;

verus! {

/// The fixed domain-separation tag mixed into signing and verification,
/// distinguishing this application's signatures from signatures produced
/// for unrelated protocols over the same curve.
pub const BLS_DST: &'static str = "BLS_SIG_BLS12381G1_XMD:SHA-256_SSWU_RO_NUL_";

/// Whether `blst::min_pk::SecretKey::deserialize` accepts these bytes: 32
/// big-endian bytes of a nonzero scalar below the group order.
pub uninterp spec fn bls_sk_parses(bytes: Seq<u8>) -> bool;

/// Whether `blst::min_pk::PublicKey::uncompress` accepts these bytes as a
/// compressed G1 point: exactly 48 bytes with the compression bit set.
pub uninterp spec fn bls_pk_parses(bytes: Seq<u8>) -> bool;

/// Whether `blst::min_pk::Signature::uncompress` accepts these bytes as a
/// compressed G2 point: exactly 96 bytes with the compression bit set.
pub uninterp spec fn bls_sig_parses(bytes: Seq<u8>) -> bool;

/// The compressed encoding of the public key derived from a private key, a
/// pure function of the secret scalar.
pub uninterp spec fn bls_pk_of_sk(sk: Seq<u8>) -> Seq<u8>;

/// The compressed encoding of the BLS signature over a message under a
/// domain-separation tag: hashing to G2 and scalar multiplication are
/// deterministic, so this is a pure function of its arguments.
pub uninterp spec fn bls_sig_over(dst: Seq<char>, sk: Seq<u8>, msg: Seq<u8>) -> Seq<u8>;

/// Whether the signature is valid for the message under the public key and
/// the domain-separation tag.
pub uninterp spec fn bls_accepts(dst: Seq<char>, pk: Seq<u8>, msg: Seq<u8>, sig: Seq<u8>) -> bool;

/// The compressed sum, by the G2 group operation, of two compressed
/// signatures.  Point addition is commutative, which the contract of
/// `bls_aggregate_pair` reflects.
pub uninterp spec fn bls_add(a: Seq<u8>, b: Seq<u8>) -> Seq<u8>;

/// Whether one batched pairing check accepts the aggregate signature for
/// one message under every public key in the sequence.
pub uninterp spec fn bls_agg_accepts(
    dst: Seq<char>,
    pks: Seq<Seq<u8>>,
    msg: Seq<u8>,
    sig: Seq<u8>,
) -> bool;

/// The pairing-based scheme selector.
#[derive(Debug)]
pub struct BLS;

/// A BLS private key, held as its 32 big-endian scalar bytes.
#[derive(Debug, PartialEq, Eq)]
pub struct BLSPrivateKey {
    pub(crate) bytes: Vec<u8>,
}

/// A BLS public key, held as a compressed G1 point (48 bytes).
#[derive(Debug, PartialEq, Eq)]
pub struct BLSPublicKey {
    pub(crate) bytes: Vec<u8>,
}

/// A BLS signature, held as a compressed G2 point (96 bytes).
#[derive(Debug, PartialEq, Eq)]
pub struct BLSSignature {
    pub(crate) bytes: Vec<u8>,
}

impl View for BLSPrivateKey {
    type V = Seq<u8>;

    closed spec fn view(&self) -> Seq<u8> {
        self.bytes@
    }
}

impl View for BLSPublicKey {
    type V = Seq<u8>;

    closed spec fn view(&self) -> Seq<u8> {
        self.bytes@
    }
}

impl View for BLSSignature {
    type V = Seq<u8>;

    closed spec fn view(&self) -> Seq<u8> {
        self.bytes@
    }
}

impl Clone for BLSPrivateKey {
    fn clone(&self) -> (r: Self)
        ensures
            r@ == self@,
    {
        BLSPrivateKey { bytes: vstd::slice::slice_to_vec(self.bytes.as_slice()) }
    }
}

impl Clone for BLSPublicKey {
    fn clone(&self) -> (r: Self)
        ensures
            r@ == self@,
    {
        BLSPublicKey { bytes: vstd::slice::slice_to_vec(self.bytes.as_slice()) }
    }
}

impl Clone for BLSSignature {
    fn clone(&self) -> (r: Self)
        ensures
            r@ == self@,
    {
        BLSSignature { bytes: vstd::slice::slice_to_vec(self.bytes.as_slice()) }
    }
}

/// Relies on `blst::min_pk::SecretKey::key_gen` over 32 bytes of operating
/// system randomness, and on `sk_to_pk`: the public key is derived from the
/// private key alone.  `key_gen` rejects only seeds shorter than 32 bytes,
/// and the seed here is a fixed 32-byte array, so generation cannot fail.
#[verifier::external_body]
fn bls_generate() -> (r: (Vec<u8>, Vec<u8>))
    ensures
        bls_sk_parses(r.0@),
        r.0@.len() == 32,
        r.1@ == bls_pk_of_sk(r.0@),
        bls_pk_parses(r.1@),
        r.1@.len() == 48,
{
    let mut ikm = [0u8; 32];
    rand::RngCore::fill_bytes(&mut rand::rngs::OsRng, &mut ikm);
    let sk = blst::min_pk::SecretKey::key_gen(&ikm, &[]).unwrap();
    let pk = sk.sk_to_pk();
    (sk.serialize().to_vec(), pk.compress().to_vec())
}

/// Relies on `blst::min_pk::SecretKey::deserialize` for validation only.
#[verifier::external_body]
fn bls_check_sk(bytes: &[u8]) -> (r: bool)
    ensures
        r == bls_sk_parses(bytes@),
        r ==> bytes@.len() == 32,
{
    blst::min_pk::SecretKey::deserialize(bytes).is_ok()
}

/// Relies on `blst::min_pk::PublicKey::uncompress` for validation only.
/// It accepts only the 48-byte compressed encoding.
#[verifier::external_body]
fn bls_check_pk(bytes: &[u8]) -> (r: bool)
    ensures
        r == bls_pk_parses(bytes@),
        r ==> bytes@.len() == 48,
{
    blst::min_pk::PublicKey::uncompress(bytes).is_ok()
}

/// Relies on `blst::min_pk::Signature::uncompress` for validation only.
/// It accepts only the 96-byte compressed encoding.
#[verifier::external_body]
fn bls_check_sig(bytes: &[u8]) -> (r: bool)
    ensures
        r == bls_sig_parses(bytes@),
        r ==> bytes@.len() == 96,
{
    blst::min_pk::Signature::uncompress(bytes).is_ok()
}

/// Relies on `blst::min_pk::SecretKey::sign`: hash-to-curve under the tag
/// and scalar multiplication, deterministic in its arguments; the resulting
/// G2 point compresses to 96 bytes that uncompress back, and the signature
/// verifies under the public key derived from the same private key.
#[verifier::external_body]
fn bls_sign_bytes(sk: &[u8], message: &[u8], dst: &str) -> (r: Vec<u8>)
    requires
        bls_sk_parses(sk@),
    ensures
        r@ == bls_sig_over(dst@, sk@, message@),
        bls_sig_parses(r@),
        r@.len() == 96,
        bls_accepts(dst@, bls_pk_of_sk(sk@), message@, r@),
{
    let key = blst::min_pk::SecretKey::deserialize(sk).unwrap();
    key.sign(message, dst.as_bytes(), &[]).compress().to_vec()
}

/// Relies on `blst::min_pk::Signature::verify` with signature group check
/// on: true exactly when the signature is valid for the message under the
/// public key and the tag.
#[verifier::external_body]
fn bls_verify_bytes(pk: &[u8], message: &[u8], sig: &[u8], dst: &str) -> (r: bool)
    requires
        bls_pk_parses(pk@),
        bls_sig_parses(sig@),
    ensures
        r == bls_accepts(dst@, pk@, message@, sig@),
{
    let key = blst::min_pk::PublicKey::uncompress(pk).unwrap();
    let parsed = blst::min_pk::Signature::uncompress(sig).unwrap();
    let err = parsed.verify(true, message, dst.as_bytes(), &[], &key, false);
    matches!(err, blst::BLST_ERROR::BLST_SUCCESS)
}

/// Relies on `blst::min_pk::AggregateSignature::{from_signature,
/// add_signature, to_signature}`: the compressed sum of the two G2 points.
/// Group addition is commutative, so the result is the sum in either
/// order; the sum of two curve points compresses to 96 bytes that
/// uncompress back.
#[verifier::external_body]
fn bls_aggregate_pair(a: &[u8], b: &[u8]) -> (r: Vec<u8>)
    requires
        bls_sig_parses(a@),
        bls_sig_parses(b@),
    ensures
        r@ == bls_add(a@, b@),
        r@ == bls_add(b@, a@),
        bls_sig_parses(r@),
        r@.len() == 96,
{
    let first = blst::min_pk::Signature::uncompress(a).unwrap();
    let second = blst::min_pk::Signature::uncompress(b).unwrap();
    let mut agg = blst::min_pk::AggregateSignature::from_signature(&first);
    // With the group check declined the addition itself cannot fail.
    let _ = agg.add_signature(&second, false);
    agg.to_signature().compress().to_vec()
}

/// Relies on `blst::min_pk::Signature::fast_aggregate_verify`: one batched
/// pairing check of an aggregate signature against many public keys and a
/// single shared message; the outcome is a function of its arguments.
#[verifier::external_body]
pub(crate) fn bls_fast_aggregate_verify(pks: &Vec<Vec<u8>>, message: &[u8], sig: &[u8], dst: &str) -> (r:
    bool)
    requires
        forall|i: int| 0 <= i < pks@.len() ==> bls_pk_parses(pks@[i]@),
        bls_sig_parses(sig@),
    ensures
        r == bls_agg_accepts(dst@, pks.deep_view(), message@, sig@),
{
    let keys: Vec<blst::min_pk::PublicKey> = pks
        .iter()
        .map(|k| blst::min_pk::PublicKey::uncompress(k).unwrap())
        .collect();
    let refs: Vec<&blst::min_pk::PublicKey> = keys.iter().collect();
    let parsed = match blst::min_pk::Signature::uncompress(sig) {
        Ok(s) => s,
        Err(_) => return false,
    };
    let err = parsed.fast_aggregate_verify(true, message, dst.as_bytes(), &refs);
    matches!(err, blst::BLST_ERROR::BLST_SUCCESS)
}

/// The canonical byte views of a sequence of signatures.
pub open spec fn sig_views(sigs: Seq<BLSSignature>) -> Seq<Seq<u8>> {
    Seq::new(sigs.len(), |i: int| sigs[i]@)
}

/// The left fold of the group operation over a non-empty sequence of
/// compressed signatures, in input order.
pub open spec fn spec_aggregate(sigs: Seq<Seq<u8>>) -> Seq<u8>
    recommends
        sigs.len() > 0,
    decreases sigs.len(),
{
    if sigs.len() <= 1 {
        sigs[0]
    } else {
        bls_add(spec_aggregate(sigs.drop_last()), sigs.last())
    }
}

impl BLSPublicKey {
    /// The canonical compressed bytes of this public key.
    pub fn as_bytes(&self) -> (r: &[u8])
        ensures
            r@ == self@,
    {
        self.bytes.as_slice()
    }
}

impl BLSSignature {
    /// Combine signatures by the group operation in input order.  An empty
    /// input is rejected explicitly: an "aggregate of nothing" is not a
    /// meaningful signature.  Aggregating a single signature returns it
    /// unchanged.
    pub fn aggregate(signatures: &[BLSSignature]) -> (r: Result<BLSSignature, SignatureError>)
        requires
            forall|i: int| 0 <= i < signatures@.len() ==> bls_sig_parses(signatures@[i]@),
        ensures
            signatures@.len() == 0 ==> (r matches Err(e) && e is Aggregation),
            signatures@.len() > 0 ==> (r matches Ok(s) && s@ == spec_aggregate(
                sig_views(signatures@),
            ) && bls_sig_parses(s@)),
            signatures@.len() == 1 ==> (r matches Ok(s) && s@ == signatures@[0]@),
    {
        if signatures.len() == 0 {
            return Err(
                SignatureError::Aggregation("cannot aggregate an empty signature list".to_owned()),
            );
        }
        let first = slice_index_get(signatures, 0);
        let mut acc = first.clone();
        let mut k: usize = 1;
        while k < signatures.len()
            invariant
                1 <= k <= signatures@.len(),
                forall|i: int| 0 <= i < signatures@.len() ==> bls_sig_parses(signatures@[i]@),
                acc@ == spec_aggregate(sig_views(signatures@).take(k as int)),
                bls_sig_parses(acc@),
            decreases signatures@.len() - k,
        {
            let next = slice_index_get(signatures, k);
            let combined = bls_aggregate_pair(acc.bytes.as_slice(), next.bytes.as_slice());
            proof {
                let views = sig_views(signatures@);
                assert(views.take(k as int + 1).drop_last() =~= views.take(k as int));
                assert(views.take(k as int + 1).last() == signatures@[k as int]@);
            }
            acc = BLSSignature { bytes: combined };
            k = k + 1;
        }
        proof {
            assert(sig_views(signatures@).take(signatures@.len() as int) =~= sig_views(
                signatures@,
            ));
        }
        Ok(acc)
    }
}

/// Order irrelevance for a pair: combining two compressed signatures in
/// either order yields the same aggregate bytes, because the group
/// operation is commutative.  Both aggregates are returned for inspection;
/// the operation fails exactly when either input is not a signature.
pub fn aggregate_pair_order_irrelevant(a: &[u8], b: &[u8]) -> (r: Result<
    (BLSSignature, BLSSignature),
    SignatureError,
>)
    ensures
        (r is Ok) == (bls_sig_parses(a@) && bls_sig_parses(b@)),
        r matches Ok(p) ==> {
            &&& p.0@ == p.1@
            &&& p.0@ == spec_aggregate(seq![a@, b@])
            &&& p.1@ == spec_aggregate(seq![b@, a@])
        },
{
    if !bls_check_sig(a) || !bls_check_sig(b) {
        return Err(SignatureError::Deserialization("not a valid BLS signature".to_owned()));
    }
    let ab = bls_aggregate_pair(a, b);
    let ba = bls_aggregate_pair(b, a);
    proof {
        assert(seq![a@, b@].drop_last() =~= seq![a@]);
        assert(seq![b@, a@].drop_last() =~= seq![b@]);
        assert(spec_aggregate(seq![a@]) == a@);
        assert(spec_aggregate(seq![b@]) == b@);
        assert(spec_aggregate(seq![a@, b@]) == bls_add(a@, b@));
        assert(spec_aggregate(seq![b@, a@]) == bls_add(b@, a@));
    }
    Ok((BLSSignature { bytes: ab }, BLSSignature { bytes: ba }))
}

impl SignatureScheme for BLS {
    type PrivateKey = BLSPrivateKey;

    type PublicKey = BLSPublicKey;

    type Signature = BLSSignature;

    open spec fn spec_name() -> Seq<char> {
        "BLS12-381-min-pk"@
    }

    open spec fn sk_wf(bytes: Seq<u8>) -> bool {
        bls_sk_parses(bytes)
    }

    open spec fn pk_wf(bytes: Seq<u8>) -> bool {
        bls_pk_parses(bytes)
    }

    open spec fn sig_wf(bytes: Seq<u8>) -> bool {
        bls_sig_parses(bytes)
    }

    open spec fn pk_of(sk: Seq<u8>) -> Seq<u8> {
        bls_pk_of_sk(sk)
    }

    open spec fn sig_of(sk: Seq<u8>, msg: Seq<u8>) -> Seq<u8> {
        bls_sig_over(BLS_DST@, sk, msg)
    }

    open spec fn sign_ok(sk: Seq<u8>, msg: Seq<u8>) -> bool {
        true
    }

    open spec fn verifies(pk: Seq<u8>, msg: Seq<u8>, sig: Seq<u8>) -> bool {
        bls_accepts(BLS_DST@, pk, msg, sig)
    }

    fn name() -> (r: &'static str) {
        "BLS12-381-min-pk"
    }

    fn generate_keypair() -> (r: Result<(BLSPrivateKey, BLSPublicKey), SignatureError>)
        ensures
            r is Ok,
    {
        let (sk_bytes, pk_bytes) = bls_generate();
        Ok((BLSPrivateKey { bytes: sk_bytes }, BLSPublicKey { bytes: pk_bytes }))
    }

    fn sign(private_key: &BLSPrivateKey, message: &[u8]) -> (r: Result<
        BLSSignature,
        SignatureError,
    >) {
        let bytes = bls_sign_bytes(private_key.bytes.as_slice(), message, BLS_DST);
        Ok(BLSSignature { bytes })
    }

    fn verify(public_key: &BLSPublicKey, message: &[u8], signature: &BLSSignature) -> (r: Result<
        bool,
        SignatureError,
    >) {
        Ok(
            bls_verify_bytes(
                public_key.bytes.as_slice(),
                message,
                signature.bytes.as_slice(),
                BLS_DST,
            ),
        )
    }

    fn serialize_private_key(private_key: &BLSPrivateKey) -> (r: Result<Vec<u8>, SignatureError>) {
        Ok(vstd::slice::slice_to_vec(private_key.bytes.as_slice()))
    }

    fn serialize_public_key(public_key: &BLSPublicKey) -> (r: Result<Vec<u8>, SignatureError>) {
        Ok(vstd::slice::slice_to_vec(public_key.bytes.as_slice()))
    }

    fn serialize_signature(signature: &BLSSignature) -> (r: Result<Vec<u8>, SignatureError>) {
        Ok(vstd::slice::slice_to_vec(signature.bytes.as_slice()))
    }

    fn deserialize_private_key(bytes: &[u8]) -> (r: Result<BLSPrivateKey, SignatureError>) {
        if bls_check_sk(bytes) {
            Ok(BLSPrivateKey { bytes: vstd::slice::slice_to_vec(bytes) })
        } else {
            Err(SignatureError::Deserialization("not a valid BLS private key".to_owned()))
        }
    }

    fn deserialize_public_key(bytes: &[u8]) -> (r: Result<BLSPublicKey, SignatureError>)
        ensures
            r is Ok ==> bytes@.len() == 48,
    {
        if bls_check_pk(bytes) {
            Ok(BLSPublicKey { bytes: vstd::slice::slice_to_vec(bytes) })
        } else {
            Err(SignatureError::Deserialization("not a valid BLS public key".to_owned()))
        }
    }

    fn deserialize_signature(bytes: &[u8]) -> (r: Result<BLSSignature, SignatureError>)
        ensures
            r is Ok ==> bytes@.len() == 96,
    {
        if bls_check_sig(bytes) {
            Ok(BLSSignature { bytes: vstd::slice::slice_to_vec(bytes) })
        } else {
            Err(SignatureError::Deserialization("not a valid BLS signature".to_owned()))
        }
    }
}

} // verus!
