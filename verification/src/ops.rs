//! Scheme-identifier dispatch: the operations behind the command surface.
//!
//! Every cross-component decision — which adapter to invoke — dispatches on
//! the scheme identifier a record carries.  A mismatch between a
//! signature's identifier and a key's identifier is a hard error, never a
//! silent coercion.
use crate::crypto::bls::{
    bls_accepts, bls_agg_accepts, bls_pk_parses, bls_sig_over, bls_sig_parses, sig_views,
    spec_aggregate, BLSPublicKey, BLSSignature, BLS, BLS_DST,
};
use crate::crypto::ecdsa::{ecdsa_accepts, ecdsa_sig_over, ecdsa_sign_ok, ECDSA};
use crate::crypto::scheme::{SignatureError, SignatureScheme};
use crate::hexstr::{hex_bytes, hex_decode, hex_text_valid};
use crate::storage::{KeyEntry, StorageError};
use vstd::prelude::*;
use vstd::slice::slice_index_get;
use vstd::string::StringExecFns;

verus! {

/// The identifier carried by an aggregate of pairing-scheme signatures: a
/// distinguished variant of the pairing scheme identifier.
pub const AGGREGATED_SCHEME_NAME: &'static str = "BLS12-381-min-pk-aggregated";

/// The identifiers this library dispatches on.
pub open spec fn is_known_scheme(s: Seq<char>) -> bool {
    s == ECDSA::spec_name() || s == BLS::spec_name()
}

/// The three scheme identifiers are pairwise distinct, so dispatch on an
/// identifier selects at most one adapter.
pub proof fn lemma_scheme_names_distinct()
    ensures
        ECDSA::spec_name() != BLS::spec_name(),
        ECDSA::spec_name() != AGGREGATED_SCHEME_NAME@,
        BLS::spec_name() != AGGREGATED_SCHEME_NAME@,
{
    reveal_strlit("ECDSA-secp256k1");
    reveal_strlit("BLS12-381-min-pk");
    reveal_strlit("BLS12-381-min-pk-aggregated");
    assert(ECDSA::spec_name().len() == 15);
    assert(BLS::spec_name().len() == 16);
    assert(AGGREGATED_SCHEME_NAME@.len() == 27);
}

/// Whether a stored identifier equals an expected one.
fn scheme_matches(scheme: &String, name: &str) -> (r: bool)
    ensures
        r == (scheme@ == name@),
{
    let expected: String = name.to_owned();
    *scheme == expected
}

/// Whether two byte strings are equal.
fn bytes_eq(a: &[u8], b: &[u8]) -> (r: bool)
    ensures
        r == (a@ == b@),
{
    if a.len() != b.len() {
        return false;
    }
    let mut i: usize = 0;
    while i < a.len()
        invariant
            a@.len() == b@.len(),
            0 <= i <= a@.len(),
            forall|j: int| 0 <= j < i ==> a@[j] == b@[j],
        decreases a@.len() - i,
    {
        if *slice_index_get(a, i) != *slice_index_get(b, i) {
            return false;
        }
        i = i + 1;
    }
    proof {
        assert(a@ =~= b@);
    }
    true
}

/// Sign a message with the key a store record holds, dispatching on the
/// record's scheme identifier.  Returns the identifier and the signature
/// bytes.  An unknown identifier is a corrupt record; key material that is
/// not hex text is an invalid format; key bytes the scheme rejects are a
/// deserialization error.
pub fn sign_with_entry(entry: &KeyEntry, message: &[u8]) -> (r: Result<
    (String, Vec<u8>),
    StorageError,
>)
    ensures
        !is_known_scheme(entry@.metadata.scheme) ==> (r matches Err(e) && e is CorruptRecord),
        entry@.metadata.scheme == ECDSA::spec_name() ==> {
            &&& !hex_text_valid(entry@.private_key) ==> (r matches Err(e) && e is InvalidFormat)
            &&& hex_text_valid(entry@.private_key) && !ECDSA::sk_wf(hex_bytes(entry@.private_key))
                ==> (r matches Err(e) && e matches StorageError::Signature(se) && se
                is Deserialization)
            &&& hex_text_valid(entry@.private_key) && ECDSA::sk_wf(hex_bytes(entry@.private_key))
                ==> {
                &&& (r is Ok) == ecdsa_sign_ok(hex_bytes(entry@.private_key), message@)
                &&& r matches Ok(p) ==> p.0@ == ECDSA::spec_name() && p.1@ == ecdsa_sig_over(
                    hex_bytes(entry@.private_key),
                    message@,
                )
                &&& r matches Err(e) ==> e matches StorageError::Signature(se) && se is Signing
            }
        },
        entry@.metadata.scheme == BLS::spec_name() ==> {
            &&& !hex_text_valid(entry@.private_key) ==> (r matches Err(e) && e is InvalidFormat)
            &&& hex_text_valid(entry@.private_key) && !BLS::sk_wf(hex_bytes(entry@.private_key))
                ==> (r matches Err(e) && e matches StorageError::Signature(se) && se
                is Deserialization)
            &&& hex_text_valid(entry@.private_key) && BLS::sk_wf(hex_bytes(entry@.private_key))
                ==> (r matches Ok(p) && p.0@ == BLS::spec_name() && p.1@ == bls_sig_over(
                BLS_DST@,
                hex_bytes(entry@.private_key),
                message@,
            ))
        },
{
    proof {
        lemma_scheme_names_distinct();
    }
    if scheme_matches(&entry.metadata.scheme, ECDSA::name()) {
        let sk_bytes = match hex_decode(entry.private_key.as_str()) {
            Some(v) => v,
            None => { return Err(StorageError::InvalidFormat) },
        };
        let sk = match ECDSA::deserialize_private_key(sk_bytes.as_slice()) {
            Ok(k) => k,
            Err(e) => { return Err(StorageError::Signature(e)) },
        };
        let sig = match ECDSA::sign(&sk, message) {
            Ok(s) => s,
            Err(e) => { return Err(StorageError::Signature(e)) },
        };
        let bytes = match ECDSA::serialize_signature(&sig) {
            Ok(b) => b,
            Err(e) => { return Err(StorageError::Signature(e)) },
        };
        Ok((ECDSA::name().to_owned(), bytes))
    } else if scheme_matches(&entry.metadata.scheme, BLS::name()) {
        let sk_bytes = match hex_decode(entry.private_key.as_str()) {
            Some(v) => v,
            None => { return Err(StorageError::InvalidFormat) },
        };
        let sk = match BLS::deserialize_private_key(sk_bytes.as_slice()) {
            Ok(k) => k,
            Err(e) => { return Err(StorageError::Signature(e)) },
        };
        let sig = match BLS::sign(&sk, message) {
            Ok(s) => s,
            Err(e) => { return Err(StorageError::Signature(e)) },
        };
        let bytes = match BLS::serialize_signature(&sig) {
            Ok(b) => b,
            Err(e) => { return Err(StorageError::Signature(e)) },
        };
        Ok((BLS::name().to_owned(), bytes))
    } else {
        Err(StorageError::CorruptRecord("unknown signature scheme".to_owned()))
    }
}

/// Verify a signature against the key a store record holds.  The
/// signature's scheme identifier must equal the record's identifier; a
/// mismatch is a hard error, raised before anything is decoded.
pub fn verify_with_entry(
    entry: &KeyEntry,
    message: &[u8],
    signature_scheme: &String,
    signature_bytes: &[u8],
) -> (r: Result<bool, StorageError>)
    ensures
        signature_scheme@ != entry@.metadata.scheme ==> (r matches Err(e) && e matches StorageError::Signature(se) && se is SchemeMismatch),
        signature_scheme@ == entry@.metadata.scheme && !is_known_scheme(entry@.metadata.scheme)
            ==> (r matches Err(e) && e is CorruptRecord),
        signature_scheme@ == entry@.metadata.scheme && entry@.metadata.scheme
            == ECDSA::spec_name() ==> {
            &&& !hex_text_valid(entry@.public_key) ==> (r matches Err(e) && e is InvalidFormat)
            &&& hex_text_valid(entry@.public_key) && !ECDSA::pk_wf(hex_bytes(entry@.public_key))
                ==> (r matches Err(e) && e matches StorageError::Signature(se) && se
                is Deserialization)
            &&& hex_text_valid(entry@.public_key) && ECDSA::pk_wf(hex_bytes(entry@.public_key))
                && !ECDSA::sig_wf(signature_bytes@) ==> (r matches Err(e) && e matches StorageError::Signature(se)
                && se is Deserialization)
            &&& hex_text_valid(entry@.public_key) && ECDSA::pk_wf(hex_bytes(entry@.public_key))
                && ECDSA::sig_wf(signature_bytes@) ==> (r matches Ok(b) && b == ecdsa_accepts(
                hex_bytes(entry@.public_key),
                message@,
                signature_bytes@,
            ))
        },
        signature_scheme@ == entry@.metadata.scheme && entry@.metadata.scheme == BLS::spec_name()
            ==> {
            &&& !hex_text_valid(entry@.public_key) ==> (r matches Err(e) && e is InvalidFormat)
            &&& hex_text_valid(entry@.public_key) && !BLS::pk_wf(hex_bytes(entry@.public_key))
                ==> (r matches Err(e) && e matches StorageError::Signature(se) && se
                is Deserialization)
            &&& hex_text_valid(entry@.public_key) && BLS::pk_wf(hex_bytes(entry@.public_key))
                && !BLS::sig_wf(signature_bytes@) ==> (r matches Err(e) && e matches StorageError::Signature(se)
                && se is Deserialization)
            &&& hex_text_valid(entry@.public_key) && BLS::pk_wf(hex_bytes(entry@.public_key))
                && BLS::sig_wf(signature_bytes@) ==> (r matches Ok(b) && b == bls_accepts(
                BLS_DST@,
                hex_bytes(entry@.public_key),
                message@,
                signature_bytes@,
            ))
        },
{
    proof {
        lemma_scheme_names_distinct();
    }
    if !scheme_matches(signature_scheme, entry.metadata.scheme.as_str()) {
        return Err(
            StorageError::Signature(
                SignatureError::SchemeMismatch(
                    "signature scheme disagrees with the key's".to_owned(),
                ),
            ),
        );
    }
    if scheme_matches(&entry.metadata.scheme, ECDSA::name()) {
        let pk_bytes = match hex_decode(entry.public_key.as_str()) {
            Some(v) => v,
            None => { return Err(StorageError::InvalidFormat) },
        };
        let pk = match ECDSA::deserialize_public_key(pk_bytes.as_slice()) {
            Ok(k) => k,
            Err(e) => { return Err(StorageError::Signature(e)) },
        };
        let sig = match ECDSA::deserialize_signature(signature_bytes) {
            Ok(s) => s,
            Err(e) => { return Err(StorageError::Signature(e)) },
        };
        match ECDSA::verify(&pk, message, &sig) {
            Ok(b) => Ok(b),
            Err(e) => Err(StorageError::Signature(e)),
        }
    } else if scheme_matches(&entry.metadata.scheme, BLS::name()) {
        let pk_bytes = match hex_decode(entry.public_key.as_str()) {
            Some(v) => v,
            None => { return Err(StorageError::InvalidFormat) },
        };
        let pk = match BLS::deserialize_public_key(pk_bytes.as_slice()) {
            Ok(k) => k,
            Err(e) => { return Err(StorageError::Signature(e)) },
        };
        let sig = match BLS::deserialize_signature(signature_bytes) {
            Ok(s) => s,
            Err(e) => { return Err(StorageError::Signature(e)) },
        };
        match BLS::verify(&pk, message, &sig) {
            Ok(b) => Ok(b),
            Err(e) => Err(StorageError::Signature(e)),
        }
    } else {
        Err(StorageError::CorruptRecord("unknown signature scheme".to_owned()))
    }
}

/// The byte views of loaded signature records.
pub open spec fn record_views(records: Seq<(String, Vec<u8>)>) -> Seq<(Seq<char>, Seq<u8>)> {
    Seq::new(records.len(), |i: int| (records[i].0@, records[i].1@))
}

/// Whether every record carries the pairing scheme identifier.
pub open spec fn all_records_bls(views: Seq<(Seq<char>, Seq<u8>)>) -> bool {
    forall|i: int| 0 <= i < views.len() ==> (#[trigger] views[i]).0 == BLS::spec_name()
}

/// Whether every record's signature bytes deserialize.
pub open spec fn all_records_parse(views: Seq<(Seq<char>, Seq<u8>)>) -> bool {
    forall|i: int| 0 <= i < views.len() ==> bls_sig_parses((#[trigger] views[i]).1)
}

/// The signature bytes of each record, in order.
pub open spec fn record_sig_views(views: Seq<(Seq<char>, Seq<u8>)>) -> Seq<Seq<u8>> {
    Seq::new(views.len(), |i: int| views[i].1)
}

/// Aggregate loaded signature records into one record, in input order.
/// Only pairing-scheme signatures aggregate; the result carries the
/// distinguished aggregated identifier.  Succeeds exactly on a non-empty
/// sequence of records that all carry the pairing identifier and all
/// deserialize; an empty input is an aggregation error, never an empty
/// output record.
pub fn aggregate_records(records: &Vec<(String, Vec<u8>)>) -> (r: Result<
    (String, Vec<u8>),
    StorageError,
>)
    ensures
        (r is Ok) == (records@.len() > 0 && all_records_bls(record_views(records@))
            && all_records_parse(record_views(records@))),
        r matches Ok(p) ==> p.0@ == AGGREGATED_SCHEME_NAME@ && p.1@ == spec_aggregate(
            record_sig_views(record_views(records@)),
        ),
        records@.len() == 0 ==> (r matches Err(e) && e matches StorageError::Signature(se) && se
            is Aggregation),
        all_records_bls(record_views(records@)) && !all_records_parse(record_views(records@))
            ==> (r matches Err(e) && e matches StorageError::Signature(se) && se
            is Deserialization),
        all_records_parse(record_views(records@)) && !all_records_bls(record_views(records@))
            ==> (r matches Err(e) && e matches StorageError::Signature(se) && se
            is SchemeMismatch),
{
    let ghost views = record_views(records@);
    let mut sigs: Vec<BLSSignature> = Vec::new();
    let mut i: usize = 0;
    while i < records.len()
        invariant
            0 <= i <= records@.len(),
            views == record_views(records@),
            sigs@.len() == i,
            forall|j: int| 0 <= j < i ==> (#[trigger] views[j]).0 == BLS::spec_name(),
            forall|j: int| 0 <= j < i ==> bls_sig_parses((#[trigger] views[j]).1),
            forall|j: int| 0 <= j < i ==> (#[trigger] sigs@[j])@ == views[j].1,
        decreases records@.len() - i,
    {
        let record = &records[i];
        if !scheme_matches(&record.0, BLS::name()) {
            proof {
                assert(views[i as int].0 != BLS::spec_name());
            }
            return Err(
                StorageError::Signature(
                    SignatureError::SchemeMismatch(
                        "only pairing-scheme signatures aggregate".to_owned(),
                    ),
                ),
            );
        }
        let sig = match BLS::deserialize_signature(record.1.as_slice()) {
            Ok(s) => s,
            Err(e) => {
                proof {
                    assert(!bls_sig_parses(views[i as int].1));
                }
                return Err(StorageError::Signature(e));
            },
        };
        sigs.push(sig);
        i = i + 1;
    }
    let aggregated = match BLSSignature::aggregate(sigs.as_slice()) {
        Ok(a) => a,
        Err(e) => {
            proof {
                assert(records@.len() == 0);
            }
            return Err(StorageError::Signature(e));
        },
    };
    let bytes = match BLS::serialize_signature(&aggregated) {
        Ok(b) => b,
        Err(e) => { return Err(StorageError::Signature(e)) },
    };
    proof {
        assert(sig_views(sigs@) =~= record_sig_views(views));
    }
    Ok((AGGREGATED_SCHEME_NAME.to_owned(), bytes))
}

/// The byte views of a sequence of public keys.
pub open spec fn pk_views(pks: Seq<BLSPublicKey>) -> Seq<Seq<u8>> {
    Seq::new(pks.len(), |i: int| pks[i]@)
}

/// Whether some public key occurs twice.
pub open spec fn has_duplicate(s: Seq<Seq<u8>>) -> bool {
    exists|i: int, j: int| 0 <= i < j < s.len() && s[i] == s[j]
}

/// Verify an aggregate signature against the set of signers it was built
/// from, all having signed one shared message, with one batched pairing
/// check — not with independent per-signer verification.  The record must
/// carry the distinguished aggregated identifier; an empty or duplicated
/// signer set is rejected.  Signers over distinct messages are a different
/// protocol, with a different batched equation, and are not accepted here.
pub fn verify_aggregate(
    public_keys: &Vec<BLSPublicKey>,
    message: &[u8],
    signature_scheme: &String,
    signature_bytes: &[u8],
) -> (r: Result<bool, StorageError>)
    requires
        forall|i: int| 0 <= i < public_keys@.len() ==> bls_pk_parses((#[trigger] public_keys@[i])@),
    ensures
        signature_scheme@ != AGGREGATED_SCHEME_NAME@ ==> (r matches Err(e) && e matches StorageError::Signature(se)
            && se is SchemeMismatch),
        signature_scheme@ == AGGREGATED_SCHEME_NAME@ && public_keys@.len() == 0 ==> (r matches Err(e)
            && e matches StorageError::Signature(se) && se is Verification),
        signature_scheme@ == AGGREGATED_SCHEME_NAME@ && public_keys@.len() > 0 && has_duplicate(
            pk_views(public_keys@),
        ) ==> (r matches Err(e) && e matches StorageError::Signature(se) && se is Verification),
        signature_scheme@ == AGGREGATED_SCHEME_NAME@ && public_keys@.len() > 0 && !has_duplicate(
            pk_views(public_keys@),
        ) && !bls_sig_parses(signature_bytes@) ==> (r matches Err(e) && e matches StorageError::Signature(se)
            && se is Deserialization),
        signature_scheme@ == AGGREGATED_SCHEME_NAME@ && public_keys@.len() > 0 && !has_duplicate(
            pk_views(public_keys@),
        ) && bls_sig_parses(signature_bytes@) ==> (r matches Ok(b) && b == bls_agg_accepts(
            BLS_DST@,
            pk_views(public_keys@),
            message@,
            signature_bytes@,
        )),
{
    if !scheme_matches(signature_scheme, AGGREGATED_SCHEME_NAME) {
        return Err(
            StorageError::Signature(
                SignatureError::SchemeMismatch(
                    "not an aggregated pairing-scheme signature".to_owned(),
                ),
            ),
        );
    }
    if public_keys.len() == 0 {
        return Err(
            StorageError::Signature(
                SignatureError::Verification("no signers supplied".to_owned()),
            ),
        );
    }
    let ghost views = pk_views(public_keys@);
    let mut key_bytes: Vec<Vec<u8>> = Vec::new();
    let mut i: usize = 0;
    while i < public_keys.len()
        invariant
            signature_scheme@ == AGGREGATED_SCHEME_NAME@,
            0 <= i <= public_keys@.len(),
            views == pk_views(public_keys@),
            forall|a: int| 0 <= a < public_keys@.len() ==> bls_pk_parses(
                (#[trigger] public_keys@[a])@,
            ),
            key_bytes@.len() == i,
            forall|a: int| 0 <= a < i ==> (#[trigger] key_bytes@[a])@ == views[a],
            forall|a: int, b: int| 0 <= a < b < i ==> views[a] != views[b],
        decreases public_keys@.len() - i,
    {
        let pk = &public_keys[i];
        let mut j: usize = 0;
        while j < i
            invariant
                signature_scheme@ == AGGREGATED_SCHEME_NAME@,
                0 <= j <= i < public_keys@.len(),
                views == pk_views(public_keys@),
                key_bytes@.len() == i,
                forall|a: int| 0 <= a < i ==> (#[trigger] key_bytes@[a])@ == views[a],
                forall|a: int| 0 <= a < j ==> views[a] != views[i as int],
                pk == public_keys@[i as int],
            decreases i - j,
        {
            if bytes_eq(key_bytes[j].as_slice(), pk.as_bytes()) {
                proof {
                    assert(views[j as int] == views[i as int]);
                }
                return Err(
                    StorageError::Signature(
                        SignatureError::Verification("duplicate signer".to_owned()),
                    ),
                );
            }
            j = j + 1;
        }
        key_bytes.push(vstd::slice::slice_to_vec(pk.as_bytes()));
        i = i + 1;
    }
    let _parsed = match BLS::deserialize_signature(signature_bytes) {
        Ok(s) => s,
        Err(e) => { return Err(StorageError::Signature(e)) },
    };
    proof {
        assert forall|a: int| 0 <= a < key_bytes@.len() implies key_bytes.deep_view()[a]
            == views[a] by {
            assert(key_bytes@[a].deep_view() =~= key_bytes@[a]@);
        }
        assert(key_bytes.deep_view() =~= views);
    }
    Ok(crate::crypto::bls::bls_fast_aggregate_verify(&key_bytes, message, signature_bytes, BLS_DST))
}

/// The public key bytes each store record holds, decoded from hex.
pub open spec fn entry_pk_views(entries: Seq<crate::storage::KeyEntryView>) -> Seq<Seq<u8>> {
    Seq::new(entries.len(), |i: int| hex_bytes(entries[i].public_key))
}

/// Whether every record carries the pairing identifier and a decodable,
/// well-formed public key.
pub open spec fn entries_all_bls_keys(entries: Seq<crate::storage::KeyEntryView>) -> bool {
    forall|i: int| 0 <= i < entries.len() ==> {
        &&& (#[trigger] entries[i]).metadata.scheme == BLS::spec_name()
        &&& hex_text_valid(entries[i].public_key)
        &&& bls_pk_parses(hex_bytes(entries[i].public_key))
    }
}

/// Whether every record carries the pairing identifier.
pub open spec fn entry_schemes_bls(entries: Seq<crate::storage::KeyEntryView>) -> bool {
    forall|i: int| 0 <= i < entries.len() ==> (#[trigger] entries[i]).metadata.scheme
        == BLS::spec_name()
}

/// Whether every record's public key field is hex text.
pub open spec fn entry_pks_hex_valid(entries: Seq<crate::storage::KeyEntryView>) -> bool {
    forall|i: int| 0 <= i < entries.len() ==> hex_text_valid(
        (#[trigger] entries[i]).public_key,
    )
}

/// Whether every decodable public key field holds a well-formed key.
pub open spec fn entry_pks_parse(entries: Seq<crate::storage::KeyEntryView>) -> bool {
    forall|i: int| 0 <= i < entries.len() ==> (hex_text_valid(
        (#[trigger] entries[i]).public_key,
    ) ==> bls_pk_parses(hex_bytes(entries[i].public_key)))
}

/// Verify an aggregate signature against the key records of its signers:
/// every record must carry the pairing identifier and a well-formed public
/// key, and the batched check of `verify_aggregate` decides the rest.
pub fn verify_aggregate_with_entries(
    entries: &Vec<KeyEntry>,
    message: &[u8],
    signature_scheme: &String,
    signature_bytes: &[u8],
) -> (r: Result<bool, StorageError>)
    ensures
        signature_scheme@ != AGGREGATED_SCHEME_NAME@ ==> (r matches Err(e) && e matches StorageError::Signature(se)
            && se is SchemeMismatch),
        signature_scheme@ == AGGREGATED_SCHEME_NAME@ && entries_all_bls_keys(
            entries@.map_values(|e: KeyEntry| e@),
        ) ==> {
            &&& entries@.len() == 0 ==> (r matches Err(e) && e matches StorageError::Signature(se)
                && se is Verification)
            &&& entries@.len() > 0 && has_duplicate(
                entry_pk_views(entries@.map_values(|e: KeyEntry| e@)),
            ) ==> (r matches Err(e) && e matches StorageError::Signature(se) && se
                is Verification)
            &&& entries@.len() > 0 && !has_duplicate(
                entry_pk_views(entries@.map_values(|e: KeyEntry| e@)),
            ) && !bls_sig_parses(signature_bytes@) ==> (r matches Err(e) && e matches StorageError::Signature(se)
                && se is Deserialization)
            &&& entries@.len() > 0 && !has_duplicate(
                entry_pk_views(entries@.map_values(|e: KeyEntry| e@)),
            ) && bls_sig_parses(signature_bytes@) ==> (r matches Ok(b) && b == bls_agg_accepts(
                BLS_DST@,
                entry_pk_views(entries@.map_values(|e: KeyEntry| e@)),
                message@,
                signature_bytes@,
            ))
        },
        r matches Ok(b) ==> b == bls_agg_accepts(
            BLS_DST@,
            entry_pk_views(entries@.map_values(|e: KeyEntry| e@)),
            message@,
            signature_bytes@,
        ),
        signature_scheme@ == AGGREGATED_SCHEME_NAME@ && !entries_all_bls_keys(
            entries@.map_values(|e: KeyEntry| e@),
        ) ==> r is Err,
        signature_scheme@ == AGGREGATED_SCHEME_NAME@ && !entry_schemes_bls(
            entries@.map_values(|e: KeyEntry| e@),
        ) && entry_pks_hex_valid(entries@.map_values(|e: KeyEntry| e@)) && entry_pks_parse(
            entries@.map_values(|e: KeyEntry| e@),
        ) ==> (r matches Err(e) && e matches StorageError::Signature(se) && se is SchemeMismatch),
        signature_scheme@ == AGGREGATED_SCHEME_NAME@ && entry_schemes_bls(
            entries@.map_values(|e: KeyEntry| e@),
        ) && !entry_pks_hex_valid(entries@.map_values(|e: KeyEntry| e@)) && entry_pks_parse(
            entries@.map_values(|e: KeyEntry| e@),
        ) ==> (r matches Err(e) && e is InvalidFormat),
        signature_scheme@ == AGGREGATED_SCHEME_NAME@ && entry_schemes_bls(
            entries@.map_values(|e: KeyEntry| e@),
        ) && entry_pks_hex_valid(entries@.map_values(|e: KeyEntry| e@)) && !entry_pks_parse(
            entries@.map_values(|e: KeyEntry| e@),
        ) ==> (r matches Err(e) && e matches StorageError::Signature(se) && se
            is Deserialization),
{
    if !scheme_matches(signature_scheme, AGGREGATED_SCHEME_NAME) {
        return Err(
            StorageError::Signature(
                SignatureError::SchemeMismatch(
                    "not an aggregated pairing-scheme signature".to_owned(),
                ),
            ),
        );
    }
    let ghost entry_views = entries@.map_values(|e: KeyEntry| e@);
    let mut pks: Vec<BLSPublicKey> = Vec::new();
    let mut i: usize = 0;
    while i < entries.len()
        invariant
            signature_scheme@ == AGGREGATED_SCHEME_NAME@,
            entry_views == entries@.map_values(|e: KeyEntry| e@),
            0 <= i <= entries@.len(),
            pks@.len() == i,
            forall|j: int| 0 <= j < i ==> {
                &&& (#[trigger] entry_views[j]).metadata.scheme == BLS::spec_name()
                &&& hex_text_valid(entry_views[j].public_key)
                &&& bls_pk_parses(hex_bytes(entry_views[j].public_key))
            },
            forall|j: int| 0 <= j < i ==> (#[trigger] pks@[j])@ == hex_bytes(
                entry_views[j].public_key,
            ),
        decreases entries@.len() - i,
    {
        let entry = &entries[i];
        if !scheme_matches(&entry.metadata.scheme, BLS::name()) {
            proof {
                assert(entry_views[i as int].metadata.scheme != BLS::spec_name());
                assert(!entry_schemes_bls(entry_views));
                assert(!entries_all_bls_keys(entry_views));
            }
            return Err(
                StorageError::Signature(
                    SignatureError::SchemeMismatch("signer key is not a pairing key".to_owned()),
                ),
            );
        }
        let pk_bytes = match hex_decode(entry.public_key.as_str()) {
            Some(v) => v,
            None => {
                proof {
                    assert(!hex_text_valid(entry_views[i as int].public_key));
                    assert(!entry_pks_hex_valid(entry_views));
                    assert(!entries_all_bls_keys(entry_views));
                }
                return Err(StorageError::InvalidFormat);
            },
        };
        let pk = match BLS::deserialize_public_key(pk_bytes.as_slice()) {
            Ok(k) => k,
            Err(e) => {
                proof {
                    assert(!bls_pk_parses(hex_bytes(entry_views[i as int].public_key)));
                    assert(hex_text_valid(entry_views[i as int].public_key));
                    assert(!entry_pks_parse(entry_views));
                    assert(!entries_all_bls_keys(entry_views));
                }
                return Err(StorageError::Signature(e));
            },
        };
        pks.push(pk);
        i = i + 1;
    }
    proof {
        assert(pk_views(pks@) =~= entry_pk_views(entry_views));
    }
    verify_aggregate(&pks, message, signature_scheme, signature_bytes)
}

/// Structural scheme isolation: no byte string deserializes as a signature
/// under both schemes, because a DER ECDSA signature is at most 73 bytes
/// while a compressed BLS signature is 96.
pub fn deserialize_signature_under_both_schemes(bytes: &[u8]) -> (r: (
    Result<crate::crypto::ecdsa::ECDSASignature, SignatureError>,
    Result<BLSSignature, SignatureError>,
))
    ensures
        !(r.0 is Ok && r.1 is Ok),
{
    (ECDSA::deserialize_signature(bytes), BLS::deserialize_signature(bytes))
}

} // verus!
