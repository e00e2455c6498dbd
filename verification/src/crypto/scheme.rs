//! The uniform contract every signature scheme satisfies, so that calling
//! code never depends on which scheme is active except by explicit
//! identifier dispatch.
use vstd::prelude::*;

verus! {

/// Errors raised by the signature schemes and the operations built on them.
/// Each carries enough context to diagnose the failed operation.
#[derive(Debug, PartialEq, Eq)]
pub enum SignatureError {
    KeyGeneration(String),
    Signing(String),
    Verification(String),
    Serialization(String),
    Deserialization(String),
    Aggregation(String),
    SchemeMismatch(String),
}

impl Clone for SignatureError {
    fn clone(&self) -> (r: Self)
        ensures
            r == *self,
    {
        match self {
            SignatureError::KeyGeneration(s) => SignatureError::KeyGeneration(s.clone()),
            SignatureError::Signing(s) => SignatureError::Signing(s.clone()),
            SignatureError::Verification(s) => SignatureError::Verification(s.clone()),
            SignatureError::Serialization(s) => SignatureError::Serialization(s.clone()),
            SignatureError::Deserialization(s) => SignatureError::Deserialization(s.clone()),
            SignatureError::Aggregation(s) => SignatureError::Aggregation(s.clone()),
            SignatureError::SchemeMismatch(s) => SignatureError::SchemeMismatch(s.clone()),
        }
    }
}

/// A complete signing algorithm bound to one algebraic structure.
///
/// Key and signature values are held by their canonical byte encodings
/// (`View` to `Seq<u8>`); well-formedness of a value means exactly that the
/// underlying curve library accepts its bytes.  The contracts pin every
/// operation down to spec-level functions of those bytes:
///
/// - serialization returns the canonical bytes unchanged, and
///   deserialization accepts exactly the well-formed byte strings, so the
///   round trip is the identity;
/// - signing is a function of the private key and the message alone, and a
///   signature so produced verifies under the matching public key;
/// - verification is total: an invalid but well-formed signature is a
///   normal `false`, never an error.
pub trait SignatureScheme: Sized {
    type PrivateKey: View<V = Seq<u8>>;

    type PublicKey: View<V = Seq<u8>>;

    type Signature: View<V = Seq<u8>>;

    /// The scheme identifier carried by every persisted key and signature.
    spec fn spec_name() -> Seq<char>;

    /// The byte strings the scheme accepts as a private key.
    spec fn sk_wf(bytes: Seq<u8>) -> bool;

    /// The byte strings the scheme accepts as a public key.
    spec fn pk_wf(bytes: Seq<u8>) -> bool;

    /// The byte strings the scheme accepts as a signature.
    spec fn sig_wf(bytes: Seq<u8>) -> bool;

    /// The public key derived from a private key, a pure function of it.
    spec fn pk_of(sk: Seq<u8>) -> Seq<u8>;

    /// The signature produced over a message with a private key.
    spec fn sig_of(sk: Seq<u8>, msg: Seq<u8>) -> Seq<u8>;

    /// Whether signing succeeds for this key and message.  Signing is a
    /// function of the two alone, so its success is too; a scheme whose
    /// signing cannot fail defines this as `true`.
    spec fn sign_ok(sk: Seq<u8>, msg: Seq<u8>) -> bool;

    /// Whether a signature is valid for a message under a public key.
    spec fn verifies(pk: Seq<u8>, msg: Seq<u8>, sig: Seq<u8>) -> bool;

    fn name() -> (r: &'static str)
        ensures
            r@ == Self::spec_name(),
    ;

    /// A fresh, independently random key pair; the public key is computed
    /// from the private key once, here.
    fn generate_keypair() -> (r: Result<(Self::PrivateKey, Self::PublicKey), SignatureError>)
        ensures
            r matches Ok(pair) ==> {
                &&& Self::sk_wf(pair.0@)
                &&& pair.1@ == Self::pk_of(pair.0@)
                &&& Self::pk_wf(pair.1@)
            },
            r matches Err(e) ==> e is KeyGeneration,
    ;

    /// Sign a message; any byte string is a valid message.  Fails only on
    /// underlying library failure.
    fn sign(private_key: &Self::PrivateKey, message: &[u8]) -> (r: Result<
        Self::Signature,
        SignatureError,
    >)
        requires
            Self::sk_wf(private_key@),
        ensures
            (r is Ok) == Self::sign_ok(private_key@, message@),
            r matches Ok(sig) ==> {
                &&& sig@ == Self::sig_of(private_key@, message@)
                &&& Self::sig_wf(sig@)
                &&& Self::verifies(Self::pk_of(private_key@), message@, sig@)
            },
            r matches Err(e) ==> e is Signing,
    ;

    /// Whether the signature is valid for exactly this message and this
    /// public key.  Invalidity is a normal `false` result, never an error.
    fn verify(public_key: &Self::PublicKey, message: &[u8], signature: &Self::Signature) -> (r:
        Result<bool, SignatureError>)
        requires
            Self::pk_wf(public_key@),
            Self::sig_wf(signature@),
        ensures
            r matches Ok(b) && b == Self::verifies(public_key@, message@, signature@),
    ;

    fn serialize_private_key(private_key: &Self::PrivateKey) -> (r: Result<
        Vec<u8>,
        SignatureError,
    >)
        ensures
            r matches Ok(v) && v@ == private_key@,
    ;

    fn serialize_public_key(public_key: &Self::PublicKey) -> (r: Result<Vec<u8>, SignatureError>)
        ensures
            r matches Ok(v) && v@ == public_key@,
    ;

    fn serialize_signature(signature: &Self::Signature) -> (r: Result<Vec<u8>, SignatureError>)
        ensures
            r matches Ok(v) && v@ == signature@,
    ;

    /// The exact inverse of `serialize_private_key`: accepts exactly the
    /// well-formed byte strings and returns the value they encode.
    fn deserialize_private_key(bytes: &[u8]) -> (r: Result<Self::PrivateKey, SignatureError>)
        ensures
            (r is Ok) == Self::sk_wf(bytes@),
            r matches Ok(k) ==> k@ == bytes@,
            r matches Err(e) ==> e is Deserialization,
    ;

    fn deserialize_public_key(bytes: &[u8]) -> (r: Result<Self::PublicKey, SignatureError>)
        ensures
            (r is Ok) == Self::pk_wf(bytes@),
            r matches Ok(k) ==> k@ == bytes@,
            r matches Err(e) ==> e is Deserialization,
    ;

    fn deserialize_signature(bytes: &[u8]) -> (r: Result<Self::Signature, SignatureError>)
        ensures
            (r is Ok) == Self::sig_wf(bytes@),
            r matches Ok(s) ==> s@ == bytes@,
            r matches Err(e) ==> e is Deserialization,
    ;
}

/// Round trip: for every scheme, deserializing a serialized private key
/// succeeds and returns a key with the same canonical bytes.
pub fn private_key_round_trips<S: SignatureScheme>(private_key: &S::PrivateKey) -> (r: Result<
    S::PrivateKey,
    SignatureError,
>)
    requires
        S::sk_wf(private_key@),
    ensures
        r matches Ok(k) && k@ == private_key@,
{
    let bytes = match S::serialize_private_key(private_key) {
        Ok(v) => v,
        Err(e) => return Err(e),
    };
    S::deserialize_private_key(bytes.as_slice())
}

/// Round trip: for every scheme, deserializing a serialized public key
/// succeeds and returns a key with the same canonical bytes.
pub fn public_key_round_trips<S: SignatureScheme>(public_key: &S::PublicKey) -> (r: Result<
    S::PublicKey,
    SignatureError,
>)
    requires
        S::pk_wf(public_key@),
    ensures
        r matches Ok(k) && k@ == public_key@,
{
    let bytes = match S::serialize_public_key(public_key) {
        Ok(v) => v,
        Err(e) => return Err(e),
    };
    S::deserialize_public_key(bytes.as_slice())
}

/// Round trip: for every scheme, deserializing a serialized signature
/// succeeds and returns a signature with the same canonical bytes.
pub fn signature_round_trips<S: SignatureScheme>(signature: &S::Signature) -> (r: Result<
    S::Signature,
    SignatureError,
>)
    requires
        S::sig_wf(signature@),
    ensures
        r matches Ok(s) && s@ == signature@,
{
    let bytes = match S::serialize_signature(signature) {
        Ok(v) => v,
        Err(e) => return Err(e),
    };
    S::deserialize_signature(bytes.as_slice())
}

/// Sign/verify correctness: for every scheme and every message, a signature
/// produced with a private key verifies under the matching public key.
/// The whole operation succeeds exactly when signing does, and whenever it
/// succeeds, verification returns `true`.
pub fn signed_message_verifies<S: SignatureScheme>(
    private_key: &S::PrivateKey,
    public_key: &S::PublicKey,
    message: &[u8],
) -> (r: Result<bool, SignatureError>)
    requires
        S::sk_wf(private_key@),
        public_key@ == S::pk_of(private_key@),
        S::pk_wf(public_key@),
    ensures
        (r is Ok) == S::sign_ok(private_key@, message@),
        r matches Ok(b) ==> b,
        r matches Err(e) ==> e is Signing,
{
    let signature = match S::sign(private_key, message) {
        Ok(s) => s,
        Err(e) => return Err(e),
    };
    S::verify(public_key, message, &signature)
}

} // verus!
