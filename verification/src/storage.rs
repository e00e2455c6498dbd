//! The key store and the signature records.
//!
//! A `KeyStore` holds one record per key name: the scheme identifier, a
//! creation timestamp, and the key material as hex text.  The store itself
//! is the in-memory state; callers persist it one record per name under the
//! paths `key_path` computes.  Concurrent writers to the same name are not
//! coordinated; that is an accepted limitation of a local single-user tool.
use crate::crypto::scheme::{SignatureError, SignatureScheme};
use crate::hexstr::{hex_bytes, hex_decode, hex_encode, hex_of, hex_text_valid};
use vstd::pervasive::VecAdditionalExecFns;
use vstd::prelude::*;
use vstd::string::StringExecFns;

verus! {

/// Errors raised by the key store and the record codecs.
#[derive(Debug, PartialEq, Eq)]
pub enum StorageError {
    Signature(SignatureError),
    KeyNotFound(String),
    CorruptRecord(String),
    InvalidFormat,
}

impl Clone for StorageError {
    fn clone(&self) -> (r: Self)
        ensures
            r == *self,
    {
        match self {
            StorageError::Signature(e) => StorageError::Signature(e.clone()),
            StorageError::KeyNotFound(s) => StorageError::KeyNotFound(s.clone()),
            StorageError::CorruptRecord(s) => StorageError::CorruptRecord(s.clone()),
            StorageError::InvalidFormat => StorageError::InvalidFormat,
        }
    }
}

/// The metadata of one stored key pair.
#[derive(Debug, PartialEq, Eq)]
pub struct KeyMetadata {
    pub scheme: String,
    pub created_at: u64,
    pub name: String,
}

/// One stored key pair: metadata plus the key material as hex text.
#[derive(Debug, PartialEq, Eq)]
pub struct KeyEntry {
    pub metadata: KeyMetadata,
    pub private_key: String,
    pub public_key: String,
}

/// The mathematical value of a `KeyMetadata`.
pub struct KeyMetadataView {
    pub scheme: Seq<char>,
    pub created_at: u64,
    pub name: Seq<char>,
}

/// The mathematical value of a `KeyEntry`.
pub struct KeyEntryView {
    pub metadata: KeyMetadataView,
    pub private_key: Seq<char>,
    pub public_key: Seq<char>,
}

impl View for KeyMetadata {
    type V = KeyMetadataView;

    open spec fn view(&self) -> KeyMetadataView {
        KeyMetadataView {
            scheme: self.scheme@,
            created_at: self.created_at,
            name: self.name@,
        }
    }
}

impl View for KeyEntry {
    type V = KeyEntryView;

    open spec fn view(&self) -> KeyEntryView {
        KeyEntryView {
            metadata: self.metadata@,
            private_key: self.private_key@,
            public_key: self.public_key@,
        }
    }
}

impl Clone for KeyMetadata {
    fn clone(&self) -> (r: Self)
        ensures
            r@ == self@,
    {
        KeyMetadata {
            scheme: self.scheme.clone(),
            created_at: self.created_at,
            name: self.name.clone(),
        }
    }
}

impl Clone for KeyEntry {
    fn clone(&self) -> (r: Self)
        ensures
            r@ == self@,
    {
        KeyEntry {
            metadata: self.metadata.clone(),
            private_key: self.private_key.clone(),
            public_key: self.public_key.clone(),
        }
    }
}

/// The first record carrying this name, if any.
pub open spec fn spec_find(entries: Seq<KeyEntryView>, name: Seq<char>) -> Option<KeyEntryView>
    decreases entries.len(),
{
    if entries.len() == 0 {
        None
    } else if entries[0].metadata.name == name {
        Some(entries[0])
    } else {
        spec_find(entries.skip(1), name)
    }
}

/// Skipping records that do not carry the name leaves the lookup unchanged.
proof fn lemma_find_skip(entries: Seq<KeyEntryView>, name: Seq<char>, i: int)
    requires
        0 <= i <= entries.len(),
        forall|j: int| 0 <= j < i ==> entries[j].metadata.name != name,
    ensures
        spec_find(entries, name) == spec_find(entries.skip(i), name),
    decreases i,
{
    if i == 0 {
        assert(entries.skip(0) =~= entries);
    } else {
        assert(entries[0].metadata.name != name);
        assert(forall|j: int| 0 <= j < i - 1 ==> entries.skip(1)[j] == entries[j + 1]);
        lemma_find_skip(entries.skip(1), name, i - 1);
        assert(spec_find(entries, name) == spec_find(entries.skip(1), name));
        assert(entries.skip(1).skip(i - 1) =~= entries.skip(i));
    }
}

/// Replacing the first record carrying a name changes exactly that name's
/// lookup.
proof fn lemma_find_update(entries: Seq<KeyEntryView>, i: int, e: KeyEntryView, m: Seq<char>)
    requires
        0 <= i < entries.len(),
        entries[i].metadata.name == e.metadata.name,
        forall|j: int| 0 <= j < i ==> entries[j].metadata.name != e.metadata.name,
    ensures
        spec_find(entries.update(i, e), m) == if m == e.metadata.name {
            Some(e)
        } else {
            spec_find(entries, m)
        },
    decreases entries.len(),
{
    let t = entries.update(i, e);
    if i == 0 {
        assert(t[0] == e);
        assert(t.skip(1) =~= entries.skip(1));
    } else {
        assert(t[0] == entries[0]);
        lemma_find_update(entries.skip(1), i - 1, e, m);
        assert(entries.skip(1).update(i - 1, e) =~= t.skip(1));
    }
}

/// Appending a record under a fresh name changes exactly that name's
/// lookup.
proof fn lemma_find_push(entries: Seq<KeyEntryView>, e: KeyEntryView, m: Seq<char>)
    requires
        forall|j: int| 0 <= j < entries.len() ==> entries[j].metadata.name != e.metadata.name,
    ensures
        spec_find(entries.push(e), m) == if m == e.metadata.name {
            Some(e)
        } else {
            spec_find(entries, m)
        },
    decreases entries.len(),
{
    let t = entries.push(e);
    if entries.len() == 0 {
        assert(t[0] == e);
        if m == e.metadata.name {
            assert(spec_find(t, m) == Some(e));
        } else {
            assert(t.skip(1) =~= Seq::<KeyEntryView>::empty());
            assert(spec_find(t, m) == None::<KeyEntryView>);
        }
    } else {
        assert(t[0] == entries[0]);
        assert(entries[0].metadata.name != e.metadata.name);
        lemma_find_push(entries.skip(1), e, m);
        assert(entries.skip(1).push(e) =~= t.skip(1));
        if entries[0].metadata.name == m {
            assert(spec_find(t, m) == Some(entries[0]));
            assert(spec_find(entries, m) == Some(entries[0]));
        } else {
            assert(spec_find(t, m) == spec_find(t.skip(1), m));
            assert(spec_find(entries, m) == spec_find(entries.skip(1), m));
        }
    }
}

/// The record a save operation writes for a key pair.
pub open spec fn saved_key_entry_view<S: SignatureScheme>(
    name: Seq<char>,
    created_at: u64,
    sk: Seq<u8>,
    pk: Seq<u8>,
) -> KeyEntryView {
    KeyEntryView {
        metadata: KeyMetadataView { scheme: S::spec_name(), created_at, name },
        private_key: hex_of(sk),
        public_key: hex_of(pk),
    }
}

/// Store integrity, key half: the hex fields of a saved record are valid
/// hex text and decode back to exactly the key bytes that were saved, so a
/// loaded record recovers the saved keys.
pub proof fn lemma_saved_entry_recovers_keys<S: SignatureScheme>(
    name: Seq<char>,
    created_at: u64,
    sk: Seq<u8>,
    pk: Seq<u8>,
)
    ensures
        hex_text_valid(saved_key_entry_view::<S>(name, created_at, sk, pk).private_key),
        hex_bytes(saved_key_entry_view::<S>(name, created_at, sk, pk).private_key) == sk,
        hex_text_valid(saved_key_entry_view::<S>(name, created_at, sk, pk).public_key),
        hex_bytes(saved_key_entry_view::<S>(name, created_at, sk, pk).public_key) == pk,
{
    crate::hexstr::lemma_hex_round_trip(sk);
    crate::hexstr::lemma_hex_round_trip(pk);
}

/// Build the record persisting a key pair: the scheme identifier, the
/// caller's clock reading, and both keys serialized and hex-encoded.
pub fn build_key_entry<S: SignatureScheme>(
    name: &str,
    private_key: &S::PrivateKey,
    public_key: &S::PublicKey,
    created_at: u64,
) -> (r: Result<KeyEntry, SignatureError>)
    ensures
        r matches Ok(e) && e@ == saved_key_entry_view::<S>(
            name@,
            created_at,
            private_key@,
            public_key@,
        ),
{
    let sk_bytes = match S::serialize_private_key(private_key) {
        Ok(v) => v,
        Err(e) => return Err(e),
    };
    let pk_bytes = match S::serialize_public_key(public_key) {
        Ok(v) => v,
        Err(e) => return Err(e),
    };
    Ok(
        KeyEntry {
            metadata: KeyMetadata {
                scheme: S::name().to_owned(),
                created_at,
                name: name.to_owned(),
            },
            private_key: hex_encode(sk_bytes.as_slice()),
            public_key: hex_encode(pk_bytes.as_slice()),
        },
    )
}

/// A record is well formed when both key fields are hex text.
pub fn check_key_entry(entry: &KeyEntry) -> (r: Result<(), StorageError>)
    ensures
        (r is Ok) == (hex_text_valid(entry@.private_key) && hex_text_valid(entry@.public_key)),
        r matches Err(e) ==> e is CorruptRecord,
{
    if hex_decode(entry.private_key.as_str()).is_none() {
        return Err(StorageError::CorruptRecord("private key is not hex text".to_owned()));
    }
    if hex_decode(entry.public_key.as_str()).is_none() {
        return Err(StorageError::CorruptRecord("public key is not hex text".to_owned()));
    }
    Ok(())
}

/// The key store: named key records, constructed over an explicit storage
/// location so callers can point it anywhere.
pub struct KeyStore {
    storage_dir: String,
    entries: Vec<KeyEntry>,
}

impl View for KeyStore {
    type V = Seq<KeyEntryView>;

    closed spec fn view(&self) -> Seq<KeyEntryView> {
        Seq::new(self.entries@.len(), |i: int| self.entries@[i]@)
    }
}

impl KeyStore {
    /// The storage location this store was constructed over.
    pub closed spec fn dir(&self) -> Seq<char> {
        self.storage_dir@
    }

    /// An empty store over the given storage location.
    pub fn new(storage_dir: String) -> (r: Self)
        ensures
            r@ == Seq::<KeyEntryView>::empty(),
            r.dir() == storage_dir@,
    {
        let store = KeyStore { storage_dir, entries: Vec::new() };
        proof {
            assert(store@ =~= Seq::<KeyEntryView>::empty());
        }
        store
    }

    /// The path persisting the record of one key name: one file per name,
    /// `<dir>/<name>.json`.
    pub fn key_path(&self, name: &str) -> (r: String)
        ensures
            r@ == self.dir() + "/"@ + name@ + ".json"@,
    {
        let mut path = self.storage_dir.clone();
        path.append("/");
        path.append(name);
        path.append(".json");
        path
    }

    /// Save a key pair under a name: the record becomes what lookup under
    /// that name returns, every other name is untouched.  A record already
    /// carrying the name is overwritten; that is this store's explicit
    /// policy, matching a tool that regenerates keys in place.
    pub fn save_keypair<S: SignatureScheme>(
        &mut self,
        name: &str,
        private_key: &S::PrivateKey,
        public_key: &S::PublicKey,
        created_at: u64,
    ) -> (r: Result<(), SignatureError>)
        ensures
            r is Ok,
            spec_find(final(self)@, name@) == Some(
                saved_key_entry_view::<S>(name@, created_at, private_key@, public_key@),
            ),
            forall|m: Seq<char>| m != name@ ==> spec_find(final(self)@, m) == spec_find(
                old(self)@,
                m,
            ),
            final(self).dir() == old(self).dir(),
    {
        let entry = match build_key_entry::<S>(name, private_key, public_key, created_at) {
            Ok(e) => e,
            Err(e) => return Err(e),
        };
        let key_name = name.to_owned();
        let ghost entry_view = entry@;
        let mut i: usize = 0;
        while i < self.entries.len()
            invariant
                self == old(self),
                0 <= i <= self.entries@.len(),
                forall|j: int| 0 <= j < i ==> self@[j].metadata.name != name@,
                entry@ == entry_view,
                entry_view == saved_key_entry_view::<S>(
                    name@,
                    created_at,
                    private_key@,
                    public_key@,
                ),
                key_name@ == name@,
            decreases self.entries@.len() - i,
        {
            if self.entries[i].metadata.name == key_name {
                proof {
                    assert(self@[i as int] == self.entries@[i as int]@);
                    assert(entry_view.metadata.name == name@);
                    lemma_find_update(self@, i as int, entry_view, name@);
                    assert forall|m: Seq<char>| true implies spec_find(
                        self@.update(i as int, entry_view),
                        m,
                    ) == if m == name@ {
                        Some(entry_view)
                    } else {
                        spec_find(self@, m)
                    } by {
                        lemma_find_update(self@, i as int, entry_view, m);
                    }
                }
                let ghost pre = self@;
                self.entries.set(i, entry);
                proof {
                    assert(self@ =~= pre.update(i as int, entry_view));
                }
                return Ok(());
            }
            i = i + 1;
        }
        proof {
            assert forall|m: Seq<char>| true implies spec_find(self@.push(entry_view), m) == if m
                == name@ {
                Some(entry_view)
            } else {
                spec_find(self@, m)
            } by {
                lemma_find_push(self@, entry_view, m);
            }
        }
        let ghost pre = self@;
        self.entries.push(entry);
        proof {
            assert(self@ =~= pre.push(entry_view));
        }
        Ok(())
    }

    /// Look a record up by name: exactly the saved record when the name is
    /// present, `KeyNotFound` when it is not.
    pub fn load_key_entry(&self, name: &str) -> (r: Result<KeyEntry, StorageError>)
        ensures
            match spec_find(self@, name@) {
                Some(e) => r matches Ok(v) && v@ == e,
                None => r matches Err(err) && err is KeyNotFound,
            },
    {
        let key_name = name.to_owned();
        let mut i: usize = 0;
        while i < self.entries.len()
            invariant
                0 <= i <= self.entries@.len(),
                forall|j: int| 0 <= j < i ==> self@[j].metadata.name != name@,
                key_name@ == name@,
            decreases self.entries@.len() - i,
        {
            if self.entries[i].metadata.name == key_name {
                proof {
                    lemma_find_skip(self@, name@, i as int);
                    assert(self@.skip(i as int)[0] == self@[i as int]);
                }
                return Ok(self.entries[i].clone());
            }
            i = i + 1;
        }
        proof {
            lemma_find_skip(self@, name@, self@.len() as int);
        }
        Err(StorageError::KeyNotFound(key_name))
    }

    /// The metadata of every record, in store order.
    pub fn list_keys(&self) -> (r: Result<Vec<KeyMetadata>, StorageError>)
        ensures
            r matches Ok(v) && v@.len() == self@.len() && (forall|i: int|
                0 <= i < self@.len() ==> v@[i]@ == self@[i].metadata),
    {
        let mut out: Vec<KeyMetadata> = Vec::new();
        let mut i: usize = 0;
        while i < self.entries.len()
            invariant
                0 <= i <= self.entries@.len(),
                out@.len() == i,
                forall|j: int| 0 <= j < i ==> out@[j]@ == self@[j].metadata,
            decreases self.entries@.len() - i,
        {
            out.push(self.entries[i].metadata.clone());
            i = i + 1;
        }
        Ok(out)
    }
}

/// One persisted signature: the scheme identifier binding it, the signature
/// bytes as hex text, and a creation timestamp.
#[derive(Debug, PartialEq, Eq)]
pub struct SignatureRecord {
    pub scheme: String,
    pub signature: String,
    pub timestamp: u64,
}

/// The mathematical value of a `SignatureRecord`.
pub struct SignatureRecordView {
    pub scheme: Seq<char>,
    pub signature: Seq<char>,
    pub timestamp: u64,
}

impl View for SignatureRecord {
    type V = SignatureRecordView;

    open spec fn view(&self) -> SignatureRecordView {
        SignatureRecordView {
            scheme: self.scheme@,
            signature: self.signature@,
            timestamp: self.timestamp,
        }
    }
}

impl Clone for SignatureRecord {
    fn clone(&self) -> (r: Self)
        ensures
            r@ == self@,
    {
        SignatureRecord {
            scheme: self.scheme.clone(),
            signature: self.signature.clone(),
            timestamp: self.timestamp,
        }
    }
}

/// The record persisting a signature: the scheme identifier, the bytes as
/// hex text, and the caller's clock reading.
pub fn make_signature_record(scheme_name: &str, signature: &[u8], timestamp: u64) -> (r:
    SignatureRecord)
    ensures
        r@.scheme == scheme_name@,
        r@.signature == hex_of(signature@),
        r@.timestamp == timestamp,
{
    SignatureRecord {
        scheme: scheme_name.to_owned(),
        signature: hex_encode(signature),
        timestamp,
    }
}

/// The inverse of `make_signature_record`: the scheme identifier and the
/// decoded signature bytes, or `InvalidFormat` when the signature field is
/// not hex text.
pub fn parse_signature_record(record: &SignatureRecord) -> (r: Result<
    (String, Vec<u8>),
    StorageError,
>)
    ensures
        hex_text_valid(record@.signature) ==> (r matches Ok(p) && p.0@ == record@.scheme && p.1@
            == hex_bytes(record@.signature)),
        !hex_text_valid(record@.signature) ==> (r matches Err(e) && e is InvalidFormat),
{
    match hex_decode(record.signature.as_str()) {
        Some(bytes) => Ok((record.scheme.clone(), bytes)),
        None => Err(StorageError::InvalidFormat),
    }
}

} // verus!
