//! A key-management and digital-signature library supporting two unrelated
//! signature schemes behind one interface: a discrete-log scheme over
//! secp256k1 and a pairing-based scheme over BLS12-381 with signature
//! aggregation.  Key pairs and signature records are kept in a key store
//! keyed by name; callers persist them one record per name.
pub mod crypto;
pub mod hexstr;
pub mod ops;
pub mod storage;
