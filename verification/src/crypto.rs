//! The signature schemes: the shared interface, and one adapter per scheme.
pub mod bls;
pub mod ecdsa;
pub mod scheme;

pub use bls::BLS;
pub use ecdsa::ECDSA;
pub use scheme::SignatureError;
pub use scheme::SignatureScheme;
