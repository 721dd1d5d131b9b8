//! Sealing and verification of signed binary containers.
//!
//! A container binds an opaque payload and a short UTF-8 metadata string
//! together with an ECDSA P-256 signature over the SHA-256 digest of the
//! two, and travels as a magic-prefixed sequence of length-prefixed blocks.
//!
//! [`crypto::seal`] builds a container from metadata, payload and a secret
//! key; [`format::AegisAncient::write`] and [`format::AegisAncient::read`]
//! are the byte-level codec; [`crypto::verify`] re-checks a container's
//! signature against its own embedded public key.

pub mod crypto;
pub mod error;
pub mod format;

pub use crypto::seal;
pub use crypto::verify;
pub use error::AegisError;
pub use format::AegisAncient;
