use vstd::prelude::*;

verus! {

/// Failure cases surfaced by sealing and by the container codec.
#[derive(Clone, Copy, Debug, PartialEq, Eq, Structural)]
pub enum AegisError {
    /// The signing primitive rejected the secret key or the digest.
    Crypto,
    /// A structural violation in a serialized container: bad magic, an
    /// oversized or truncated block, or metadata that is not UTF-8.
    InvalidFormat,
}

} // verus!
