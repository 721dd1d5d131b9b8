use crate::error::AegisError;
use crate::format::AegisAncient;
use p256::ecdsa::signature::{Signer, Verifier};
use p256::ecdsa::{Signature, SigningKey, VerifyingKey};
use sha2::{Digest, Sha256};
use vstd::prelude::*;
use vstd::utf8::encode_utf8;

verus! {

/// The SHA-256 digest of a byte string.
pub uninterp spec fn sha256_of(data: Seq<u8>) -> Seq<u8>;

/// Whether a byte string is a valid P-256 secret signing key.
pub uninterp spec fn p256_valid_secret(secret: Seq<u8>) -> bool;

/// The compressed SEC1 encoding of the public key that belongs to a
/// P-256 secret key.
pub uninterp spec fn p256_public_key_of(secret: Seq<u8>) -> Seq<u8>;

/// Whether an ECDSA P-256 signature checks out against a SEC1-encoded
/// public key and a message.
pub uninterp spec fn p256_verify_ok(public_key: Seq<u8>, message: Seq<u8>, signature: Seq<u8>) -> bool;

/// The digest a container's signature covers: SHA-256 over the UTF-8
/// bytes of the metadata followed directly by the payload bytes, with no
/// delimiter between the two.
pub open spec fn container_digest(c: AegisAncient) -> Seq<u8> {
    sha256_of(encode_utf8(c.metadata@) + c.image_data@)
}

/// A container whose signature checks out against its own public key
/// over its own recomputed digest. Every container `seal` returns is of
/// this kind, and it is exactly what `verify` decides.
pub open spec fn sealed_ok(c: AegisAncient) -> bool {
    p256_verify_ok(c.public_key@, container_digest(c), c.signature@)
}

/// Relies on sha2::Sha256 (Digest::digest): the digest is a pure
/// function of the input bytes and is 32 bytes long.
#[verifier::external_body]
fn sha256(data: &[u8]) -> (r: Vec<u8>)
    ensures
        r@ == sha256_of(data@),
        r@.len() == 32,
{
    Sha256::digest(data).to_vec()
}

/// Relies on p256::ecdsa::SigningKey::from_slice and
/// VerifyingKey::to_sec1_point: a secret parses exactly when it encodes
/// a valid P-256 scalar, and the compressed SEC1 public key derived from
/// it is a pure function of the secret bytes, 33 bytes long and tagged
/// with the compressed-point lead byte 0x02 or 0x03.
#[verifier::external_body]
fn p256_public_key(secret: &[u8]) -> (r: Option<Vec<u8>>)
    ensures
        r is Some <==> p256_valid_secret(secret@),
        r matches Some(pk) ==> pk@ == p256_public_key_of(secret@) && pk@.len() == 33 && (pk@[0]
            == 0x02 || pk@[0] == 0x03),
{
    match SigningKey::from_slice(secret) {
        Ok(key) => Some(key.verifying_key().to_sec1_point(true).as_bytes().to_vec()),
        Err(_) => None,
    }
}

/// Relies on p256::ecdsa::SigningKey::from_slice and Signer::try_sign:
/// signing succeeds exactly on a valid secret (the RFC6979 deterministic
/// path never fails once the key has parsed), and a signature it
/// produces is 64 bytes of raw form and verifies, under the checker
/// below, against the public key derived from the same secret and the
/// signed message.
#[verifier::external_body]
fn p256_sign(secret: &[u8], message: &[u8]) -> (r: Option<Vec<u8>>)
    ensures
        r is Some <==> p256_valid_secret(secret@),
        r matches Some(sig) ==> {
            &&& sig@.len() == 64
            &&& p256_verify_ok(p256_public_key_of(secret@), message@, sig@)
        },
{
    let key = match SigningKey::from_slice(secret) {
        Ok(key) => key,
        Err(_) => {
            return None;
        },
    };
    let signature: Signature = match key.try_sign(message) {
        Ok(sig) => sig,
        Err(_) => {
            return None;
        },
    };
    Some(signature.to_bytes().to_vec())
}

/// Relies on p256::ecdsa::VerifyingKey::from_sec1_bytes,
/// Signature::from_slice and Verifier::verify: whether a signature
/// checks out is a pure function of the key, message and signature
/// bytes; a key or signature that does not parse never verifies.
#[verifier::external_body]
fn p256_check(public_key: &[u8], message: &[u8], signature: &[u8]) -> (r: bool)
    ensures
        r == p256_verify_ok(public_key@, message@, signature@),
{
    let key = match VerifyingKey::from_sec1_bytes(public_key) {
        Ok(key) => key,
        Err(_) => {
            return false;
        },
    };
    let sig = match Signature::from_slice(signature) {
        Ok(sig) => sig,
        Err(_) => {
            return false;
        },
    };
    key.verify(message, &sig).is_ok()
}

/// The exact byte string whose digest is signed: the metadata's UTF-8
/// bytes followed directly by the payload, no delimiter.
fn digest_input(metadata: &str, image_data: &[u8]) -> (r: Vec<u8>)
    ensures
        r@ == encode_utf8(metadata@) + image_data@,
{
    let mut out: Vec<u8> = Vec::new();
    let meta_bytes: &[u8] = metadata.as_bytes();
    let mut i: usize = 0;
    while i < meta_bytes.len()
        invariant
            i <= meta_bytes@.len(),
            out@ == meta_bytes@.subrange(0, i as int),
        decreases meta_bytes@.len() - i,
    {
        out.push(meta_bytes[i]);
        assert(out@ =~= meta_bytes@.subrange(0, i + 1));
        i += 1;
    }
    assert(out@ =~= meta_bytes@);
    let ghost prefix = out@;
    let mut j: usize = 0;
    while j < image_data.len()
        invariant
            j <= image_data@.len(),
            out@ == prefix + image_data@.subrange(0, j as int),
        decreases image_data@.len() - j,
    {
        out.push(image_data[j]);
        assert(out@ =~= prefix + image_data@.subrange(0, j + 1));
        j += 1;
    }
    assert(out@ =~= encode_utf8(metadata@) + image_data@);
    out
}

/// Seals metadata and payload under a P-256 secret key: derives the
/// public key, signs the SHA-256 digest of the metadata's UTF-8 bytes
/// followed directly by the payload, and returns the assembled
/// container. Succeeds exactly when the secret is a valid key, and then
/// carries the inputs byte-identically; fails, with `Crypto`, exactly on
/// an invalid secret. It never returns a partial or unverifiable
/// container.
pub fn seal(metadata: String, image_data: Vec<u8>, private_key: &[u8]) -> (r: Result<
    AegisAncient,
    AegisError,
>)
    ensures
        r is Ok <==> p256_valid_secret(private_key@),
        r matches Err(e) ==> e == AegisError::Crypto,
        r matches Ok(c) ==> {
            &&& c.metadata@ == metadata@
            &&& c.image_data@ == image_data@
            &&& c.public_key@ == p256_public_key_of(private_key@)
            &&& c.public_key@.len() == 33
            &&& (c.public_key@[0] == 0x02 || c.public_key@[0] == 0x03)
            &&& c.signature@.len() == 64
            &&& sealed_ok(c)
        },
{
    let public_key = match p256_public_key(private_key) {
        Some(pk) => pk,
        None => {
            return Err(AegisError::Crypto);
        },
    };
    let input = digest_input(metadata.as_str(), image_data.as_slice());
    let digest = sha256(input.as_slice());
    let signature = match p256_sign(private_key, digest.as_slice()) {
        Some(sig) => sig,
        None => {
            return Err(AegisError::Crypto);
        },
    };
    Ok(AegisAncient { public_key, metadata, signature, image_data })
}

/// Recomputes the container's digest from its own metadata and payload
/// and checks the container's signature against its own embedded public
/// key: returns exactly whether the container is sealed soundly.
pub fn verify(container: &AegisAncient) -> (r: bool)
    ensures
        r == sealed_ok(*container),
{
    let input = digest_input(container.metadata.as_str(), container.image_data.as_slice());
    let digest = sha256(input.as_slice());
    p256_check(
        container.public_key.as_slice(),
        digest.as_slice(),
        container.signature.as_slice(),
    )
}

/// Law: the digest is deterministic. Two containers carrying the same
/// metadata and payload have the same digest, so whenever each one's
/// signature verifies, both verify against that single digest, whether
/// or not the two signatures are byte-identical.
pub proof fn lemma_digest_deterministic(c1: AegisAncient, c2: AegisAncient)
    requires
        c1.metadata@ == c2.metadata@,
        c1.image_data@ == c2.image_data@,
    ensures
        container_digest(c1) == container_digest(c2),
        sealed_ok(c1) && sealed_ok(c2) ==> p256_verify_ok(
            c1.public_key@,
            container_digest(c1),
            c1.signature@,
        ) && p256_verify_ok(c2.public_key@, container_digest(c1), c2.signature@),
{
}

} // verus!
