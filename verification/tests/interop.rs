use aegis_sealer::{seal, verify, AegisAncient};
use p256::ecdsa::signature::{Signer, Verifier};
use p256::ecdsa::{Signature, SigningKey, VerifyingKey};
use sha2::{Digest, Sha256};

// Cross-checks between the library and direct use of the same crypto
// crates: a container sealed by the library must check out under
// independently recomputed digests and keys, and the other way round.

#[test]
fn sealed_container_verifies_under_independent_crypto() {
    let key = vec![0x01u8; 32];
    let container = seal("hello".to_string(), vec![1, 2, 3], &key).unwrap();

    let signing_key = SigningKey::from_slice(&key).unwrap();
    let expected_pk = signing_key.verifying_key().to_sec1_point(true);
    assert_eq!(container.public_key.as_slice(), expected_pk.as_bytes());

    let mut hasher = Sha256::new();
    hasher.update("hello".as_bytes());
    hasher.update(&[1u8, 2, 3]);
    let digest = hasher.finalize();

    let verifying_key = VerifyingKey::from_sec1_bytes(&container.public_key).unwrap();
    let signature = Signature::from_slice(&container.signature).unwrap();
    assert!(verifying_key.verify(digest.as_slice(), &signature).is_ok());
}

#[test]
fn independently_sealed_container_verifies_under_library() {
    let key = vec![0x02u8; 32];
    let signing_key = SigningKey::from_slice(&key).unwrap();

    let mut hasher = Sha256::new();
    hasher.update(b"meta");
    hasher.update(&[7u8, 8, 9]);
    let digest = hasher.finalize();
    let signature: Signature = signing_key.sign(digest.as_slice());

    let container = AegisAncient {
        public_key: signing_key.verifying_key().to_sec1_point(true).as_bytes().to_vec(),
        metadata: "meta".to_string(),
        signature: signature.to_bytes().as_slice().to_vec(),
        image_data: vec![7, 8, 9],
    };
    assert!(verify(&container));
}

#[test]
fn digest_covers_metadata_and_payload_without_delimiter() {
    // The digest is SHA-256 over metadata bytes directly followed by the
    // payload, so a signature over that one concatenation also verifies a
    // container that splits the same bytes differently.
    let key = vec![0x03u8; 32];
    let c1 = seal("ab".to_string(), vec![b'c'], &key).unwrap();
    let c2 = AegisAncient {
        public_key: c1.public_key.clone(),
        metadata: "a".to_string(),
        signature: c1.signature.clone(),
        image_data: vec![b'b', b'c'],
    };
    assert!(verify(&c1));
    assert!(verify(&c2));
}
