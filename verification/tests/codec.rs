use aegis_sealer::{AegisAncient, AegisError};

const MAGIC: [u8; 6] = [0x41, 0x45, 0x47, 0x49, 0x53, 0x31];

fn block(data: &[u8]) -> Vec<u8> {
    let mut out = (data.len() as u64).to_be_bytes().to_vec();
    out.extend_from_slice(data);
    out
}

fn stream(public_key: &[u8], metadata: &[u8], signature: &[u8], image_data: &[u8]) -> Vec<u8> {
    let mut out = MAGIC.to_vec();
    out.extend_from_slice(&block(public_key));
    out.extend_from_slice(&block(metadata));
    out.extend_from_slice(&block(signature));
    out.extend_from_slice(&block(image_data));
    out
}

#[test]
fn write_produces_exact_bytes() {
    let container = AegisAncient {
        public_key: vec![0xaa],
        metadata: "ab".to_string(),
        signature: vec![0xbb, 0xcc],
        image_data: Vec::new(),
    };
    let bytes = container.write();
    let expected = stream(&[0xaa], b"ab", &[0xbb, 0xcc], &[]);
    assert_eq!(bytes, expected);
}

#[test]
fn handmade_stream_round_trips() {
    let bytes = stream(&[1, 2, 3], "héllo".as_bytes(), &[4; 64], &[0xff, 0x00]);
    let parsed = AegisAncient::read(&bytes).unwrap();
    assert_eq!(parsed.public_key, vec![1, 2, 3]);
    assert_eq!(parsed.metadata, "héllo");
    assert_eq!(parsed.signature, vec![4; 64]);
    assert_eq!(parsed.image_data, vec![0xff, 0x00]);
    assert_eq!(parsed.write(), bytes);
}

#[test]
fn wrong_magic_is_rejected() {
    let mut bytes = stream(&[1], b"m", &[2], &[3]);
    bytes[0..6].copy_from_slice(b"BOGUS1");
    assert_eq!(AegisAncient::read(&bytes).unwrap_err(), AegisError::InvalidFormat);
}

#[test]
fn short_magic_is_rejected() {
    assert_eq!(AegisAncient::read(b"AEGI").unwrap_err(), AegisError::InvalidFormat);
}

#[test]
fn oversized_declared_length_is_rejected() {
    // The declared length is over the 1_000_000_000-byte ceiling; the read
    // path must fail before trying to take (or allocate) that many bytes.
    let mut bytes = MAGIC.to_vec();
    bytes.extend_from_slice(&1_000_000_001u64.to_be_bytes());
    assert_eq!(AegisAncient::read(&bytes).unwrap_err(), AegisError::InvalidFormat);

    let mut huge = MAGIC.to_vec();
    huge.extend_from_slice(&u64::MAX.to_be_bytes());
    assert_eq!(AegisAncient::read(&huge).unwrap_err(), AegisError::InvalidFormat);
}

#[test]
fn length_at_ceiling_with_truncated_data_is_rejected() {
    let mut bytes = MAGIC.to_vec();
    bytes.extend_from_slice(&1_000_000_000u64.to_be_bytes());
    bytes.push(0x00);
    assert_eq!(AegisAncient::read(&bytes).unwrap_err(), AegisError::InvalidFormat);
}

#[test]
fn truncated_block_is_rejected() {
    let mut bytes = MAGIC.to_vec();
    bytes.extend_from_slice(&5u64.to_be_bytes());
    bytes.extend_from_slice(&[1, 2, 3]);
    assert_eq!(AegisAncient::read(&bytes).unwrap_err(), AegisError::InvalidFormat);
}

#[test]
fn missing_trailing_blocks_are_rejected() {
    // Magic and public-key block only: the metadata, signature and image
    // blocks are absent.
    let mut bytes = MAGIC.to_vec();
    bytes.extend_from_slice(&block(&[1, 2]));
    assert_eq!(AegisAncient::read(&bytes).unwrap_err(), AegisError::InvalidFormat);
}

#[test]
fn invalid_utf8_metadata_is_rejected() {
    // 0x80 is a lone continuation byte, never valid UTF-8.
    let bytes = stream(&[1], &[0x80], &[2], &[3]);
    assert_eq!(AegisAncient::read(&bytes).unwrap_err(), AegisError::InvalidFormat);
}

#[test]
fn trailing_bytes_after_last_block_are_ignored() {
    let mut bytes = stream(&[1], b"m", &[2], &[3]);
    bytes.extend_from_slice(&[0xde, 0xad]);
    let parsed = AegisAncient::read(&bytes).unwrap();
    assert_eq!(parsed.image_data, vec![3]);
}

#[test]
fn empty_blocks_round_trip() {
    let bytes = stream(&[], &[], &[], &[]);
    let parsed = AegisAncient::read(&bytes).unwrap();
    assert_eq!(parsed.public_key, Vec::<u8>::new());
    assert_eq!(parsed.metadata, "");
    assert_eq!(parsed.signature, Vec::<u8>::new());
    assert_eq!(parsed.image_data, Vec::<u8>::new());
    assert_eq!(parsed.write(), bytes);
}
