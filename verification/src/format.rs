use crate::error::AegisError;
use vstd::prelude::*;
use vstd::slice::{slice_subrange, slice_to_vec};
use vstd::utf8::{
    decode_utf8, decode_utf8_encode_utf8, encode_utf8, encode_utf8_decode_utf8,
    encode_utf8_valid_utf8, valid_utf8,
};

verus! {

/// Largest number of bytes a single block may declare. The parser rejects
/// a larger declared length before allocating anything for the block.
pub const MAX_BLOCK_SIZE: u64 = 1_000_000_000;

/// The six magic bytes, ASCII "AEGIS1", that begin every serialized
/// container.
pub open spec fn spec_magic() -> Seq<u8> {
    seq![0x41u8, 0x45u8, 0x47u8, 0x49u8, 0x53u8, 0x31u8]
}

/// A sealed container: a verifying key in compressed SEC1 form, a
/// descriptive UTF-8 metadata string, a signature over the digest of
/// metadata and payload, and the opaque payload itself.
#[derive(Debug, Clone)]
pub struct AegisAncient {
    pub public_key: Vec<u8>,
    pub metadata: String,
    pub signature: Vec<u8>,
    pub image_data: Vec<u8>,
}

/// The eight big-endian bytes of a 64-bit length, most significant first.
pub open spec fn spec_u64_to_be_bytes(x: u64) -> Seq<u8> {
    seq![
        (x >> 56) as u8,
        (x >> 48) as u8,
        (x >> 40) as u8,
        (x >> 32) as u8,
        (x >> 24) as u8,
        (x >> 16) as u8,
        (x >> 8) as u8,
        x as u8,
    ]
}

/// The 64-bit value read from eight big-endian bytes.
pub open spec fn spec_u64_from_be_bytes(s: Seq<u8>) -> u64
    recommends
        s.len() == 8,
{
    (((s[0] as u64) << 56) | ((s[1] as u64) << 48) | ((s[2] as u64) << 40) | ((s[3] as u64) << 32)
        | ((s[4] as u64) << 24) | ((s[5] as u64) << 16) | ((s[6] as u64) << 8) | (s[7] as u64)) as u64
}

/// A length-prefixed block: eight big-endian length bytes, then the data,
/// with no separator or terminator.
pub open spec fn spec_block(data: Seq<u8>) -> Seq<u8> {
    spec_u64_to_be_bytes(data.len() as u64) + data
}

/// The full on-wire form of a container: the magic, then the four blocks
/// in fixed order public_key, metadata, signature, image_data.
pub open spec fn spec_serialize(c: AegisAncient) -> Seq<u8> {
    spec_magic() + spec_block(c.public_key@) + spec_block(encode_utf8(c.metadata@)) + spec_block(
        c.signature@,
    ) + spec_block(c.image_data@)
}

/// A container all of whose blocks fit under the block-size ceiling.
/// Every container the parser accepts is of this kind, and exactly these
/// round-trip through the codec.
pub open spec fn wf(c: AegisAncient) -> bool {
    &&& c.public_key@.len() <= MAX_BLOCK_SIZE
    &&& encode_utf8(c.metadata@).len() <= MAX_BLOCK_SIZE
    &&& c.signature@.len() <= MAX_BLOCK_SIZE
    &&& c.image_data@.len() <= MAX_BLOCK_SIZE
}

/// The length declared by the block starting at `pos`.
pub open spec fn block_len_at(bytes: Seq<u8>, pos: int) -> u64 {
    spec_u64_from_be_bytes(bytes.subrange(pos, pos + 8))
}

/// Whether a whole block can be taken from `bytes` at `pos`: the length
/// prefix is present, under the ceiling, and fully covered by the input.
pub open spec fn block_ok_at(bytes: Seq<u8>, pos: int) -> bool {
    &&& 0 <= pos
    &&& pos + 8 <= bytes.len()
    &&& block_len_at(bytes, pos) <= MAX_BLOCK_SIZE
    &&& pos + 8 + block_len_at(bytes, pos) <= bytes.len()
}

/// The position just past the block starting at `pos`.
pub open spec fn block_end_at(bytes: Seq<u8>, pos: int) -> int {
    pos + 8 + block_len_at(bytes, pos)
}

/// The data carried by the block starting at `pos`.
pub open spec fn block_data_at(bytes: Seq<u8>, pos: int) -> Seq<u8> {
    bytes.subrange(pos + 8, block_end_at(bytes, pos))
}

/// Where the metadata block starts: just past the public-key block.
pub open spec fn metadata_pos(bytes: Seq<u8>) -> int {
    block_end_at(bytes, 6)
}

/// Where the signature block starts: just past the metadata block.
pub open spec fn signature_pos(bytes: Seq<u8>) -> int {
    block_end_at(bytes, metadata_pos(bytes))
}

/// Where the payload block starts: just past the signature block.
pub open spec fn image_pos(bytes: Seq<u8>) -> int {
    block_end_at(bytes, signature_pos(bytes))
}

/// When a byte stream parses as a container: it starts with the magic,
/// carries four in-bounds blocks each under the size ceiling, and the
/// metadata block holds valid UTF-8. Bytes past the last block are
/// ignored, as a streaming reader would leave them unread.
pub open spec fn parse_ok(bytes: Seq<u8>) -> bool {
    &&& bytes.len() >= 6
    &&& bytes.subrange(0, 6) == spec_magic()
    &&& block_ok_at(bytes, 6)
    &&& block_ok_at(bytes, metadata_pos(bytes))
    &&& valid_utf8(block_data_at(bytes, metadata_pos(bytes)))
    &&& block_ok_at(bytes, signature_pos(bytes))
    &&& block_ok_at(bytes, image_pos(bytes))
}

/// Relies on String::from_utf8: it succeeds exactly on valid UTF-8 and
/// returns the string those bytes encode.
#[verifier::external_body]
fn string_from_utf8(bytes: Vec<u8>) -> (r: Option<String>)
    ensures
        r is Some <==> valid_utf8(bytes@),
        r matches Some(s) ==> s@ == decode_utf8(bytes@),
{
    String::from_utf8(bytes).ok()
}

/// Appends the length-prefixed form of `data` to `out`.
fn push_block(out: &mut Vec<u8>, data: &[u8])
    ensures
        final(out)@ == old(out)@ + spec_block(data@),
{
    let n: u64 = data.len() as u64;
    out.push((n >> 56) as u8);
    out.push((n >> 48) as u8);
    out.push((n >> 40) as u8);
    out.push((n >> 32) as u8);
    out.push((n >> 24) as u8);
    out.push((n >> 16) as u8);
    out.push((n >> 8) as u8);
    out.push(n as u8);
    let ghost prefix = out@;
    assert(prefix =~= old(out)@ + spec_u64_to_be_bytes(n));
    let mut i: usize = 0;
    while i < data.len()
        invariant
            i <= data@.len(),
            out@ == prefix + data@.subrange(0, i as int),
        decreases data@.len() - i,
    {
        out.push(data[i]);
        assert(out@ =~= prefix + data@.subrange(0, i + 1));
        i += 1;
    }
    assert(out@ =~= old(out)@ + spec_block(data@));
}

/// Reads the eight big-endian length bytes starting at `pos`.
fn read_be_u64(bytes: &[u8], pos: usize) -> (r: u64)
    requires
        pos + 8 <= bytes@.len(),
    ensures
        r == spec_u64_from_be_bytes(bytes@.subrange(pos as int, pos as int + 8)),
{
    let r: u64 = ((bytes[pos] as u64) << 56) | ((bytes[pos + 1] as u64) << 48) | ((bytes[pos + 2]
        as u64) << 40) | ((bytes[pos + 3] as u64) << 32) | ((bytes[pos + 4] as u64) << 24) | ((
    bytes[pos + 5] as u64) << 16) | ((bytes[pos + 6] as u64) << 8) | (bytes[pos + 7] as u64);
    proof {
        let s = bytes@.subrange(pos as int, pos as int + 8);
        assert(s[0] == bytes@[pos as int]);
        assert(s[1] == bytes@[pos as int + 1]);
        assert(s[2] == bytes@[pos as int + 2]);
        assert(s[3] == bytes@[pos as int + 3]);
        assert(s[4] == bytes@[pos as int + 4]);
        assert(s[5] == bytes@[pos as int + 5]);
        assert(s[6] == bytes@[pos as int + 6]);
        assert(s[7] == bytes@[pos as int + 7]);
    }
    r
}

/// Takes one length-prefixed block at `pos`, enforcing the size ceiling
/// before any allocation, and returns the data and the position just
/// past it.
fn read_block(bytes: &[u8], pos: usize) -> (r: Result<(Vec<u8>, usize), AegisError>)
    requires
        pos <= bytes@.len(),
    ensures
        r is Ok <==> block_ok_at(bytes@, pos as int),
        r matches Ok(p) ==> {
            &&& p.0@ == block_data_at(bytes@, pos as int)
            &&& p.1 as int == block_end_at(bytes@, pos as int)
            &&& p.1 <= bytes@.len()
        },
        r is Err ==> r == Err::<(Vec<u8>, usize), AegisError>(AegisError::InvalidFormat),
{
    if bytes.len() - pos < 8 {
        return Err(AegisError::InvalidFormat);
    }
    let n: u64 = read_be_u64(bytes, pos);
    if n > MAX_BLOCK_SIZE {
        return Err(AegisError::InvalidFormat);
    }
    assert(n as usize as u64 == n);
    let n_usize: usize = n as usize;
    if bytes.len() - pos - 8 < n_usize {
        return Err(AegisError::InvalidFormat);
    }
    let data_slice: &[u8] = slice_subrange(bytes, pos + 8, pos + 8 + n_usize);
    let data: Vec<u8> = slice_to_vec(data_slice);
    Ok((data, pos + 8 + n_usize))
}

impl AegisAncient {
    /// Serializes the container into its on-wire byte form: the magic,
    /// then each field as a length-prefixed block, in fixed order.
    pub fn write(&self) -> (r: Vec<u8>)
        ensures
            r@ == spec_serialize(*self),
    {
        let mut out: Vec<u8> = Vec::new();
        out.push(0x41);
        out.push(0x45);
        out.push(0x47);
        out.push(0x49);
        out.push(0x53);
        out.push(0x31);
        assert(out@ =~= spec_magic());
        push_block(&mut out, self.public_key.as_slice());
        push_block(&mut out, self.metadata.as_str().as_bytes());
        push_block(&mut out, self.signature.as_slice());
        push_block(&mut out, self.image_data.as_slice());
        assert(out@ =~= spec_serialize(*self));
        out
    }

    /// Parses a serialized container, validating the magic, the bounds of
    /// every block, and the UTF-8 of the metadata. Fails exactly when the
    /// bytes do not parse, and then with `InvalidFormat`; on success the
    /// four fields are exactly the four blocks' data.
    pub fn read(bytes: &[u8]) -> (r: Result<AegisAncient, AegisError>)
        ensures
            r is Ok <==> parse_ok(bytes@),
            r matches Ok(c) ==> {
                &&& c.public_key@ == block_data_at(bytes@, 6)
                &&& c.metadata@ == decode_utf8(block_data_at(bytes@, metadata_pos(bytes@)))
                &&& encode_utf8(c.metadata@) == block_data_at(bytes@, metadata_pos(bytes@))
                &&& c.signature@ == block_data_at(bytes@, signature_pos(bytes@))
                &&& c.image_data@ == block_data_at(bytes@, image_pos(bytes@))
                &&& wf(c)
            },
            r is Err ==> r == Err::<AegisAncient, AegisError>(AegisError::InvalidFormat),
    {
        if bytes.len() < 6 {
            return Err(AegisError::InvalidFormat);
        }
        if !(bytes[0] == 0x41 && bytes[1] == 0x45 && bytes[2] == 0x47 && bytes[3] == 0x49
            && bytes[4] == 0x53 && bytes[5] == 0x31) {
            proof {
                let m = bytes@.subrange(0, 6);
                assert(m[0] == bytes@[0] && m[1] == bytes@[1] && m[2] == bytes@[2] && m[3]
                    == bytes@[3] && m[4] == bytes@[4] && m[5] == bytes@[5]);
            }
            return Err(AegisError::InvalidFormat);
        }
        assert(bytes@.subrange(0, 6) =~= spec_magic());
        let (public_key, meta_start) = match read_block(bytes, 6) {
            Ok(p) => p,
            Err(e) => {
                return Err(e);
            },
        };
        let (meta_raw, sig_start) = match read_block(bytes, meta_start) {
            Ok(p) => p,
            Err(e) => {
                return Err(e);
            },
        };
        proof {
            if valid_utf8(meta_raw@) {
                decode_utf8_encode_utf8(meta_raw@);
            }
        }
        let metadata = match string_from_utf8(meta_raw) {
            Some(s) => s,
            None => {
                return Err(AegisError::InvalidFormat);
            },
        };
        let (signature, image_start) = match read_block(bytes, sig_start) {
            Ok(p) => p,
            Err(e) => {
                return Err(e);
            },
        };
        let (image_data, _end) = match read_block(bytes, image_start) {
            Ok(p) => p,
            Err(e) => {
                return Err(e);
            },
        };
        Ok(AegisAncient { public_key, metadata, signature, image_data })
    }
}

/// Reading eight big-endian bytes back gives the length they were
/// written from.
proof fn lemma_be_bytes_round_trip(x: u64)
    ensures
        spec_u64_from_be_bytes(spec_u64_to_be_bytes(x)) == x,
{
    let s = spec_u64_to_be_bytes(x);
    assert((((((x >> 56) as u8) as u64) << 56) | ((((x >> 48) as u8) as u64) << 48) | ((((x >> 40)
        as u8) as u64) << 40) | ((((x >> 32) as u8) as u64) << 32) | ((((x >> 24) as u8) as u64)
        << 24) | ((((x >> 16) as u8) as u64) << 16) | ((((x >> 8) as u8) as u64) << 8) | ((
    x as u8) as u64)) as u64 == x) by (bit_vector);
}

/// A block written at `pos`, followed by arbitrary further bytes, parses
/// back to exactly the data it was written from.
proof fn lemma_block_at(bytes: Seq<u8>, pos: int, data: Seq<u8>, rest: Seq<u8>)
    requires
        0 <= pos,
        pos + 8 + data.len() + rest.len() == bytes.len(),
        bytes.subrange(pos, bytes.len() as int) == spec_block(data) + rest,
        data.len() <= MAX_BLOCK_SIZE,
    ensures
        block_ok_at(bytes, pos),
        block_data_at(bytes, pos) == data,
        block_end_at(bytes, pos) == pos + 8 + data.len(),
{
    let tail = bytes.subrange(pos, bytes.len() as int);
    let lenbytes = spec_u64_to_be_bytes(data.len() as u64);
    assert(bytes.subrange(pos, pos + 8) =~= lenbytes) by {
        assert forall|i: int| 0 <= i < 8 implies bytes.subrange(pos, pos + 8)[i] == lenbytes[i] by {
            assert(bytes.subrange(pos, pos + 8)[i] == tail[i]);
            assert(tail[i] == (spec_block(data) + rest)[i]);
        }
    }
    lemma_be_bytes_round_trip(data.len() as u64);
    assert(block_len_at(bytes, pos) == data.len() as u64);
    assert(block_data_at(bytes, pos) =~= data) by {
        assert forall|i: int| 0 <= i < data.len() implies block_data_at(bytes, pos)[i]
            == data[i] by {
            assert(block_data_at(bytes, pos)[i] == tail[8 + i]);
            assert(tail[8 + i] == (spec_block(data) + rest)[8 + i]);
        }
    }
}

/// Law: the codec round-trips. Serializing a well-formed container and
/// parsing the bytes back succeeds and yields the same four fields,
/// byte-exact on each, with the metadata decoding to the same string.
pub proof fn lemma_write_read_round_trip(c: AegisAncient)
    requires
        wf(c),
    ensures
        parse_ok(spec_serialize(c)),
        block_data_at(spec_serialize(c), 6) == c.public_key@,
        block_data_at(spec_serialize(c), metadata_pos(spec_serialize(c))) == encode_utf8(
            c.metadata@,
        ),
        decode_utf8(block_data_at(spec_serialize(c), metadata_pos(spec_serialize(c))))
            == c.metadata@,
        block_data_at(spec_serialize(c), signature_pos(spec_serialize(c))) == c.signature@,
        block_data_at(spec_serialize(c), image_pos(spec_serialize(c))) == c.image_data@,
{
    let s = spec_serialize(c);
    let pk = c.public_key@;
    let mb = encode_utf8(c.metadata@);
    let sg = c.signature@;
    let im = c.image_data@;
    assert(s.len() == 6 + 8 + pk.len() + 8 + mb.len() + 8 + sg.len() + 8 + im.len());
    assert(s.subrange(0, 6) =~= spec_magic());
    assert(s.subrange(6, s.len() as int) =~= spec_block(pk) + (spec_block(mb) + spec_block(sg)
        + spec_block(im)));
    lemma_block_at(s, 6, pk, spec_block(mb) + spec_block(sg) + spec_block(im));
    let p2 = metadata_pos(s);
    assert(p2 == 6 + 8 + pk.len());
    assert(s.subrange(p2, s.len() as int) =~= spec_block(mb) + (spec_block(sg) + spec_block(im)));
    lemma_block_at(s, p2, mb, spec_block(sg) + spec_block(im));
    let p3 = signature_pos(s);
    assert(p3 == p2 + 8 + mb.len());
    assert(s.subrange(p3, s.len() as int) =~= spec_block(sg) + spec_block(im));
    lemma_block_at(s, p3, sg, spec_block(im));
    let p4 = image_pos(s);
    assert(p4 == p3 + 8 + sg.len());
    assert(s.subrange(p4, s.len() as int) =~= spec_block(im) + Seq::<u8>::empty());
    lemma_block_at(s, p4, im, Seq::<u8>::empty());
    encode_utf8_valid_utf8(c.metadata@);
    encode_utf8_decode_utf8(c.metadata@);
}

/// Law: the block-size ceiling is enforced. A stream that parses never
/// declares, at any of its four block positions, a length above
/// `MAX_BLOCK_SIZE`; so any stream with an oversized declared length
/// fails `read` with `InvalidFormat`, by `read`'s contract. The reader
/// also checks each declared length against the ceiling before taking
/// or allocating any block data.
pub proof fn lemma_oversized_block_rejected(bytes: Seq<u8>)
    ensures
        parse_ok(bytes) ==> {
            &&& block_len_at(bytes, 6) <= MAX_BLOCK_SIZE
            &&& block_len_at(bytes, metadata_pos(bytes)) <= MAX_BLOCK_SIZE
            &&& block_len_at(bytes, signature_pos(bytes)) <= MAX_BLOCK_SIZE
            &&& block_len_at(bytes, image_pos(bytes)) <= MAX_BLOCK_SIZE
        },
{
}

} // verus!
