use vstd::prelude::*;

use crate::bytes::{be32, push_be32, push_bytes};

verus! {

/// The CRC-32 (IEEE, the PNG polynomial) of a byte sequence.
pub uninterp spec fn crc32_of(data: Seq<u8>) -> u32;

/// Relies on flate2::Crc: the CRC-32 (IEEE) checksum of exactly the bytes
/// fed to it, a function of those bytes alone.
#[verifier::external_body]
fn crc32(data: &[u8]) -> (r: u32)
    ensures
        r == crc32_of(data@),
{
    let mut crc = flate2::Crc::new();
    crc.update(data);
    crc.sum()
}

/// A whole PNG chunk: big-endian data length, the four type bytes, the data,
/// and the big-endian CRC-32 of type and data.
pub open spec fn chunk_bytes(c_type: Seq<u8>, c_data: Seq<u8>) -> Seq<u8> {
    be32(c_data.len() as u32) + c_type + c_data + be32(crc32_of(c_type + c_data))
}

/// Chunk framing law: in every chunk, the length field is the big-endian
/// length of the data, and the trailing four bytes are the big-endian
/// CRC-32 of the type bytes followed by the data.
pub proof fn lemma_chunk_layout(c_type: Seq<u8>, c_data: Seq<u8>)
    requires
        c_type.len() == 4,
        c_data.len() <= u32::MAX,
    ensures
        chunk_bytes(c_type, c_data).len() == 12 + c_data.len(),
        chunk_bytes(c_type, c_data).take(4) == be32(c_data.len() as u32),
        chunk_bytes(c_type, c_data).subrange(4, 8) == c_type,
        chunk_bytes(c_type, c_data).subrange(8, 8 + c_data.len() as int) == c_data,
        chunk_bytes(c_type, c_data).skip(8 + c_data.len() as int) == be32(
            crc32_of(c_type + c_data),
        ),
{
    let c = chunk_bytes(c_type, c_data);
    assert(c.take(4) =~= be32(c_data.len() as u32));
    assert(c.subrange(4, 8) =~= c_type);
    assert(c.subrange(8, 8 + c_data.len() as int) =~= c_data);
    assert(c.skip(8 + c_data.len() as int) =~= be32(crc32_of(c_type + c_data)));
}

/// Appends one chunk of the given type and data to the stream.
pub fn write_chunk(out: &mut Vec<u8>, c_data: &[u8], c_type: [u8; 4])
    requires
        c_data@.len() <= u32::MAX,
    ensures
        final(out)@ == old(out)@ + chunk_bytes(c_type@, c_data@),
{
    let mut tagged: Vec<u8> = Vec::new();
    push_bytes(&mut tagged, c_type.as_slice());
    push_bytes(&mut tagged, c_data);
    assert(tagged@ =~= c_type@ + c_data@);
    push_be32(out, c_data.len() as u32);
    push_bytes(out, tagged.as_slice());
    push_be32(out, crc32(tagged.as_slice()));
    assert(out@ =~= old(out)@ + chunk_bytes(c_type@, c_data@));
}

} // verus!
