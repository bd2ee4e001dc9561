//! The CRC-32 that guards a chunk.

use vstd::prelude::*;

verus! {

/// The CRC-32/ISO-HDLC checksum of `bytes`: the CRC-32 of PNG and zlib
/// (polynomial 0x04C11DB7, reflected, initial value and final XOR 0xFFFFFFFF).
pub uninterp spec fn crc32_iso_hdlc(bytes: Seq<u8>) -> u32;

/// The checksum of a chunk: the CRC-32 of the type code followed by the payload.
pub open spec fn chunk_checksum(chunk_type: Seq<u8>, data: Seq<u8>) -> u32 {
    crc32_iso_hdlc(chunk_type + data)
}

/// Equal type codes and payloads have equal checksums: the checksum depends
/// on nothing else.
pub proof fn lemma_checksum_deterministic(
    type_a: Seq<u8>,
    data_a: Seq<u8>,
    type_b: Seq<u8>,
    data_b: Seq<u8>,
)
    requires
        type_a =~= type_b,
        data_a =~= data_b,
    ensures
        chunk_checksum(type_a, data_a) == chunk_checksum(type_b, data_b),
{
}

/// Builds a `crc::Crc<u32>` for `crc::CRC_32_ISO_HDLC` with `Crc::new` and
/// calls its `checksum` on `bytes`.
///
/// Trusted: the result is taken to be the CRC-32/ISO-HDLC of the bytes, a
/// function of the bytes alone. The call reads its table by byte values only
/// and returns for every input.
#[verifier::external_body]
pub(crate) fn crc32(bytes: &[u8]) -> (sum: u32)
    ensures
        sum == crc32_iso_hdlc(bytes@),
{
    crc::Crc::<u32>::new(&crc::CRC_32_ISO_HDLC).checksum(bytes)
}

} // verus!
