//! The wire format of a chunk.
//!
//! ```text
//! offset  size  field
//! 0       4     length of the payload, big-endian
//! 4       4     type code
//! 8       N     payload
//! 8+N     4     checksum of type code and payload, big-endian
//! ```
//!
//! The decoder accepts the length and the checksum in either byte order.

use crate::checksum::chunk_checksum;
use crate::chunk::ChunkView;
use crate::chunk_type::ChunkType;
use crate::endian::{
    be_bytes, be_value, le_value, lemma_be_bytes_value, lemma_field_value_bounds, u32_from_be,
    u32_from_le, u32_to_be,
};
use crate::error::ChunkError;
use vstd::prelude::*;

verus! {

/// The size of a frame with an empty payload: length, type code and checksum.
pub const MIN_FRAME_LEN: usize = 12;

/// The frame of a chunk whose checksum is `crc`.
pub open spec fn frame_layout(chunk_type: Seq<u8>, data: Seq<u8>, crc: u32) -> Seq<u8> {
    be_bytes(data.len() as u32) + chunk_type + data + be_bytes(crc)
}

/// The frame of a chunk.
pub open spec fn frame_bytes(chunk_type: Seq<u8>, data: Seq<u8>) -> Seq<u8> {
    frame_layout(chunk_type, data, chunk_checksum(chunk_type, data))
}

/// The length field of a frame.
pub open spec fn length_field(frame: Seq<u8>) -> Seq<u8> {
    frame.subrange(0, 4)
}

/// The type code of a frame.
pub open spec fn type_field(frame: Seq<u8>) -> Seq<u8> {
    frame.subrange(4, 8)
}

/// The payload of a frame: what lies between the type code and the checksum.
pub open spec fn payload_field(frame: Seq<u8>) -> Seq<u8> {
    frame.subrange(8, frame.len() - 4)
}

/// The checksum field of a frame: its last four bytes.
pub open spec fn checksum_field(frame: Seq<u8>) -> Seq<u8> {
    frame.subrange(frame.len() - 4, frame.len() as int)
}

/// Whether a four-byte field spells `n` in one byte order or the other.
pub open spec fn field_agrees(field: Seq<u8>, n: int) -> bool {
    n == be_value(field) || n == le_value(field)
}

/// What decoding a frame gives: the chunk it holds, or the first check it fails.
pub open spec fn parse_frame(frame: Seq<u8>) -> Result<ChunkView, ChunkError> {
    let chunk_type = type_field(frame);
    let data = payload_field(frame);
    let computed = chunk_checksum(chunk_type, data);
    if frame.len() < MIN_FRAME_LEN {
        Err(ChunkError::BufferTooShort { actual: frame.len() as usize })
    } else if !field_agrees(length_field(frame), data.len() as int) {
        Err(
            ChunkError::LengthMismatch {
                declared: be_value(length_field(frame)) as u32,
                actual: data.len() as usize,
            },
        )
    } else if !field_agrees(checksum_field(frame), computed as int) {
        Err(
            ChunkError::ChecksumMismatch {
                declared: be_value(checksum_field(frame)) as u32,
                computed,
            },
        )
    } else {
        Ok(ChunkView { chunk_type, data })
    }
}

/// Holds a length field against the payload's size.
pub fn check_length(field: &[u8; 4], actual: usize) -> (r: Result<(), ChunkError>)
    ensures
        match r {
            Ok(_) => field_agrees(field@, actual as int),
            Err(e) => !field_agrees(field@, actual as int) && e == (ChunkError::LengthMismatch {
                declared: be_value(field@) as u32,
                actual,
            }),
        },
{
    let be_len = u32_from_be(field);
    let le_len = u32_from_le(field);
    if actual == be_len as usize || actual == le_len as usize {
        Ok(())
    } else {
        Err(ChunkError::LengthMismatch { declared: be_len, actual })
    }
}

/// Holds a checksum field against the checksum that was computed.
pub fn check_crc(field: &[u8; 4], computed: u32) -> (r: Result<(), ChunkError>)
    ensures
        match r {
            Ok(_) => field_agrees(field@, computed as int),
            Err(e) => !field_agrees(field@, computed as int) && e == (
            ChunkError::ChecksumMismatch { declared: be_value(field@) as u32, computed }),
        },
{
    let be_crc = u32_from_be(field);
    let le_crc = u32_from_le(field);
    if computed == be_crc || computed == le_crc {
        Ok(())
    } else {
        Err(ChunkError::ChecksumMismatch { declared: be_crc, computed })
    }
}

/// Lays out the frame of a chunk whose checksum is `crc`.
pub fn encode_frame(chunk_type: &ChunkType, data: &[u8], crc: u32) -> (frame: Vec<u8>)
    requires
        data@.len() <= u32::MAX,
    ensures
        frame@ == frame_layout(chunk_type@, data@, crc),
{
    let length = u32_to_be(data.len() as u32);
    let code = chunk_type.bytes();
    let sum = u32_to_be(crc);
    let mut frame: Vec<u8> = Vec::new();
    frame.extend_from_slice(length.as_slice());
    frame.extend_from_slice(code.as_slice());
    frame.extend_from_slice(data);
    frame.extend_from_slice(sum.as_slice());
    assert(frame@ =~= frame_layout(chunk_type@, data@, crc));
    frame
}

/// A frame is twelve bytes longer than its payload.
pub proof fn lemma_frame_len(chunk_type: Seq<u8>, data: Seq<u8>, crc: u32)
    requires
        chunk_type.len() == 4,
    ensures
        frame_layout(chunk_type, data, crc).len() == 8 + data.len() + 4,
{
}

/// The fields of a frame are what it was laid out from.
pub proof fn lemma_frame_fields(chunk_type: Seq<u8>, data: Seq<u8>, crc: u32)
    requires
        chunk_type.len() == 4,
    ensures
        length_field(frame_layout(chunk_type, data, crc)) == be_bytes(data.len() as u32),
        type_field(frame_layout(chunk_type, data, crc)) == chunk_type,
        payload_field(frame_layout(chunk_type, data, crc)) == data,
        checksum_field(frame_layout(chunk_type, data, crc)) == be_bytes(crc),
{
    let frame = frame_layout(chunk_type, data, crc);
    assert(length_field(frame) =~= be_bytes(data.len() as u32));
    assert(type_field(frame) =~= chunk_type);
    assert(payload_field(frame) =~= data);
    assert(checksum_field(frame) =~= be_bytes(crc));
}

/// A frame that decodes holds a four-byte type code and a payload of the
/// size that its length field gives, in one byte order or the other, and its
/// checksum field gives the checksum of the two.
pub proof fn lemma_parse_sound(frame: Seq<u8>)
    requires
        parse_frame(frame) is Ok,
    ensures
        ({
            let chunk = parse_frame(frame)->Ok_0;
            &&& chunk.chunk_type == type_field(frame)
            &&& chunk.chunk_type.len() == 4
            &&& chunk.data == payload_field(frame)
            &&& chunk.data.len() == frame.len() - MIN_FRAME_LEN
            &&& chunk.data.len() <= u32::MAX
            &&& field_agrees(length_field(frame), chunk.data.len() as int)
            &&& field_agrees(
                checksum_field(frame),
                chunk_checksum(chunk.chunk_type, chunk.data) as int,
            )
        }),
{
    lemma_field_value_bounds(length_field(frame));
}

/// Decoding the frame of a chunk gives the chunk back: any four-byte type
/// code, letters or not, and any payload whose size fits the length field.
pub proof fn lemma_round_trip(chunk_type: Seq<u8>, data: Seq<u8>)
    requires
        chunk_type.len() == 4,
        data.len() <= u32::MAX,
    ensures
        parse_frame(frame_bytes(chunk_type, data)) == Ok::<ChunkView, ChunkError>(
            ChunkView { chunk_type, data },
        ),
{
    let crc = chunk_checksum(chunk_type, data);
    lemma_frame_len(chunk_type, data, crc);
    lemma_frame_fields(chunk_type, data, crc);
    lemma_be_bytes_value(data.len() as u32);
    lemma_be_bytes_value(crc);
}

} // verus!
