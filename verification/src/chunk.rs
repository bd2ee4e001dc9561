//! A chunk: a type code, a payload, and the frame that carries both.

use crate::checksum::{chunk_checksum, crc32};
use crate::chunk_type::ChunkType;
use crate::endian::lemma_field_value_bounds;
use crate::error::ChunkError;
use crate::frame::{
    check_crc, check_length, checksum_field, encode_frame, frame_bytes, lemma_frame_len,
    lemma_round_trip, length_field, parse_frame, type_field, MIN_FRAME_LEN,
};
use crate::text::{render_summary, summary_text, utf8_text};
use vstd::prelude::*;
use vstd::slice::{slice_subrange, slice_to_vec};
use vstd::utf8::{decode_utf8, valid_utf8};

verus! {

/// A type code and a payload. Length and checksum are computed when asked for.
pub struct Chunk {
    chunk_type: ChunkType,
    data: Vec<u8>,
}

/// What a chunk holds: the bytes of its type code and the bytes of its payload.
pub struct ChunkView {
    pub chunk_type: Seq<u8>,
    pub data: Seq<u8>,
}

impl View for Chunk {
    type V = ChunkView;

    closed spec fn view(&self) -> ChunkView {
        ChunkView { chunk_type: self.chunk_type@, data: self.data@ }
    }
}

impl Chunk {
    /// The payload's size fits the 32-bit length field.
    #[verifier::type_invariant]
    spec fn length_fits(&self) -> bool {
        self.data@.len() <= u32::MAX
    }

    /// A chunk of the given type and payload. The type code is taken as it is.
    pub fn new(chunk_type: ChunkType, data: Vec<u8>) -> (chunk: Chunk)
        requires
            data@.len() <= u32::MAX,
        ensures
            chunk@.chunk_type == chunk_type@,
            chunk@.data == data@,
    {
        Chunk { chunk_type, data }
    }

    /// The number of payload bytes.
    pub fn length(&self) -> (n: u32)
        ensures
            n == self@.data.len(),
    {
        proof {
            use_type_invariant(self);
        }
        self.data.len() as u32
    }

    /// The type code.
    pub fn chunk_type(&self) -> (t: &ChunkType)
        ensures
            t@ == self@.chunk_type,
    {
        &self.chunk_type
    }

    /// The payload.
    pub fn data(&self) -> (d: &[u8])
        ensures
            d@ == self@.data,
    {
        self.data.as_slice()
    }

    /// The checksum of the type code followed by the payload.
    pub fn crc(&self) -> (sum: u32)
        ensures
            sum == chunk_checksum(self@.chunk_type, self@.data),
    {
        Chunk::compute_crc(&self.chunk_type, &self.data)
    }

    /// The payload as text, where it is valid UTF-8.
    pub fn data_as_string(&self) -> (r: Result<String, ChunkError>)
        ensures
            match r {
                Ok(s) => valid_utf8(self@.data) && s@ == decode_utf8(self@.data),
                Err(e) => e == ChunkError::TextDecodeError && !valid_utf8(self@.data),
            },
    {
        match utf8_text(slice_to_vec(self.data.as_slice())) {
            Some(s) => Ok(s),
            None => Err(ChunkError::TextDecodeError),
        }
    }

    /// A summary of the chunk for reading: its length, its type code as
    /// text and as bytes, the payload's size and the checksum. It cannot be
    /// written where the type code is not valid UTF-8.
    pub fn to_string(&self) -> (r: Result<String, ChunkError>)
        ensures
            match r {
                Ok(s) => valid_utf8(self@.chunk_type) && s@ == summary_text(
                    decode_utf8(self@.chunk_type),
                    self@.chunk_type,
                    self@.data.len(),
                    chunk_checksum(self@.chunk_type, self@.data),
                ),
                Err(e) => e == ChunkError::TextRenderError && !valid_utf8(self@.chunk_type),
            },
    {
        match self.chunk_type.to_string() {
            Ok(text) => {
                let code = self.chunk_type.bytes();
                Ok(render_summary(text.as_str(), &code, self.length(), self.crc()))
            },
            Err(e) => Err(e),
        }
    }

    /// The frame of the chunk: length, type code, payload, checksum. It is
    /// twelve bytes longer than the payload, and decoding it gives the chunk
    /// back.
    pub fn as_bytes(&self) -> (frame: Vec<u8>)
        ensures
            frame@ == frame_bytes(self@.chunk_type, self@.data),
            frame@.len() == 8 + self@.data.len() + 4,
            parse_frame(frame@) == Ok::<ChunkView, ChunkError>(self@),
    {
        proof {
            use_type_invariant(self);
            self.chunk_type.lemma_four_bytes();
            lemma_frame_len(
                self@.chunk_type,
                self@.data,
                chunk_checksum(self@.chunk_type, self@.data),
            );
            lemma_round_trip(self@.chunk_type, self@.data);
        }
        encode_frame(&self.chunk_type, self.data.as_slice(), self.crc())
    }

    /// The type code of a chunk is four bytes.
    pub proof fn lemma_type_code_len(&self)
        ensures
            self@.chunk_type.len() == 4,
    {
        self.chunk_type.lemma_four_bytes();
    }

    /// The checksum of `chunk_type` followed by `data`.
    fn compute_crc(chunk_type: &ChunkType, data: &Vec<u8>) -> (sum: u32)
        ensures
            sum == chunk_checksum(chunk_type@, data@),
    {
        let code = chunk_type.bytes();
        let mut d: Vec<u8> = Vec::new();
        d.extend_from_slice(code.as_slice());
        d.extend_from_slice(data.as_slice());
        assert(d@ =~= chunk_type@ + data@);
        crc32(d.as_slice())
    }
}

impl TryFrom<&[u8]> for Chunk {
    type Error = ChunkError;

    /// Decodes a frame. The first four bytes are the payload's length, the
    /// next four the type code, the last four the checksum, and what lies
    /// between is the payload. Length and checksum are each accepted in either
    /// byte order; the type code is taken as it is.
    fn try_from(value: &[u8]) -> (r: Result<Self, ChunkError>)
        ensures
            match r {
                Ok(chunk) => parse_frame(value@) == Ok::<ChunkView, ChunkError>(chunk@),
                Err(e) => parse_frame(value@) == Err::<ChunkView, ChunkError>(e),
            },
    {
        if value.len() < MIN_FRAME_LEN {
            return Err(ChunkError::BufferTooShort { actual: value.len() });
        }
        let b_len: [u8; 4] = [value[0], value[1], value[2], value[3]];
        assert(b_len@ =~= length_field(value@));

        let b_type: [u8; 4] = [value[4], value[5], value[6], value[7]];
        assert(b_type@ =~= type_field(value@));
        let chunk_type = match ChunkType::try_from(b_type) {
            Ok(t) => t,
            Err(e) => {
                return Err(e);
            },
        };

        let offset = value.len() - 4;
        let data: Vec<u8> = slice_to_vec(slice_subrange(value, 8, offset));

        let b_crc: [u8; 4] = [
            value[offset],
            value[offset + 1],
            value[offset + 2],
            value[offset + 3],
        ];
        assert(b_crc@ =~= checksum_field(value@));

        match check_length(&b_len, data.len()) {
            Err(e) => {
                return Err(e);
            },
            Ok(_) => {},
        }
        let crc = Chunk::compute_crc(&chunk_type, &data);
        match check_crc(&b_crc, crc) {
            Err(e) => {
                return Err(e);
            },
            Ok(_) => {},
        }
        proof {
            lemma_field_value_bounds(b_len@);
        }
        Ok(Chunk { chunk_type, data })
    }
}

/// A chunk owns a `Vec`, which no spec function can build, so decoding is not
/// given as a spec function of this trait: what `try_from` returns is stated
/// in its own contract, over [`parse_frame`].
impl vstd::std_specs::convert::TryFromSpecImpl<&[u8]> for Chunk {
    open spec fn obeys_try_from_spec() -> bool {
        false
    }

    open spec fn try_from_spec(value: &[u8]) -> Result<Self, ChunkError> {
        arbitrary()
    }
}

} // verus!
