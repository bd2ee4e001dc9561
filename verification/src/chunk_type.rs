//! The four-byte type code of a chunk and the property bits it carries.

use crate::error::ChunkError;
use crate::text::utf8_text;
use vstd::prelude::*;
use vstd::slice::slice_to_vec;
use vstd::string::StringSliceAdditionalSpecFns;
use vstd::utf8::{
    decode_utf8, encode_utf8_decode_utf8, encode_utf8_valid_utf8, is_leading_byte_width_1,
    partial_valid_utf8, partial_valid_utf8_extend_ascii_block, valid_utf8,
};

verus! {

/// Bit 5 of a byte: set in a lower-case ASCII letter, clear in an upper-case one.
pub const PROPERTY_BIT: u8 = 0x20;

/// A chunk's type code: four raw bytes.
#[derive(Debug, Eq)]
pub struct ChunkType([u8; 4]);

/// Two type codes are equal when their bytes are.
impl PartialEq for ChunkType {
    fn eq(&self, other: &Self) -> (r: bool) {
        let same = self.0[0] == other.0[0] && self.0[1] == other.0[1] && self.0[2] == other.0[2]
            && self.0[3] == other.0[3];
        proof {
            if same {
                assert(self.0@ =~= other.0@);
            }
        }
        same
    }
}

/// What `==` on type codes means in contracts.
impl vstd::std_specs::cmp::PartialEqSpecImpl for ChunkType {
    open spec fn obeys_eq_spec() -> bool {
        true
    }

    open spec fn eq_spec(&self, other: &Self) -> bool {
        self@ == other@
    }
}

/// Whether `byte` is an ASCII letter, upper or lower case.
pub open spec fn is_ascii_letter(byte: u8) -> bool {
    (65 <= byte <= 90) || (97 <= byte <= 122)
}

/// Whether every byte of `bytes` is an ASCII letter.
pub open spec fn all_ascii_letters(bytes: Seq<u8>) -> bool {
    forall|i: int| 0 <= i < bytes.len() ==> is_ascii_letter(#[trigger] bytes[i])
}

/// Whether the property bit of `byte` is set.
pub open spec fn property_bit_set(byte: u8) -> bool {
    byte & PROPERTY_BIT != 0
}

impl View for ChunkType {
    type V = Seq<u8>;

    closed spec fn view(&self) -> Seq<u8> {
        self.0@
    }
}

impl ChunkType {
    /// A type code is four bytes.
    pub proof fn lemma_four_bytes(&self)
        ensures
            self@.len() == 4,
    {
    }

    /// The four bytes of the code.
    pub fn bytes(&self) -> (r: [u8; 4])
        ensures
            r@ == self@,
    {
        self.0
    }

    /// Whether all four bytes are ASCII letters.
    pub fn bytes_are_alphanumeric(&self) -> (r: bool)
        ensures
            r == all_ascii_letters(self@),
    {
        let mut i: usize = 0;
        while i < 4
            invariant
                i <= 4,
                forall|j: int| 0 <= j < i ==> is_ascii_letter(#[trigger] self@[j]),
            decreases 4 - i,
        {
            if !ChunkType::is_valid_byte(self.0[i]) {
                return false;
            }
            i += 1;
        }
        true
    }

    /// Whether the code is well formed: four ASCII letters, the reserved bit clear.
    pub fn is_valid(&self) -> (r: bool)
        ensures
            r == (all_ascii_letters(self@) && !property_bit_set(self@[2])),
    {
        self.bytes_are_alphanumeric() && self.is_reserved_bit_valid()
    }

    /// Whether the chunk is critical: the property bit of the first byte is clear.
    pub fn is_critical(&self) -> (r: bool)
        ensures
            r == !property_bit_set(self@[0]),
    {
        self.0[0] & PROPERTY_BIT == 0
    }

    /// Whether the code is public: the property bit of the second byte is clear.
    pub fn is_public(&self) -> (r: bool)
        ensures
            r == !property_bit_set(self@[1]),
    {
        self.0[1] & PROPERTY_BIT == 0
    }

    /// Whether the reserved bit, the property bit of the third byte, is clear.
    pub fn is_reserved_bit_valid(&self) -> (r: bool)
        ensures
            r == !property_bit_set(self@[2]),
    {
        self.0[2] & PROPERTY_BIT == 0
    }

    /// Whether the chunk is safe to copy: the property bit of the fourth byte is set.
    pub fn is_safe_to_copy(&self) -> (r: bool)
        ensures
            r == property_bit_set(self@[3]),
    {
        self.0[3] & PROPERTY_BIT != 0
    }

    /// The code as text, where its bytes are valid UTF-8.
    pub fn to_string(&self) -> (r: Result<String, ChunkError>)
        ensures
            match r {
                Ok(s) => valid_utf8(self@) && s@ == decode_utf8(self@),
                Err(e) => e == ChunkError::TextRenderError && !valid_utf8(self@),
            },
    {
        match utf8_text(slice_to_vec(self.0.as_slice())) {
            Some(s) => Ok(s),
            None => Err(ChunkError::TextRenderError),
        }
    }

    /// Whether `byte` is an ASCII letter.
    pub fn is_valid_byte(byte: u8) -> (r: bool)
        ensures
            r == is_ascii_letter(byte),
    {
        (byte >= 65 && byte <= 90) || (byte >= 97 && byte <= 122)
    }
}

impl TryFrom<[u8; 4]> for ChunkType {
    type Error = ChunkError;

    /// Takes any four bytes as a type code; nothing about them is checked.
    fn try_from(value: [u8; 4]) -> (r: Result<Self, ChunkError>)
        ensures
            r is Ok,
            r->Ok_0@ == value@,
    {
        Ok(ChunkType(value))
    }
}

/// What `try_from` returns, as a spec function: always the code made of the
/// four bytes.
impl vstd::std_specs::convert::TryFromSpecImpl<[u8; 4]> for ChunkType {
    open spec fn obeys_try_from_spec() -> bool {
        true
    }

    closed spec fn try_from_spec(value: [u8; 4]) -> Result<Self, ChunkError> {
        Ok(ChunkType(value))
    }
}

impl std::str::FromStr for ChunkType {
    type Err = ChunkError;

    /// The type code that `s` spells. The text must be four ASCII letters;
    /// the reserved bit is not looked at.
    fn from_str(s: &str) -> (r: Result<Self, ChunkError>)
        ensures
            match r {
                Ok(t) => {
                    &&& s.spec_bytes().len() == 4
                    &&& all_ascii_letters(s.spec_bytes())
                    &&& t@ == s.spec_bytes()
                    &&& valid_utf8(t@)
                    &&& decode_utf8(t@) == s@
                },
                Err(e) => {
                    &&& e == ChunkError::InvalidTypeCode
                    &&& !(s.spec_bytes().len() == 4 && all_ascii_letters(s.spec_bytes()))
                },
            },
    {
        let b = s.as_bytes();
        if b.len() != 4 {
            return Err(ChunkError::InvalidTypeCode);
        }
        let chunk = ChunkType([b[0], b[1], b[2], b[3]]);
        assert(chunk@ =~= s.spec_bytes());
        proof {
            encode_utf8_valid_utf8(s@);
            encode_utf8_decode_utf8(s@);
        }
        if chunk.bytes_are_alphanumeric() {
            Ok(chunk)
        } else {
            Err(ChunkError::InvalidTypeCode)
        }
    }
}

/// In an ASCII letter the property bit tells the case: set in a lower-case
/// letter, clear in an upper-case one.
pub proof fn lemma_property_bit_is_case(byte: u8)
    requires
        is_ascii_letter(byte),
    ensures
        property_bit_set(byte) <==> 97 <= byte <= 122,
        !property_bit_set(byte) <==> 65 <= byte <= 90,
{
    assert(((65 <= byte && byte <= 90) || (97 <= byte && byte <= 122)) ==> ((byte & 0x20 != 0)
        <==> (97 <= byte && byte <= 122))) by (bit_vector);
}

/// Bytes that are all ASCII letters are valid UTF-8, so a type code made of
/// letters can always be rendered as text.
pub proof fn lemma_letters_are_text(code: Seq<u8>)
    requires
        all_ascii_letters(code),
    ensures
        valid_utf8(code),
{
    assert(code.subrange(0, 0) =~= Seq::<u8>::empty());
    assert(partial_valid_utf8(code, 0));
    assert forall|i: int| 0 <= i < code.len() implies #[trigger] is_leading_byte_width_1(
        code[i],
    ) by {
        assert(is_ascii_letter(code[i]));
    }
    partial_valid_utf8_extend_ascii_block(code, 0, code.len() as int);
    assert(code.subrange(0, code.len() as int) =~= code);
}

} // verus!
