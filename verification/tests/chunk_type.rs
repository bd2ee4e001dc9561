use png_chunk::chunk_type::ChunkType;
use png_chunk::error::ChunkError;
use std::convert::TryFrom;
use std::str::FromStr;

#[test]
pub fn chunk_type_from_bytes() {
    let expected = [82, 117, 83, 116];
    let actual = ChunkType::try_from([82, 117, 83, 116]).unwrap();

    assert_eq!(expected, actual.bytes());
}

#[test]
pub fn chunk_type_from_str() {
    let expected = ChunkType::try_from([82, 117, 83, 116]).unwrap();
    let actual = ChunkType::from_str("RuSt").unwrap();
    assert_eq!(expected, actual);
}

#[test]
pub fn chunk_type_is_critical() {
    let chunk = ChunkType::from_str("RuSt").unwrap();
    assert!(chunk.is_critical());
}

#[test]
pub fn chunk_type_is_not_critical() {
    let chunk = ChunkType::from_str("ruSt").unwrap();
    assert!(!chunk.is_critical());
}

#[test]
pub fn chunk_type_is_public() {
    let chunk = ChunkType::from_str("RUSt").unwrap();
    assert!(chunk.is_public());
}

#[test]
pub fn chunk_type_is_not_public() {
    let chunk = ChunkType::from_str("RuSt").unwrap();
    assert!(!chunk.is_public());
}

#[test]
pub fn chunk_type_is_reserved_bit_valid() {
    let chunk = ChunkType::from_str("RuSt").unwrap();
    assert!(chunk.is_reserved_bit_valid());
}

#[test]
pub fn chunk_type_is_reserved_bit_invalid() {
    let chunk = ChunkType::from_str("Rust").unwrap();
    assert!(!chunk.is_reserved_bit_valid());
}

#[test]
pub fn chunk_type_is_safe_to_copy() {
    let chunk = ChunkType::from_str("RuSt").unwrap();
    assert!(chunk.is_safe_to_copy());
}

#[test]
pub fn chunk_type_is_unsafe_to_copy() {
    let chunk = ChunkType::from_str("RuST").unwrap();
    assert!(!chunk.is_safe_to_copy());
}

#[test]
pub fn valid_chunk_is_valid() {
    let chunk = ChunkType::from_str("RuSt").unwrap();
    assert!(chunk.is_valid());
}

#[test]
pub fn invalid_chunk_is_valid() {
    let chunk = ChunkType::from_str("Rust").unwrap();
    assert!(!chunk.is_valid());

    let chunk = ChunkType::from_str("Ru1t");
    assert!(chunk.is_err());
}

#[test]
pub fn chunk_type_string() {
    let chunk = ChunkType::from_str("RuSt").unwrap();
    assert_eq!(&chunk.to_string().unwrap(), "RuSt");
}

#[test]
pub fn chunk_type_trait_impls() {
    let chunk_type_1: ChunkType = TryFrom::try_from([82, 117, 83, 116]).unwrap();
    let chunk_type_2: ChunkType = FromStr::from_str("RuSt").unwrap();
    let _chunk_string = format!("{}", chunk_type_1.to_string().unwrap());
    let _are_chunks_equal = chunk_type_1 == chunk_type_2;
}

#[test]
fn all_four_flags_of_one_code() {
    let code = ChunkType::from_str("RuSt").unwrap();
    assert!(code.is_critical());
    assert!(!code.is_public());
    assert!(code.is_reserved_bit_valid());
    assert!(code.is_safe_to_copy());
}

#[test]
fn text_with_a_digit_is_refused() {
    assert_eq!(ChunkType::from_str("Ru1t"), Err(ChunkError::InvalidTypeCode));
}

#[test]
fn text_of_the_wrong_length_is_refused() {
    assert_eq!(ChunkType::from_str(""), Err(ChunkError::InvalidTypeCode));
    assert_eq!(ChunkType::from_str("RuS"), Err(ChunkError::InvalidTypeCode));
    assert_eq!(ChunkType::from_str("RuStx"), Err(ChunkError::InvalidTypeCode));
}

#[test]
fn text_of_four_bytes_that_are_not_letters_is_refused() {
    // Two letters around a two-byte character: four bytes in all.
    assert_eq!("R\u{fc}t".len(), 4);
    assert_eq!(ChunkType::from_str("R\u{fc}t"), Err(ChunkError::InvalidTypeCode));
    assert_eq!(ChunkType::from_str("Ru t"), Err(ChunkError::InvalidTypeCode));
    assert_eq!(ChunkType::from_str("@uSt"), Err(ChunkError::InvalidTypeCode));
    assert_eq!(ChunkType::from_str("[uSt"), Err(ChunkError::InvalidTypeCode));
    assert_eq!(ChunkType::from_str("`uSt"), Err(ChunkError::InvalidTypeCode));
    assert_eq!(ChunkType::from_str("{uSt"), Err(ChunkError::InvalidTypeCode));
}

#[test]
fn text_with_the_reserved_bit_set_is_taken_but_not_valid() {
    let code = ChunkType::from_str("Rust").unwrap();
    assert_eq!(code.bytes(), [82, 117, 115, 116]);
    assert!(code.bytes_are_alphanumeric());
    assert!(!code.is_valid());
}

#[test]
fn letters_are_the_two_ascii_ranges() {
    for byte in 0..=255u8 {
        let letter = byte.is_ascii_uppercase() || byte.is_ascii_lowercase();
        assert_eq!(ChunkType::is_valid_byte(byte), letter);
    }
    assert!(ChunkType::is_valid_byte(65));
    assert!(ChunkType::is_valid_byte(90));
    assert!(ChunkType::is_valid_byte(97));
    assert!(ChunkType::is_valid_byte(122));
    assert!(!ChunkType::is_valid_byte(64));
    assert!(!ChunkType::is_valid_byte(91));
    assert!(!ChunkType::is_valid_byte(96));
    assert!(!ChunkType::is_valid_byte(123));
}

#[test]
fn in_a_letter_the_property_bit_is_the_case() {
    for byte in 0..=255u8 {
        if ChunkType::is_valid_byte(byte) {
            let code = ChunkType::try_from([byte, byte, byte, byte]).unwrap();
            assert_eq!(code.is_critical(), byte.is_ascii_uppercase());
            assert_eq!(code.is_public(), byte.is_ascii_uppercase());
            assert_eq!(code.is_reserved_bit_valid(), byte.is_ascii_uppercase());
            assert_eq!(code.is_safe_to_copy(), byte.is_ascii_lowercase());
        }
    }
}

#[test]
fn any_four_bytes_make_a_code() {
    let code = ChunkType::try_from([0, 255, 32, 49]).unwrap();
    assert_eq!(code.bytes(), [0, 255, 32, 49]);
    assert!(!code.bytes_are_alphanumeric());
    assert!(!code.is_valid());
    // Bit 5 is read whatever the byte is.
    assert!(code.is_critical());
    assert!(!code.is_public());
    assert!(!code.is_reserved_bit_valid());
    assert!(code.is_safe_to_copy());
}

#[test]
fn one_byte_that_is_no_letter_spoils_the_code() {
    for position in 0..4 {
        let mut bytes = [82, 117, 83, 116];
        bytes[position] = 49;
        let code = ChunkType::try_from(bytes).unwrap();
        assert!(!code.bytes_are_alphanumeric());
        assert!(!code.is_valid());
    }
}

#[test]
fn codes_are_equal_when_their_bytes_are() {
    let a = ChunkType::try_from([82, 117, 83, 116]).unwrap();
    let b = ChunkType::try_from([82, 117, 83, 116]).unwrap();
    assert!(a == b);
    for position in 0..4 {
        let mut bytes = [82, 117, 83, 116];
        bytes[position] = 120;
        let c = ChunkType::try_from(bytes).unwrap();
        assert!(a != c);
    }
}

#[test]
fn a_code_from_text_renders_as_that_text() {
    for text in ["RuSt", "ruSt", "RUSt", "Rust", "RuST", "IHDR", "tEXt", "zzzz", "AAAA"] {
        let code = ChunkType::from_str(text).unwrap();
        assert_eq!(code.bytes(), [
            text.as_bytes()[0],
            text.as_bytes()[1],
            text.as_bytes()[2],
            text.as_bytes()[3],
        ]);
        assert_eq!(code.to_string(), Ok(String::from(text)));
    }
}

#[test]
fn a_code_that_is_not_utf8_cannot_be_rendered() {
    let code = ChunkType::try_from([82, 255, 83, 116]).unwrap();
    assert_eq!(code.to_string(), Err(ChunkError::TextRenderError));
    // A lone continuation byte, and a sequence cut short.
    let code = ChunkType::try_from([128, 65, 65, 65]).unwrap();
    assert_eq!(code.to_string(), Err(ChunkError::TextRenderError));
    let code = ChunkType::try_from([65, 65, 65, 0xc3]).unwrap();
    assert_eq!(code.to_string(), Err(ChunkError::TextRenderError));
}

#[test]
fn a_code_of_other_utf8_than_letters_renders() {
    let code = ChunkType::try_from([0xc3, 0xbc, 49, 32]).unwrap();
    assert_eq!(code.to_string(), Ok(String::from("\u{fc}1 ")));
}
