//! Text out of bytes.

use vstd::prelude::*;
use vstd::string::StringExecFns;
use vstd::utf8::{decode_utf8, encode_utf8, encode_utf8_decode_utf8, valid_utf8};

verus! {

/// `std::string::FromUtf8Error`, the error of `String::from_utf8`. It is
/// carried, never looked into.
#[verifier::external_type_specification]
#[verifier::external_body]
pub struct ExFromUtf8Error(std::string::FromUtf8Error);

/// Calls `String::from_utf8`.
///
/// Trusted: the call succeeds exactly on valid UTF-8, and the string it
/// returns holds the bytes it was given.
#[verifier::external_body]
fn string_from_utf8(bytes: Vec<u8>) -> (r: Result<String, std::string::FromUtf8Error>)
    ensures
        r is Ok <==> valid_utf8(bytes@),
        r matches Ok(s) ==> encode_utf8(s@) == bytes@,
{
    String::from_utf8(bytes)
}

/// Decodes `bytes` as UTF-8 text; `None` when they are not valid UTF-8.
pub fn utf8_text(bytes: Vec<u8>) -> (r: Option<String>)
    ensures
        r is Some <==> valid_utf8(bytes@),
        r matches Some(s) ==> s@ == decode_utf8(bytes@),
{
    match string_from_utf8(bytes) {
        Ok(s) => {
            proof {
                encode_utf8_decode_utf8(s@);
            }
            Some(s)
        },
        Err(_) => None,
    }
}

/// The character of a decimal digit.
pub open spec fn digit_char(d: int) -> char
    recommends
        0 <= d < 10,
{
    if d == 0 {
        '0'
    } else if d == 1 {
        '1'
    } else if d == 2 {
        '2'
    } else if d == 3 {
        '3'
    } else if d == 4 {
        '4'
    } else if d == 5 {
        '5'
    } else if d == 6 {
        '6'
    } else if d == 7 {
        '7'
    } else if d == 8 {
        '8'
    } else {
        '9'
    }
}

/// A number in decimal, without leading zeros.
pub open spec fn decimal_text(n: nat) -> Seq<char>
    decreases n,
{
    if n < 10 {
        seq![digit_char(n as int)]
    } else {
        decimal_text(n / 10).push(digit_char((n % 10) as int))
    }
}

/// Four bytes as a list of decimal numbers in square brackets.
pub open spec fn byte_list_text(bytes: Seq<u8>) -> Seq<char>
    recommends
        bytes.len() == 4,
{
    "["@ + decimal_text(bytes[0] as nat) + ", "@ + decimal_text(bytes[1] as nat) + ", "@
        + decimal_text(bytes[2] as nat) + ", "@ + decimal_text(bytes[3] as nat) + "]"@
}

/// The summary of a chunk, one line for each of its length, type code,
/// payload size and checksum.
pub open spec fn summary_text(type_text: Seq<char>, code: Seq<u8>, length: nat, crc: u32) -> Seq<
    char,
> {
    "Chunk {\n"@ + "    Length: "@ + decimal_text(length) + "\n"@ + "    Type code: \""@
        + type_text + "\" ("@ + byte_list_text(code) + ")\n"@ + "    Data: "@ + decimal_text(
        length,
    ) + " bytes\n"@ + "    CRC: "@ + decimal_text(crc as nat) + "\n"@ + "}\n"@
}

/// The text of one decimal digit.
fn digit_str(d: u32) -> (s: &'static str)
    requires
        d < 10,
    ensures
        s@ == seq![digit_char(d as int)],
{
    proof {
        reveal_strlit("0");
        reveal_strlit("1");
        reveal_strlit("2");
        reveal_strlit("3");
        reveal_strlit("4");
        reveal_strlit("5");
        reveal_strlit("6");
        reveal_strlit("7");
        reveal_strlit("8");
        reveal_strlit("9");
    }
    let s = if d == 0 {
        "0"
    } else if d == 1 {
        "1"
    } else if d == 2 {
        "2"
    } else if d == 3 {
        "3"
    } else if d == 4 {
        "4"
    } else if d == 5 {
        "5"
    } else if d == 6 {
        "6"
    } else if d == 7 {
        "7"
    } else if d == 8 {
        "8"
    } else {
        "9"
    };
    assert(s@ =~= seq![digit_char(d as int)]);
    s
}

/// Writes `n` in decimal.
pub fn decimal_string(n: u32) -> (s: String)
    ensures
        s@ == decimal_text(n as nat),
    decreases n,
{
    if n < 10 {
        String::from_str(digit_str(n))
    } else {
        let mut s = decimal_string(n / 10);
        s.append(digit_str(n % 10));
        s
    }
}

/// Writes four bytes as a list of decimal numbers in square brackets.
pub fn byte_list_string(bytes: &[u8; 4]) -> (s: String)
    ensures
        s@ == byte_list_text(bytes@),
{
    let mut s = String::from_str("[");
    s.append(decimal_string(bytes[0] as u32).as_str());
    s.append(", ");
    s.append(decimal_string(bytes[1] as u32).as_str());
    s.append(", ");
    s.append(decimal_string(bytes[2] as u32).as_str());
    s.append(", ");
    s.append(decimal_string(bytes[3] as u32).as_str());
    s.append("]");
    s
}

/// Writes the summary of a chunk from its parts.
pub fn render_summary(type_text: &str, code: &[u8; 4], length: u32, crc: u32) -> (s: String)
    ensures
        s@ == summary_text(type_text@, code@, length as nat, crc),
{
    let mut s = String::from_str("Chunk {\n");
    s.append("    Length: ");
    s.append(decimal_string(length).as_str());
    s.append("\n");
    s.append("    Type code: \"");
    s.append(type_text);
    s.append("\" (");
    s.append(byte_list_string(code).as_str());
    s.append(")\n");
    s.append("    Data: ");
    s.append(decimal_string(length).as_str());
    s.append(" bytes\n");
    s.append("    CRC: ");
    s.append(decimal_string(crc).as_str());
    s.append("\n");
    s.append("}\n");
    s
}

} // verus!
