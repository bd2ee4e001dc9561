//! PNG-style chunks: a four-byte type code, a payload and a CRC-32 checksum,
//! with their wire encoding and the validating decoder.

pub mod checksum;
pub mod chunk;
pub mod chunk_type;
pub mod endian;
pub mod error;
pub mod frame;
pub mod text;
