//! A streaming CRC-32 checksum: a running accumulator over bytes fed in
//! arbitrary chunks, and a pass-through reader that checksums exactly the
//! bytes that flow through it.

pub mod crc;
pub mod reader;
pub mod source;

pub use crc::Crc;
pub use reader::ByteSource;
pub use reader::CrcReader;
pub use source::MemSource;
