//! The fixed header at the start of a container.

use vstd::prelude::*;
use crate::error::FormatError;

verus! {

/// Number of bytes that the header occupies.
pub const HEADER_SIZE: usize = 14;

/// The four bytes that open every container: ASCII `lz4i`.
pub const SIGNATURE: [u8; 4] = [0x6c, 0x7a, 0x34, 0x69];

/// The header fields, in host representation.
#[derive(Debug, Clone, Copy, PartialEq, Eq)]
pub struct ContainerHeader {
    /// Always `SIGNATURE` in a header that `parse_header` returned.
    pub signature: [u8; 4],
    /// Image width in pixels.
    pub width: u32,
    /// Image height in pixels.
    pub height: u32,
    /// Bytes per pixel: 3 for RGB, 4 for RGBA.
    pub channels: u8,
    /// Reserved; carried along and never interpreted.
    pub colorspace: u8,
}

/// The value of the four bytes of `bytes` from index `at` on, read as a
/// big-endian unsigned integer.
pub open spec fn be_u32(bytes: Seq<u8>, at: int) -> int {
    bytes[at] * 0x100_0000 + bytes[at + 1] * 0x1_0000 + bytes[at + 2] * 0x100 + bytes[at + 3]
}

/// Whether `bytes` opens with the container signature.
pub open spec fn has_signature(bytes: Seq<u8>) -> bool {
    bytes.len() >= 4 && bytes.subrange(0, 4) == SIGNATURE@
}

/// What parsing `bytes` as a header yields.
pub open spec fn header_of(bytes: Seq<u8>) -> Result<ContainerHeader, FormatError> {
    if bytes.len() < HEADER_SIZE {
        Err(FormatError::Truncated { available: bytes.len() as usize })
    } else if !has_signature(bytes) {
        Err(FormatError::InvalidSignature)
    } else if bytes[12] != 3 && bytes[12] != 4 {
        Err(FormatError::UnsupportedChannels { channels: bytes[12] })
    } else {
        Ok(
            ContainerHeader {
                signature: SIGNATURE,
                width: be_u32(bytes, 4) as u32,
                height: be_u32(bytes, 8) as u32,
                channels: bytes[12],
                colorspace: bytes[13],
            },
        )
    }
}

/// Reads the big-endian `u32` at `bytes[at..at + 4]`.
fn read_be_u32(bytes: &[u8], at: usize) -> (value: u32)
    requires
        at + 4 <= bytes@.len(),
    ensures
        value == be_u32(bytes@, at as int),
{
    let b0: u32 = bytes[at] as u32;
    let b1: u32 = bytes[at + 1] as u32;
    let b2: u32 = bytes[at + 2] as u32;
    let b3: u32 = bytes[at + 3] as u32;
    b0 * 0x100_0000 + b1 * 0x1_0000 + b2 * 0x100 + b3
}

/// Parses and validates the header at the start of `bytes`.
pub fn parse_header(bytes: &[u8]) -> (r: Result<ContainerHeader, FormatError>)
    ensures
        r == header_of(bytes@),
{
    if bytes.len() < HEADER_SIZE {
        return Err(FormatError::Truncated { available: bytes.len() });
    }
    if bytes[0] != SIGNATURE[0] || bytes[1] != SIGNATURE[1] || bytes[2] != SIGNATURE[2]
        || bytes[3] != SIGNATURE[3] {
        assert(!has_signature(bytes@));
        return Err(FormatError::InvalidSignature);
    }
    assert(bytes@.subrange(0, 4) =~= SIGNATURE@);
    let channels: u8 = bytes[12];
    if channels != 3 && channels != 4 {
        return Err(FormatError::UnsupportedChannels { channels });
    }
    Ok(
        ContainerHeader {
            signature: SIGNATURE,
            width: read_be_u32(bytes, 4),
            height: read_be_u32(bytes, 8),
            channels,
            colorspace: bytes[13],
        },
    )
}

} // verus!
