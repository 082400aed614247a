//! The size of the pixel payload that a header calls for.

use vstd::prelude::*;
use crate::error::FormatError;
use crate::header::ContainerHeader;

verus! {

/// The number of bytes in an image of the given dimensions, as a mathematical
/// integer: one byte per channel of each pixel.
pub open spec fn pixel_bytes(width: u32, height: u32, channels: u8) -> int {
    width * height * channels
}

/// What `payload_size` yields: the byte count, unless the pixel count or the
/// byte count is more than a `usize` can hold.
pub open spec fn payload_size_of(header: ContainerHeader) -> Result<usize, FormatError> {
    if header.width * header.height > usize::MAX
        || pixel_bytes(header.width, header.height, header.channels) > usize::MAX {
        Err(
            FormatError::SizeOverflow {
                width: header.width,
                height: header.height,
                channels: header.channels,
            },
        )
    } else {
        Ok(pixel_bytes(header.width, header.height, header.channels) as usize)
    }
}

/// Computes `width * height * channels`, checking each multiplication.
pub fn payload_size(header: &ContainerHeader) -> (r: Result<usize, FormatError>)
    ensures
        r == payload_size_of(*header),
{
    let overflow = FormatError::SizeOverflow {
        width: header.width,
        height: header.height,
        channels: header.channels,
    };
    let pixels: usize = match (header.width as usize).checked_mul(header.height as usize) {
        Some(pixels) => pixels,
        None => {
            return Err(overflow);
        },
    };
    match pixels.checked_mul(header.channels as usize) {
        Some(bytes) => Ok(bytes),
        None => Err(overflow),
    }
}

/// With at least one channel the byte count is no less than the pixel count,
/// so the size is refused exactly when the byte count itself is too large.
pub proof fn lemma_overflow_is_of_byte_count(header: ContainerHeader)
    requires
        header.channels >= 1,
    ensures
        payload_size_of(header) is Err <==> pixel_bytes(
            header.width,
            header.height,
            header.channels,
        ) > usize::MAX,
{
    assert(header.width * header.height <= header.width * header.height * header.channels)
        by (nonlinear_arith)
        requires
            header.channels >= 1,
    ;
}

} // verus!
