//! The ways in which decoding a container can fail.

use vstd::prelude::*;

verus! {

/// Why a container was rejected. Every variant ends the decode; none is retried.
#[derive(Debug, Clone, Copy, PartialEq, Eq)]
pub enum FormatError {
    /// The input is shorter than the fixed header; `available` is its length.
    Truncated { available: usize },
    /// The first four bytes are not `l`, `z`, `4`, `i`.
    InvalidSignature,
    /// The channel count is neither 3 nor 4.
    UnsupportedChannels { channels: u8 },
    /// `width * height * channels` does not fit in `usize`.
    SizeOverflow { width: u32, height: u32, channels: u8 },
    /// The block did not decompress to exactly `expected` bytes. `written` is
    /// the count that the decompressor reported, or `None` where it reported
    /// an error or could not be given a buffer of that size.
    DecompressionFailed { expected: usize, written: Option<usize> },
    /// The pixel buffer holds `actual` bytes where the header calls for `expected`.
    BufferLengthMismatch { expected: usize, actual: usize },
}

} // verus!
