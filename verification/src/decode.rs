//! The whole pipeline, from the bytes of a container to its image.

use vstd::prelude::*;
use vstd::slice::slice_subrange;
use crate::block::{block_outcome, decompress, decompressed};
use crate::error::FormatError;
use crate::header::{has_signature, header_of, parse_header, HEADER_SIZE};
use crate::pixels::{build_image, image_of, layout_of, DecodedImage, ImageView};
use crate::size::{payload_size, payload_size_of, pixel_bytes};

verus! {

/// The image that the container `bytes` holds, or why it holds none: the
/// header is parsed, the payload size computed, the rest of the input
/// decompressed to that size and wrapped. The first stage that fails decides.
pub open spec fn decoded(bytes: Seq<u8>) -> Result<ImageView, FormatError> {
    match header_of(bytes) {
        Err(e) => Err(e),
        Ok(header) => match payload_size_of(header) {
            Err(e) => Err(e),
            Ok(expected) => match decompressed(block_of(bytes), expected) {
                Err(e) => Err(e),
                Ok(payload) => image_of(header, payload),
            },
        },
    }
}

/// Decodes a whole container held in memory. The length check on the
/// decompressed payload never fails here: what `decompress` hands on has
/// the expected length.
pub fn read_lz4i(bytes: &[u8]) -> (r: Result<DecodedImage, FormatError>)
    ensures
        match r {
            Ok(image) => decoded(bytes@) == Ok::<ImageView, FormatError>(image@),
            Err(e) => decoded(bytes@) == Err::<ImageView, FormatError>(e),
        },
        !(r matches Err(FormatError::BufferLengthMismatch { .. })),
{
    let header = match parse_header(bytes) {
        Ok(header) => header,
        Err(e) => {
            return Err(e);
        },
    };
    let expected: usize = match payload_size(&header) {
        Ok(expected) => expected,
        Err(e) => {
            return Err(e);
        },
    };
    let compressed = slice_subrange(bytes, HEADER_SIZE, bytes.len());
    assert(compressed@ =~= bytes@.skip(HEADER_SIZE as int));
    let payload = match decompress(compressed, expected) {
        Ok(payload) => payload,
        Err(e) => {
            return Err(e);
        },
    };
    build_image(&header, payload)
}

/// The part of a container after its header: the compressed block.
pub open spec fn block_of(bytes: Seq<u8>) -> Seq<u8> {
    bytes.skip(HEADER_SIZE as int)
}

/// An input shorter than the header is refused as truncated, whatever it holds.
pub proof fn lemma_short_input_is_truncated(bytes: Seq<u8>)
    requires
        bytes.len() < HEADER_SIZE,
    ensures
        header_of(bytes) == Err::<crate::header::ContainerHeader, FormatError>(
            FormatError::Truncated { available: bytes.len() as usize },
        ),
        decoded(bytes) == Err::<ImageView, FormatError>(
            FormatError::Truncated { available: bytes.len() as usize },
        ),
{
}

/// An input that holds a whole header and does not open with the signature
/// is refused for its signature, whatever follows the first four bytes.
pub proof fn lemma_wrong_signature_is_refused(bytes: Seq<u8>)
    requires
        bytes.len() >= HEADER_SIZE,
        !has_signature(bytes),
    ensures
        decoded(bytes) == Err::<ImageView, FormatError>(FormatError::InvalidSignature),
{
}

/// Under the signature, a channel count other than 3 and 4 is refused.
pub proof fn lemma_other_channel_counts_are_refused(bytes: Seq<u8>)
    requires
        bytes.len() >= HEADER_SIZE,
        has_signature(bytes),
        bytes[12] != 3,
        bytes[12] != 4,
    ensures
        decoded(bytes) == Err::<ImageView, FormatError>(
            FormatError::UnsupportedChannels { channels: bytes[12] },
        ),
{
}

/// Where the header is valid and the block decompresses to exactly the
/// bytes that the header calls for, at least one, the container decodes: to
/// an image of the header's dimensions, with the layout of its channel
/// count, whose pixels are those bytes, `width * height * channels` of them.
pub proof fn lemma_exact_payload_decodes(bytes: Seq<u8>)
    requires
        header_of(bytes) is Ok,
        ({
            let header = header_of(bytes)->Ok_0;
            let expected = pixel_bytes(header.width, header.height, header.channels);
            &&& 0 < expected <= usize::MAX
            &&& block_outcome(block_of(bytes), expected as usize) is Some
            &&& block_outcome(block_of(bytes), expected as usize)->Some_0.len() == expected
        }),
    ensures
        decoded(bytes) is Ok,
        ({
            let header = header_of(bytes)->Ok_0;
            let expected = pixel_bytes(header.width, header.height, header.channels);
            let image = decoded(bytes)->Ok_0;
            &&& image.width == header.width
            &&& image.height == header.height
            &&& layout_of(header.channels) == Some(image.layout)
            &&& image.data == block_outcome(block_of(bytes), expected as usize)->Some_0
            &&& image.data.len() == expected
            &&& image.wf()
        }),
{
    let header = header_of(bytes)->Ok_0;
    crate::size::lemma_overflow_is_of_byte_count(header);
}

/// The count that the decompressor reports for an outcome: the number of
/// bytes written, none for an error.
pub open spec fn count_of(outcome: Option<Seq<u8>>) -> Option<usize> {
    match outcome {
        Some(bytes) => Some(bytes.len() as usize),
        None => None,
    }
}

/// Where the header is valid and its size fits, a block that decompresses
/// to any other number of bytes than that size, or fails to decompress,
/// fails the decode, and the error carries the count.
pub proof fn lemma_other_counts_fail(bytes: Seq<u8>)
    requires
        header_of(bytes) is Ok,
        payload_size_of(header_of(bytes)->Ok_0) is Ok,
        ({
            let expected = payload_size_of(header_of(bytes)->Ok_0)->Ok_0;
            count_of(block_outcome(block_of(bytes), expected)) != Some(expected)
        }),
    ensures
        ({
            let expected = payload_size_of(header_of(bytes)->Ok_0)->Ok_0;
            decoded(bytes) == Err::<ImageView, FormatError>(
                FormatError::DecompressionFailed {
                    expected,
                    written: count_of(block_outcome(block_of(bytes), expected)),
                },
            )
        }),
{
}

/// A header that calls for no bytes at all never decodes: a count of zero
/// is refused like any failure.
pub proof fn lemma_empty_image_fails(bytes: Seq<u8>)
    requires
        header_of(bytes) is Ok,
        payload_size_of(header_of(bytes)->Ok_0) == Ok::<usize, FormatError>(0),
    ensures
        decoded(bytes) == Err::<ImageView, FormatError>(
            FormatError::DecompressionFailed {
                expected: 0,
                written: count_of(block_outcome(block_of(bytes), 0)),
            },
        ),
{
}

/// A decoded image is well formed, and the input that gave it opens with
/// a valid header of the same dimensions.
pub proof fn lemma_decoded_is_wf(bytes: Seq<u8>)
    requires
        decoded(bytes) is Ok,
    ensures
        decoded(bytes)->Ok_0.wf(),
        header_of(bytes) is Ok,
        decoded(bytes)->Ok_0.width == header_of(bytes)->Ok_0.width,
        decoded(bytes)->Ok_0.height == header_of(bytes)->Ok_0.height,
        decoded(bytes)->Ok_0.layout.spec_channels() == header_of(bytes)->Ok_0.channels,
{
}

} // verus!
